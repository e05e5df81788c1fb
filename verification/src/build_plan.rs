//! The fixed data of the from-source build strategy.
//!
//! The engine is assembled from three native subsystems — a JSON
//! encoding helper library, the grammar-compiler and virtual-machine
//! pair, and the engine facade — compiled as one static library with a
//! fixed set of preprocessor definitions and include paths. Next to the
//! library a support-directory tree is staged: top-level metadata
//! files, precompiled scripting-runtime modules under `lib/`, and the
//! standard pattern-language definitions under `rpl/`. Downstream code
//! resolves patterns against that tree, so its layout is part of the
//! compatibility contract and is pinned here file by file.

use vstd::prelude::*;
use vstd::string::StringExecFns;

verus! {

/// The views of a sequence of path slices.
pub open spec fn path_views(ps: Seq<&str>) -> Seq<Seq<char>> {
    ps.map_values(|p: &str| p@)
}

/// The compilation units of the JSON encoding helper library.
pub open spec fn spec_cjson_sources() -> Seq<Seq<char>> {
    seq![
        "src/lua-cjson/fpconv.c"@,
        "src/lua-cjson/strbuf.c"@,
        "src/lua-cjson/lua_cjson.c"@,
    ]
}

/// The compilation units of the grammar compiler.
pub open spec fn spec_compiler_sources() -> Seq<Seq<char>> {
    seq![
        "src/rpeg/compiler/rbuf.c"@,
        "src/rpeg/compiler/lpcap.c"@,
        "src/rpeg/compiler/lptree.c"@,
        "src/rpeg/compiler/lpcode.c"@,
        "src/rpeg/compiler/lpprint.c"@,
    ]
}

/// The compilation units of the matching virtual machine's runtime.
pub open spec fn spec_runtime_sources() -> Seq<Seq<char>> {
    seq![
        "src/rpeg/runtime/buf.c"@,
        "src/rpeg/runtime/capture.c"@,
        "src/rpeg/runtime/file.c"@,
        "src/rpeg/runtime/json.c"@,
        "src/rpeg/runtime/ktable.c"@,
        "src/rpeg/runtime/rplx.c"@,
        "src/rpeg/runtime/vm.c"@,
    ]
}

/// The compilation unit of the engine facade.
pub open spec fn spec_facade_sources() -> Seq<Seq<char>> {
    seq!["src/librosie/librosie.c"@]
}

/// Every compilation unit of the from-source build, subsystem by
/// subsystem: the JSON helper, the grammar compiler, the runtime, and
/// the engine facade.
pub open spec fn spec_build_sources() -> Seq<Seq<char>> {
    spec_cjson_sources() + spec_compiler_sources() + spec_runtime_sources()
        + spec_facade_sources()
}

/// The C source files compiled into the static engine library, in
/// compile order.
pub fn build_sources() -> (r: Vec<&'static str>)
    ensures
        path_views(r@) == spec_build_sources(),
{
    let mut v: Vec<&'static str> = Vec::new();
    v.push("src/lua-cjson/fpconv.c");
    v.push("src/lua-cjson/strbuf.c");
    v.push("src/lua-cjson/lua_cjson.c");
    v.push("src/rpeg/compiler/rbuf.c");
    v.push("src/rpeg/compiler/lpcap.c");
    v.push("src/rpeg/compiler/lptree.c");
    v.push("src/rpeg/compiler/lpcode.c");
    v.push("src/rpeg/compiler/lpprint.c");
    v.push("src/rpeg/runtime/buf.c");
    v.push("src/rpeg/runtime/capture.c");
    v.push("src/rpeg/runtime/file.c");
    v.push("src/rpeg/runtime/json.c");
    v.push("src/rpeg/runtime/ktable.c");
    v.push("src/rpeg/runtime/rplx.c");
    v.push("src/rpeg/runtime/vm.c");
    v.push("src/librosie/librosie.c");
    proof {
        assert(path_views(v@) =~= spec_build_sources());
    }
    v
}

/// The preprocessor definitions the bundled sources require: the
/// grammar compiler's debug-instrumentation flag, the release-mode
/// flag, and the scripting runtime's API-compatibility flag.
pub open spec fn spec_build_defines() -> Seq<Seq<char>> {
    seq!["LPEG_DEBUG"@, "NDEBUG"@, "LUA_COMPAT_5_2"@]
}

/// The preprocessor definitions passed to every compilation unit.
pub fn build_defines() -> (r: Vec<&'static str>)
    ensures
        path_views(r@) == spec_build_defines(),
{
    let mut v: Vec<&'static str> = Vec::new();
    v.push("LPEG_DEBUG");
    v.push("NDEBUG");
    v.push("LUA_COMPAT_5_2");
    proof {
        assert(path_views(v@) =~= spec_build_defines());
    }
    v
}

/// The include directories of the from-source build: the embedded
/// scripting runtime's headers, as published by the upstream build
/// dependency, and the grammar engine's own headers.
pub fn build_include_dirs(lua_include_dir: &str) -> (r: Vec<String>)
    ensures
        r@.len() == 2,
        r@[0]@ == lua_include_dir@,
        r@[1]@ == "src/rpeg/include"@,
{
    let mut v: Vec<String> = Vec::new();
    v.push(String::from_str(lua_include_dir));
    v.push(String::from_str("src/rpeg/include"));
    v
}

/// The engine headers staged for consumers that build C code against
/// the produced library.
pub fn staged_headers() -> (r: Vec<&'static str>)
    ensures
        r@.len() == 1,
        r@[0]@ == "librosie.h"@,
{
    let mut v: Vec<&'static str> = Vec::new();
    v.push("librosie.h");
    v
}

/// The top-level metadata files of the support directory.
pub open spec fn spec_home_metadata() -> Seq<Seq<char>> {
    seq!["CHANGELOG"@, "CONTRIBUTORS"@, "LICENSE"@, "README"@, "VERSION"@]
}

/// The metadata files staged at the root of the support directory.
pub fn home_metadata_files() -> (r: Vec<&'static str>)
    ensures
        path_views(r@) == spec_home_metadata(),
{
    let mut v: Vec<&'static str> = Vec::new();
    v.push("CHANGELOG");
    v.push("CONTRIBUTORS");
    v.push("LICENSE");
    v.push("README");
    v.push("VERSION");
    proof {
        assert(path_views(v@) =~= spec_home_metadata());
    }
    v
}

/// The precompiled scripting-runtime modules staged under `lib/`.
pub open spec fn spec_home_lib_modules() -> Seq<Seq<char>> {
    seq![
        "lib/argparse.luac"@,
        "lib/ast.luac"@,
        "lib/boot.luac"@,
        "lib/builtins.luac"@,
        "lib/cli-common.luac"@,
        "lib/cli-match.luac"@,
        "lib/cli-parser.luac"@,
        "lib/cli.luac"@,
        "lib/color.luac"@,
        "lib/common.luac"@,
        "lib/compile.luac"@,
        "lib/engine_module.luac"@,
        "lib/environment.luac"@,
        "lib/expand.luac"@,
        "lib/expr.luac"@,
        "lib/infix.luac"@,
        "lib/init.luac"@,
        "lib/list.luac"@,
        "lib/loadpkg.luac"@,
        "lib/parse.luac"@,
        "lib/parse_core.luac"@,
        "lib/rcfile.luac"@,
        "lib/recordtype.luac"@,
        "lib/repl.luac"@,
        "lib/strict.luac"@,
        "lib/submodule.luac"@,
        "lib/thread.luac"@,
        "lib/trace.luac"@,
        "lib/ui.luac"@,
        "lib/unittest.luac"@,
        "lib/ustring.luac"@,
        "lib/util.luac"@,
        "lib/violation.luac"@,
        "lib/writer.luac"@,
    ]
}

/// The scripting-runtime modules staged under `lib/`.
pub fn home_lib_modules() -> (r: Vec<&'static str>)
    ensures
        path_views(r@) == spec_home_lib_modules(),
{
    let mut v: Vec<&'static str> = Vec::new();
    v.push("lib/argparse.luac");
    v.push("lib/ast.luac");
    v.push("lib/boot.luac");
    v.push("lib/builtins.luac");
    v.push("lib/cli-common.luac");
    v.push("lib/cli-match.luac");
    v.push("lib/cli-parser.luac");
    v.push("lib/cli.luac");
    v.push("lib/color.luac");
    v.push("lib/common.luac");
    v.push("lib/compile.luac");
    v.push("lib/engine_module.luac");
    v.push("lib/environment.luac");
    v.push("lib/expand.luac");
    v.push("lib/expr.luac");
    v.push("lib/infix.luac");
    v.push("lib/init.luac");
    v.push("lib/list.luac");
    v.push("lib/loadpkg.luac");
    v.push("lib/parse.luac");
    v.push("lib/parse_core.luac");
    v.push("lib/rcfile.luac");
    v.push("lib/recordtype.luac");
    v.push("lib/repl.luac");
    v.push("lib/strict.luac");
    v.push("lib/submodule.luac");
    v.push("lib/thread.luac");
    v.push("lib/trace.luac");
    v.push("lib/ui.luac");
    v.push("lib/unittest.luac");
    v.push("lib/ustring.luac");
    v.push("lib/util.luac");
    v.push("lib/violation.luac");
    v.push("lib/writer.luac");
    proof {
        assert(path_views(v@) =~= spec_home_lib_modules());
    }
    v
}

/// The standard pattern-language definitions staged under `rpl/`,
/// with its `Unicode/`, `builtin/` and `rosie/` subtrees.
pub open spec fn spec_home_rpl_files() -> Seq<Seq<char>> {
    seq![
        "rpl/all.rpl"@,
        "rpl/char.rpl"@,
        "rpl/csv.rpl"@,
        "rpl/date.rpl"@,
        "rpl/id.rpl"@,
        "rpl/json.rpl"@,
        "rpl/net.rpl"@,
        "rpl/num.rpl"@,
        "rpl/os.rpl"@,
        "rpl/re.rpl"@,
        "rpl/time.rpl"@,
        "rpl/ts.rpl"@,
        "rpl/ver.rpl"@,
        "rpl/word.rpl"@,
        "rpl/Unicode/Ascii.rpl"@,
        "rpl/Unicode/Block.rpl"@,
        "rpl/Unicode/Category.rpl"@,
        "rpl/Unicode/GraphemeBreak.rpl"@,
        "rpl/Unicode/LineBreak.rpl"@,
        "rpl/Unicode/NumericType.rpl"@,
        "rpl/Unicode/Property.rpl"@,
        "rpl/Unicode/Script.rpl"@,
        "rpl/Unicode/SentenceBreak.rpl"@,
        "rpl/Unicode/WordBreak.rpl"@,
        "rpl/builtin/prelude.rpl"@,
        "rpl/rosie/rcfile.rpl"@,
        "rpl/rosie/rpl_1_1.rpl"@,
        "rpl/rosie/rpl_1_2.rpl"@,
        "rpl/rosie/rpl_1_3.rpl"@,
    ]
}

/// The pattern-language definition files staged under `rpl/`.
pub fn home_rpl_files() -> (r: Vec<&'static str>)
    ensures
        path_views(r@) == spec_home_rpl_files(),
{
    let mut v: Vec<&'static str> = Vec::new();
    v.push("rpl/all.rpl");
    v.push("rpl/char.rpl");
    v.push("rpl/csv.rpl");
    v.push("rpl/date.rpl");
    v.push("rpl/id.rpl");
    v.push("rpl/json.rpl");
    v.push("rpl/net.rpl");
    v.push("rpl/num.rpl");
    v.push("rpl/os.rpl");
    v.push("rpl/re.rpl");
    v.push("rpl/time.rpl");
    v.push("rpl/ts.rpl");
    v.push("rpl/ver.rpl");
    v.push("rpl/word.rpl");
    v.push("rpl/Unicode/Ascii.rpl");
    v.push("rpl/Unicode/Block.rpl");
    v.push("rpl/Unicode/Category.rpl");
    v.push("rpl/Unicode/GraphemeBreak.rpl");
    v.push("rpl/Unicode/LineBreak.rpl");
    v.push("rpl/Unicode/NumericType.rpl");
    v.push("rpl/Unicode/Property.rpl");
    v.push("rpl/Unicode/Script.rpl");
    v.push("rpl/Unicode/SentenceBreak.rpl");
    v.push("rpl/Unicode/WordBreak.rpl");
    v.push("rpl/builtin/prelude.rpl");
    v.push("rpl/rosie/rcfile.rpl");
    v.push("rpl/rosie/rpl_1_1.rpl");
    v.push("rpl/rosie/rpl_1_2.rpl");
    v.push("rpl/rosie/rpl_1_3.rpl");
    proof {
        assert(path_views(v@) =~= spec_home_rpl_files());
    }
    v
}

/// The whole support-directory manifest, in staging order: metadata,
/// then the scripting-runtime modules, then the pattern-language
/// definitions.
pub open spec fn spec_home_manifest() -> Seq<Seq<char>> {
    spec_home_metadata() + spec_home_lib_modules() + spec_home_rpl_files()
}

/// Every file staged into the support directory, relative to its
/// root. The staging step copies each one verbatim from the source
/// tree into a freshly emptied output directory.
pub fn home_manifest() -> (r: Vec<&'static str>)
    ensures
        path_views(r@) == spec_home_manifest(),
{
    let mut v = home_metadata_files();
    let mut lib = home_lib_modules();
    let mut rpl = home_rpl_files();
    v.append(&mut lib);
    v.append(&mut rpl);
    proof {
        assert(path_views(v@) =~= spec_home_manifest());
    }
    v
}

} // verus!
