//! Tests of the acquisition planner, the from-source build plan, and
//! the engine-session protocol.

use rosie_sys::acquire::{
    entry_strategy, link_directives, next_strategy, run_chain, staged_home_path,
    staged_include_path, validate_mode, BuildMode, ConfigError, Strategy,
};
use rosie_sys::build_plan::{
    build_defines, build_include_dirs, build_sources, home_lib_modules, home_manifest,
    home_metadata_files, home_rpl_files, staged_headers,
};
use rosie_sys::session::EngineSession;

#[test]
fn mode_selection_is_exactly_one() {
    assert_eq!(validate_mode(true, true), Err(ConfigError::ConflictingModes));
    assert_eq!(validate_mode(false, false), Err(ConfigError::NoModeChosen));
    assert_eq!(validate_mode(true, false), Ok(BuildMode::LinkShared));
    assert_eq!(validate_mode(false, true), Ok(BuildMode::BuildStatic));
}

#[test]
fn chain_order() {
    assert_eq!(entry_strategy(BuildMode::LinkShared), Strategy::SystemDiscovery);
    assert_eq!(entry_strategy(BuildMode::BuildStatic), Strategy::FromSource);
    assert_eq!(next_strategy(Strategy::SystemDiscovery), Some(Strategy::SmokeLink));
    assert_eq!(next_strategy(Strategy::SmokeLink), Some(Strategy::FromSource));
    assert_eq!(next_strategy(Strategy::FromSource), None);
}

#[test]
fn chain_stops_at_first_success() {
    let m = BuildMode::LinkShared;
    assert_eq!(run_chain(m, true, true, true), Some(Strategy::SystemDiscovery));
    assert_eq!(run_chain(m, false, true, true), Some(Strategy::SmokeLink));
    assert_eq!(run_chain(m, false, false, false), None);
}

#[test]
fn fallback_reaches_from_source() {
    // No installed engine package and no linkable system library: the
    // chain falls through its first two strategies and succeeds via
    // the from-source build.
    let got = run_chain(BuildMode::LinkShared, false, false, true);
    assert_eq!(got, Some(Strategy::FromSource));

    // The support-directory path such a build publishes is non-empty.
    let home = staged_home_path("target/native");
    assert_eq!(home, "target/native/rosie_home");
    assert!(!home.is_empty());
}

#[test]
fn static_build_goes_straight_to_source() {
    // The static mode enters the chain at the from-source strategy and
    // never consults the system probes.
    assert_eq!(run_chain(BuildMode::BuildStatic, true, true, false), None);
    assert_eq!(run_chain(BuildMode::BuildStatic, false, false, true), Some(Strategy::FromSource));
}

#[test]
fn published_directives() {
    let none = link_directives(Strategy::SystemDiscovery, "/lua/lib", "/out");
    assert!(none.is_empty());

    let smoke = link_directives(Strategy::SmokeLink, "/lua/lib", "/out");
    assert_eq!(smoke, vec!["cargo:rustc-link-lib=rosie"]);

    let built = link_directives(Strategy::FromSource, "/lua/lib", "/out");
    assert_eq!(
        built,
        vec![
            "cargo:rustc-link-search=/lua/lib",
            "cargo:rustc-link-lib=lua5.3",
            "cargo:rustc-link-lib=rosie",
            "cargo:rerun-if-changed=src",
            "cargo:rustc-env=ROSIE_HOME_DIR=/out/rosie_home",
            "cargo:include=/out/include",
            "cargo:lib=/out",
        ]
    );
}

#[test]
fn staged_paths() {
    assert_eq!(staged_home_path("/out"), "/out/rosie_home");
    assert_eq!(staged_include_path("/out"), "/out/include");
}

#[test]
fn build_plan_sources() {
    let sources = build_sources();
    assert_eq!(sources.len(), 16);
    assert_eq!(sources[0], "src/lua-cjson/fpconv.c");
    assert_eq!(sources[2], "src/lua-cjson/lua_cjson.c");
    assert_eq!(sources[3], "src/rpeg/compiler/rbuf.c");
    assert_eq!(sources[8], "src/rpeg/runtime/buf.c");
    assert_eq!(sources[15], "src/librosie/librosie.c");

    let defines = build_defines();
    assert_eq!(defines, vec!["LPEG_DEBUG", "NDEBUG", "LUA_COMPAT_5_2"]);

    let dirs = build_include_dirs("/lua/headers");
    assert_eq!(dirs, vec!["/lua/headers", "src/rpeg/include"]);

    let headers = staged_headers();
    assert_eq!(headers, vec!["librosie.h"]);
}

#[test]
fn support_directory_manifest() {
    let meta = home_metadata_files();
    assert_eq!(
        meta,
        vec!["CHANGELOG", "CONTRIBUTORS", "LICENSE", "README", "VERSION"]
    );

    let lib = home_lib_modules();
    assert_eq!(lib.len(), 34);
    assert_eq!(lib[0], "lib/argparse.luac");
    assert_eq!(lib[33], "lib/writer.luac");

    let rpl = home_rpl_files();
    assert_eq!(rpl.len(), 29);
    assert_eq!(rpl[0], "rpl/all.rpl");
    assert!(rpl.contains(&"rpl/Unicode/Script.rpl"));
    assert!(rpl.contains(&"rpl/builtin/prelude.rpl"));
    assert!(rpl.contains(&"rpl/rosie/rpl_1_3.rpl"));

    let manifest = home_manifest();
    assert_eq!(manifest.len(), meta.len() + lib.len() + rpl.len());
    assert_eq!(manifest[0], "CHANGELOG");
    assert_eq!(manifest[5], "lib/argparse.luac");
    assert_eq!(manifest[39], "rpl/all.rpl");
    assert_eq!(manifest[67], "rpl/rosie/rpl_1_3.rpl");
}

#[test]
fn session_lifecycle() {
    let mut s = EngineSession::new();
    assert!(!s.has_pattern(7));

    // A compiled pattern is recorded, matched under a lease, and freed
    // before the engine goes away.
    s.note_compiled(7);
    assert!(s.has_pattern(7));
    assert!(!s.may_finalize());

    s.begin_match(7);
    assert!(s.is_leased(7));
    s.end_match(7);
    assert!(!s.is_leased(7));

    s.note_freed(7);
    assert!(!s.has_pattern(7));
    assert!(s.may_finalize());
    s.finalize();
}

#[test]
fn session_leases_are_per_pattern() {
    // A result of one pattern being read does not block matching
    // against a different pattern of the same engine.
    let mut s = EngineSession::new();
    s.note_compiled(1);
    s.note_compiled(2);
    s.begin_match(1);
    s.begin_match(2);
    assert!(s.is_leased(1));
    assert!(s.is_leased(2));
    s.end_match(1);
    assert!(!s.is_leased(1));
    assert!(s.is_leased(2));
    s.end_match(2);
    s.note_freed(1);
    s.note_freed(2);
    s.finalize();
}

#[test]
fn session_tracks_each_pattern() {
    let mut s = EngineSession::new();
    s.note_compiled(1);
    s.note_compiled(2);
    s.note_compiled(3);
    s.note_freed(2);
    assert!(s.has_pattern(1));
    assert!(!s.has_pattern(2));
    assert!(s.has_pattern(3));
    assert!(!s.may_finalize());
    s.note_freed(1);
    s.note_freed(3);
    assert!(s.may_finalize());
    s.finalize();
}
