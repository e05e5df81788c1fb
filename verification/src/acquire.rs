//! The library-acquisition planner.
//!
//! Before anything can call the native engine, a linkable engine
//! artifact has to exist. The policy that obtains one is a fixed,
//! ordered chain of strategies: ask the platform's package metadata for
//! an installed engine, then probe whether a conventionally named
//! system library links anyway, then compile the engine from the
//! bundled sources. The chain stops at the first success; only
//! exhaustion of the whole chain is fatal. This module holds that
//! policy and the directives each successful strategy publishes; the
//! fixed data of the from-source build itself lives in `build_plan`.
//! Carrying the strategies out (running the discovery tool, the smoke
//! compilation, the C compiler, the file copies) is the unverified
//! driver's job; it reports each outcome back and follows the
//! decisions made here.

use vstd::prelude::*;
use vstd::string::StringExecFns;

verus! {

/// Which build mode the configuration selected.
#[derive(Copy, Clone, Debug, PartialEq, Eq, Structural)]
pub enum BuildMode {
    /// Link an engine that is already installed on the system.
    LinkShared,
    /// Compile a private static engine from the bundled sources.
    BuildStatic,
}

/// A fatal configuration error, reported before anything is attempted.
#[derive(Copy, Clone, Debug, PartialEq, Eq, Structural)]
pub enum ConfigError {
    /// Both build modes were selected at once.
    ConflictingModes,
    /// Neither build mode was selected.
    NoModeChosen,
}

/// One strategy in the acquisition chain, in chain order.
#[derive(Copy, Clone, Debug, PartialEq, Eq, Structural)]
pub enum Strategy {
    /// Ask the platform's package-metadata registry for an installed
    /// engine package and use the linker flags it reports.
    SystemDiscovery,
    /// Compile and link a trivial probe against the conventionally
    /// named system library, to catch an installed engine the registry
    /// does not know about.
    SmokeLink,
    /// Compile the engine from the bundled C sources into a static
    /// library and stage its support files.
    FromSource,
}

/// Check the build-mode selection: exactly one mode must be chosen,
/// and choosing both or neither is a fatal configuration error.
pub fn validate_mode(link_shared: bool, build_static: bool) -> (r: Result<
    BuildMode,
    ConfigError,
>)
    ensures
        link_shared && build_static ==> r == Err::<BuildMode, ConfigError>(
            ConfigError::ConflictingModes,
        ),
        !link_shared && !build_static ==> r == Err::<BuildMode, ConfigError>(
            ConfigError::NoModeChosen,
        ),
        link_shared && !build_static ==> r == Ok::<BuildMode, ConfigError>(
            BuildMode::LinkShared,
        ),
        build_static && !link_shared ==> r == Ok::<BuildMode, ConfigError>(
            BuildMode::BuildStatic,
        ),
{
    if link_shared && build_static {
        Err(ConfigError::ConflictingModes)
    } else if link_shared {
        Ok(BuildMode::LinkShared)
    } else if build_static {
        Ok(BuildMode::BuildStatic)
    } else {
        Err(ConfigError::NoModeChosen)
    }
}

/// Where each mode enters the chain: linking starts at system
/// discovery; a static build goes straight to the from-source
/// strategy.
pub open spec fn spec_entry(mode: BuildMode) -> Strategy {
    match mode {
        BuildMode::LinkShared => Strategy::SystemDiscovery,
        BuildMode::BuildStatic => Strategy::FromSource,
    }
}

/// The strategy the chain tries first under the given mode.
pub fn entry_strategy(mode: BuildMode) -> (r: Strategy)
    ensures
        r == spec_entry(mode),
{
    match mode {
        BuildMode::LinkShared => Strategy::SystemDiscovery,
        BuildMode::BuildStatic => Strategy::FromSource,
    }
}

/// The strategy tried after `s` has failed; `None` means the chain is
/// exhausted and the acquisition as a whole has failed.
pub open spec fn spec_next(s: Strategy) -> Option<Strategy> {
    match s {
        Strategy::SystemDiscovery => Some(Strategy::SmokeLink),
        Strategy::SmokeLink => Some(Strategy::FromSource),
        Strategy::FromSource => None,
    }
}

/// How many strategies remain at and after `s`; the chain's walk
/// shrinks this.
pub open spec fn spec_rank(s: Strategy) -> nat {
    match s {
        Strategy::SystemDiscovery => 3,
        Strategy::SmokeLink => 2,
        Strategy::FromSource => 1,
    }
}

/// The strategy to fall back to once `s` has failed.
pub fn next_strategy(s: Strategy) -> (r: Option<Strategy>)
    ensures
        r == spec_next(s),
{
    match s {
        Strategy::SystemDiscovery => Some(Strategy::SmokeLink),
        Strategy::SmokeLink => Some(Strategy::FromSource),
        Strategy::FromSource => None,
    }
}

/// Whether strategy `s` succeeds, given what each probe reports:
/// whether discovery finds an installed package, whether the smoke
/// link goes through, and whether the from-source build completes.
pub open spec fn spec_succeeds(
    s: Strategy,
    discovery_found: bool,
    smoke_link_ok: bool,
    source_build_ok: bool,
) -> bool {
    match s {
        Strategy::SystemDiscovery => discovery_found,
        Strategy::SmokeLink => smoke_link_ok,
        Strategy::FromSource => source_build_ok,
    }
}

/// The first strategy at or after `s` in the chain that succeeds,
/// given what each probe reports; `None` when every remaining strategy
/// fails.
pub open spec fn spec_run_from(
    s: Strategy,
    discovery_found: bool,
    smoke_link_ok: bool,
    source_build_ok: bool,
) -> Option<Strategy>
    decreases spec_rank(s),
{
    if spec_succeeds(s, discovery_found, smoke_link_ok, source_build_ok) {
        Some(s)
    } else {
        match spec_next(s) {
            Some(n) => spec_run_from(n, discovery_found, smoke_link_ok, source_build_ok),
            None => None,
        }
    }
}

/// Walk the chain from the mode's entry strategy and report the first
/// strategy that succeeds, or `None` when the chain is exhausted —
/// the fatal case the caller must treat as a configuration error.
pub fn run_chain(
    mode: BuildMode,
    discovery_found: bool,
    smoke_link_ok: bool,
    source_build_ok: bool,
) -> (r: Option<Strategy>)
    ensures
        r == spec_run_from(spec_entry(mode), discovery_found, smoke_link_ok, source_build_ok),
{
    let mut s = entry_strategy(mode);
    loop
        invariant
            spec_run_from(s, discovery_found, smoke_link_ok, source_build_ok)
                == spec_run_from(
                spec_entry(mode),
                discovery_found,
                smoke_link_ok,
                source_build_ok,
            ),
        decreases spec_rank(s),
    {
        let hit = match s {
            Strategy::SystemDiscovery => discovery_found,
            Strategy::SmokeLink => smoke_link_ok,
            Strategy::FromSource => source_build_ok,
        };
        if hit {
            return Some(s);
        }
        match next_strategy(s) {
            Some(n) => {
                s = n;
            },
            None => {
                return None;
            },
        }
    }
}

/// Law: when discovery reports nothing installed and the smoke link
/// fails, the chain entered at system discovery falls through its
/// first two strategies, and ends exactly when the from-source build
/// does: it succeeds via the from-source strategy, or fails as a
/// whole.
pub proof fn lemma_fallback_reaches_source(source_build_ok: bool)
    ensures
        spec_run_from(Strategy::SystemDiscovery, false, false, source_build_ok) == (
        if source_build_ok {
            Some(Strategy::FromSource)
        } else {
            None::<Strategy>
        }),
{
    assert(spec_run_from(Strategy::SmokeLink, false, false, source_build_ok)
        == spec_run_from(Strategy::FromSource, false, false, source_build_ok));
}

/// The build directives a successful strategy publishes, given the
/// upstream scripting-runtime library directory and the build's output
/// directory.
///
/// System discovery publishes nothing here: the discovery tool reports
/// the installed package's own linker flags. The smoke link publishes
/// the one directive that links the system library by its conventional
/// name. The from-source build publishes the search path and name of
/// the statically linked scripting runtime, the engine library itself,
/// the rebuild-tracking directive that watches the bundled sources,
/// and the three locations downstream consumers read: the staged
/// support directory, the staged headers, and the built library.
pub fn link_directives(s: Strategy, lua_lib_dir: &str, out_dir: &str) -> (r: Vec<String>)
    ensures
        s == Strategy::SystemDiscovery ==> r@.len() == 0,
        s == Strategy::SmokeLink ==> r@.len() == 1 && r@[0]@ == "cargo:rustc-link-lib=rosie"@,
        s == Strategy::FromSource ==> ({
            &&& r@.len() == 7
            &&& r@[0]@ == "cargo:rustc-link-search="@ + lua_lib_dir@
            &&& r@[1]@ == "cargo:rustc-link-lib=lua5.3"@
            &&& r@[2]@ == "cargo:rustc-link-lib=rosie"@
            &&& r@[3]@ == "cargo:rerun-if-changed=src"@
            &&& r@[4]@ == "cargo:rustc-env=ROSIE_HOME_DIR="@ + (out_dir@ + "/rosie_home"@)
            &&& r@[5]@ == "cargo:include="@ + (out_dir@ + "/include"@)
            &&& r@[6]@ == "cargo:lib="@ + out_dir@
        }),
{
    let mut v: Vec<String> = Vec::new();
    match s {
        Strategy::SystemDiscovery => v,
        Strategy::SmokeLink => {
            v.push(String::from_str("cargo:rustc-link-lib=rosie"));
            v
        },
        Strategy::FromSource => {
            v.push(String::from_str("cargo:rustc-link-search=").concat(lua_lib_dir));
            v.push(String::from_str("cargo:rustc-link-lib=lua5.3"));
            v.push(String::from_str("cargo:rustc-link-lib=rosie"));
            v.push(String::from_str("cargo:rerun-if-changed=src"));
            let home = staged_home_path(out_dir);
            v.push(String::from_str("cargo:rustc-env=ROSIE_HOME_DIR=").concat(home.as_str()));
            let headers_dir = staged_include_path(out_dir);
            v.push(String::from_str("cargo:include=").concat(headers_dir.as_str()));
            v.push(String::from_str("cargo:lib=").concat(out_dir));
            v
        },
    }
}

/// Path of the staged support directory below the build's output
/// directory. The published path is never empty.
pub fn staged_home_path(out_dir: &str) -> (r: String)
    ensures
        r@ == out_dir@ + "/rosie_home"@,
        r@.len() > 0,
{
    proof {
        reveal_strlit("/rosie_home");
    }
    String::from_str(out_dir).concat("/rosie_home")
}

/// Path of the directory the engine's header is staged into, below
/// the build's output directory.
pub fn staged_include_path(out_dir: &str) -> (r: String)
    ensures
        r@ == out_dir@ + "/include"@,
        r@.len() > 0,
{
    proof {
        reveal_strlit("/include");
    }
    String::from_str(out_dir).concat("/include")
}

} // verus!
