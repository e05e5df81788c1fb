//! Host-side gateway to a native pattern-matching engine.
//!
//! The boundary types model the values that cross the foreign-function
//! surface: byte-buffer views with an explicit null regime, the closed
//! set of engine status codes, the encoder and trace-format selectors,
//! and the match-result record. The session records the ownership
//! protocol the engine imposes on handles, compiled patterns and match
//! results. The acquisition planner holds the policy that decides,
//! before any engine call can happen, how a linkable engine artifact
//! is obtained: an ordered chain of strategies with a fatal outcome
//! only when every strategy has failed, and, for a from-source build,
//! the fixed plan of compilation units and staged support files.

pub mod acquire;
pub mod build_plan;
pub mod encoder;
pub mod error;
pub mod matchresult;
pub mod rstr;
pub mod session;

use vstd::prelude::*;

verus! {

/// The default support-directory path baked into this build, if any.
///
/// A build of this crate bakes no such path, so callers always receive
/// `None` and must configure the support directory themselves.
pub fn rosie_home_default() -> (r: Option<&'static str>)
    ensures
        r is None,
{
    None
}

} // verus!
