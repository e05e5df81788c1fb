//! The closed set of status codes returned by every engine entry point.

use vstd::prelude::*;

verus! {

/// An error code from an engine operation.
///
/// Zero is success; the negative codes partition into out-of-memory,
/// system-call failure, internal engine failure, pattern-syntax error,
/// package error and argument error. Any other code collapses to
/// [`RosieError::MiscErr`].
#[derive(Copy, Clone, Debug, Hash, Eq, PartialEq, Structural)]
pub enum RosieError {
    /// No error occurred.
    Success,
    /// An unknown error occurred.
    MiscErr,
    /// The engine could not allocate the memory it needed, either because
    /// the system allocator failed or because the configured limit was hit.
    OutOfMemory,
    /// A system API call failed.
    SysCallFailed,
    /// A failure occurred inside the engine itself.
    EngineCallFailed,
    /// An error related to a pattern input, for example a syntax error in
    /// the pattern expression.
    PatternError,
    /// An error related to a package input, for example a missing package
    /// or a syntax error inside a package file.
    PackageError,
    /// An invalid argument was passed to an engine entry point.
    ArgError,
}

impl RosieError {
    /// The error that a raw status code from the native boundary names.
    pub open spec fn spec_from(code: i32) -> RosieError {
        if code == 0 {
            RosieError::Success
        } else if code == -2 {
            RosieError::OutOfMemory
        } else if code == -3 {
            RosieError::SysCallFailed
        } else if code == -4 {
            RosieError::EngineCallFailed
        } else if code == -1001 {
            RosieError::PatternError
        } else if code == -1002 {
            RosieError::PackageError
        } else if code == -1003 {
            RosieError::ArgError
        } else {
            RosieError::MiscErr
        }
    }

    /// Map a raw status code from the native boundary to its error.
    pub fn from(code: i32) -> (r: Self)
        ensures
            r == RosieError::spec_from(code),
    {
        match code {
            0 => RosieError::Success,
            -2 => RosieError::OutOfMemory,
            -3 => RosieError::SysCallFailed,
            -4 => RosieError::EngineCallFailed,
            -1001 => RosieError::PatternError,
            -1002 => RosieError::PackageError,
            -1003 => RosieError::ArgError,
            _ => RosieError::MiscErr,
        }
    }
}

} // verus!
