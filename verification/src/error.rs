//! Failures reported by the binding, and how a failed lookup is classified.

use vstd::prelude::*;

verus! {

/// A failure that the native library reported in its own vocabulary.
#[derive(Debug, Clone)]
pub struct ZfsError {
    /// The native error code.
    pub code: u32,
    /// The native library's description of it.
    pub description: String,
}

/// Why an operation of the binding failed.
#[derive(Debug, Clone)]
pub enum Error {
    /// The native library reported a failure of its own.
    Zfs(ZfsError),
    /// The operating system reported a failure; the value is its error
    /// number.
    Sys(i32),
}

/// A broken promise of the native library: a value it guarantees never to
/// produce. The binding cannot go on past one of these, and none of them is
/// an [`Error`].
#[derive(Debug, Copy, Clone, PartialEq, Eq, Structural)]
pub enum ContractViolation {
    /// A pool state code outside the closed set.
    UnknownPoolState(u32),
    /// A dataset type code outside the closed set.
    UnknownDatasetType(u32),
    /// A name that is not UTF-8 text free of NUL bytes.
    InvalidName,
}

impl Error {
    /// The cause of a failed native call, told from what the session's
    /// error state and the operating system say afterwards.
    ///
    /// The session's error state is not cleared between calls, and the code
    /// `unknown` is what it holds when the library itself had nothing
    /// specific to say. So a last error with that code is taken to be left
    /// over, and the operating system's error number is reported instead.
    /// Any other code is reported as the library's own failure.
    pub open spec fn classified(last: ZfsError, unknown: u32, os_error: i32) -> Error {
        if last.code != unknown {
            Error::Zfs(last)
        } else {
            Error::Sys(os_error)
        }
    }

    /// Classifies a failed native call: see [`Error::classified`].
    pub fn classify(last: ZfsError, unknown: u32, os_error: i32) -> (e: Error)
        ensures
            e == Self::classified(last, unknown, os_error),
    {
        if last.code != unknown {
            Error::Zfs(last)
        } else {
            Error::Sys(os_error)
        }
    }
}

} // verus!
