//! Verified core of a safe binding to the ZFS management library.
//!
//! The native library hands out opaque handles, integer codes and C strings.
//! This crate holds every decision the binding makes about them: which
//! handle counts as a failure and how that failure is classified, how integer
//! codes map to closed enumerations, how type masks combine, which byte
//! strings may cross the boundary, and how a tree walk is collected into
//! owned handles. The native calls themselves are made by the caller, which
//! passes their plain results in.

pub mod error;
pub mod handle;
pub mod kinds;
pub mod string;

pub use error::{ContractViolation, Error, ZfsError};
pub use handle::{zfs_iter_collect, LibZfs, ZPool, ZfsDataset};
pub use kinds::{ZPoolState, ZfsType, ZfsTypeMask};
pub use string::{NulError, SafeString};
