//! Filesystem statistics for a path: the pure part of a `statvfs(3)` binding.
//!
//! The native call itself is made by the caller; this library prepares the
//! NUL-terminated path it needs, and turns the call's return value, error code
//! and output record into a typed result.
pub mod error;
pub mod path;
pub mod stats;

pub use error::StatVFSError;
pub use path::c_path;
pub use stats::StatVFS;
