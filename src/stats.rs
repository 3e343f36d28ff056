use vstd::prelude::*;
use crate::error::{StatVFSError, error_from_errno, errno_error};

verus! {

/// The statistics of one mounted filesystem, as one successful call reports
/// them.
#[derive(Copy, Clone, Debug, PartialEq, Eq, Structural)]
pub struct StatVFS {
    /// File system block size
    pub f_bsize: u64,
    /// Fragment size
    pub f_frsize: u64,
    /// Size of fs in f_frsize units
    pub f_blocks: u64,
    /// Number of free blocks
    pub f_bfree: u64,
    /// Number of free blocks for unprivileged users
    pub f_bavail: u64,
    /// Number of inodes
    pub f_files: u64,
    /// Number of free inodes
    pub f_ffree: u64,
    /// Number of free inodes for unprivileged users
    pub f_favail: u64,
    /// File system id
    pub f_fsid: u64,
    /// Mount flags
    pub f_flag: u64,
    /// Maximum file name length
    pub f_namemax: u64,
}

/// The native call's return value for success.
pub open spec fn call_succeeded(ret: i32) -> bool {
    ret == 0
}

/// The native call's return value for a failure whose cause is in the error
/// code register.
pub open spec fn call_failed(ret: i32) -> bool {
    ret == -1
}

/// A call outcome that has no typed result: a return value other than success
/// or failure, or a failure whose error code is not mapped.
pub open spec fn is_defect(ret: i32, errno: i32) -> bool {
    !call_succeeded(ret) && !(call_failed(ret) && errno_error(errno) is Some)
}

/// Tells whether a call outcome is one that must abort rather than be
/// returned.
pub fn is_unrecoverable(ret: i32, errno: i32) -> (r: bool)
    ensures
        r == is_defect(ret, errno),
{
    if ret == 0 {
        false
    } else if ret == -1 {
        error_from_errno(errno).is_none()
    } else {
        true
    }
}

/// Turns a call outcome into its typed result: `ret` is what the native call
/// returned, `errno` the error code register read right after it, and `record`
/// the output buffer. Success gives the record, failure the mapped error.
pub fn stats_from_call(ret: i32, errno: i32, record: StatVFS) -> (r: Result<StatVFS, StatVFSError>)
    requires
        !is_defect(ret, errno),
    ensures
        call_succeeded(ret) ==> r == Ok::<StatVFS, StatVFSError>(record),
        call_failed(ret) ==> r == Err::<StatVFS, StatVFSError>(errno_error(errno).unwrap()),
{
    if ret == 0 {
        Ok(record)
    } else {
        Err(error_from_errno(errno).unwrap())
    }
}

} // verus!
