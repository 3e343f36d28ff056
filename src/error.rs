use vstd::prelude::*;

verus! {

/// An error value returned from a failed `statvfs` call.
#[derive(Copy, Clone, Debug, PartialEq, Eq, Structural, Ord, PartialOrd, Hash)]
pub enum StatVFSError {
    /// [EACCES] Search permission is denied for a component of the path prefix of path.
    Permission,
    /// [EBADF] fd is not a valid open file descriptor.
    InvalidFileDescriptor,
}

/// The value of `EACCES` ("permission denied") on Linux.
pub open spec fn permission_denied_code() -> i32 {
    13
}

/// The value of `EBADF` ("bad file descriptor") on Linux.
pub open spec fn bad_descriptor_code() -> i32 {
    9
}

/// Relies on `libc::EACCES`, declared as 13 for Linux targets.
#[verifier::external_body]
fn libc_eacces() -> (r: i32)
    ensures
        r == permission_denied_code(),
{
    libc::EACCES
}

/// Relies on `libc::EBADF`, declared as 9 for Linux targets.
#[verifier::external_body]
fn libc_ebadf() -> (r: i32)
    ensures
        r == bad_descriptor_code(),
{
    libc::EBADF
}

/// The typed error for a native error code, or `None` for a code outside the
/// mapped set.
pub open spec fn errno_error(code: i32) -> Option<StatVFSError> {
    if code == permission_denied_code() {
        Some(StatVFSError::Permission)
    } else if code == bad_descriptor_code() {
        Some(StatVFSError::InvalidFileDescriptor)
    } else {
        None
    }
}

/// Maps a native error code to its typed error; `None` when the code is not
/// one this library knows.
pub fn error_from_errno(code: i32) -> (r: Option<StatVFSError>)
    ensures
        r == errno_error(code),
{
    if code == libc_eacces() {
        Some(StatVFSError::Permission)
    } else if code == libc_ebadf() {
        Some(StatVFSError::InvalidFileDescriptor)
    } else {
        None
    }
}

} // verus!
