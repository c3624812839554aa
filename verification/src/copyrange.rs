//! Classifying the outcome of the in-kernel byte-range copy.
//!
//! The kernel mechanism that copies bytes directly between two descriptors is
//! not available for every pair of files. A fixed, closed set of error codes
//! means "use the user-space fallback"; anything outside it is fatal and must
//! not be silently swallowed.

use vstd::prelude::*;

use crate::errors::CopyError;

verus! {

/// Linux `EPERM`: the call is not permitted for this pair of descriptors.
pub const EPERM: i32 = 1;

/// Linux `EXDEV`: the two files live on different filesystems and the
/// mechanism cannot cross that boundary.
pub const EXDEV: i32 = 18;

/// Linux `ENOSYS`: the kernel does not offer the mechanism at all.
pub const ENOSYS: i32 = 38;

/// The errno means "the mechanism is unavailable here, fall back", never
/// "the copy failed". This list is closed on purpose.
pub open spec fn is_fallback_errno(errno: i32) -> bool {
    errno == ENOSYS || errno == EPERM || errno == EXDEV
}

/// What a raw kernel-copy outcome means: `None` asks the caller to fall back
/// to the user-space copy, `Some` is authoritative (the byte count, or a
/// fatal error carrying the errno unmodified).
pub open spec fn range_copy_outcome(res: Result<usize, i32>) -> Option<Result<usize, CopyError>> {
    match res {
        Ok(copied) => Some(Ok(copied)),
        Err(errno) => if is_fallback_errno(errno) {
            None
        } else {
            Some(Err(CopyError::Os(errno)))
        },
    }
}

/// Classify a raw outcome of the in-kernel byte-range copy (the byte count,
/// or the errno the call failed with).
pub fn try_copy_file_range(res: Result<usize, i32>) -> (r: Option<Result<usize, CopyError>>)
    ensures
        r == range_copy_outcome(res),
{
    match res {
        Ok(copied) => Some(Ok(copied)),
        Err(errno) => if errno == ENOSYS || errno == EPERM || errno == EXDEV {
            None
        } else {
            Some(Err(CopyError::Os(errno)))
        },
    }
}

} // verus!
