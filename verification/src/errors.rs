//! Errors surfaced by the copy engine.

use vstd::prelude::*;

verus! {

/// What the copy engine reports when it cannot proceed.
///
/// Kernel error codes that merely mean "use the fallback path" are classified
/// away before an error is ever built, so every value of this type is
/// authoritative: callers never re-interpret it.
#[derive(Debug, PartialEq, Eq)]
pub enum CopyError {
    /// A configuration string was not one of the recognized tokens;
    /// carries the offending value.
    InvalidReflinkValue(String),
    /// A copy-on-write clone was demanded but is not possible for this pair
    /// of files. The caller that opened the files attaches their names when
    /// reporting it.
    ReflinkFailed,
    /// The transfer, the hole scan, or the extent query reported an outcome
    /// inconsistent with the request: zero bytes copied with bytes still
    /// remaining, more bytes than remain, a segment outside the range left
    /// to copy, or an extent past the last representable offset. Making such
    /// an outcome an explicit error keeps every copy loop finite instead of
    /// retrying forever.
    BadTransfer,
    /// Any other operating-system error, by its errno value, propagated with
    /// its meaning unmodified.
    Os(i32),
}

} // verus!
