//! The sparseness heuristic: a file that has fewer 512-byte blocks allocated
//! than its logical length implies probably contains holes.

use vstd::prelude::*;

verus! {

/// The block unit the allocation count is stated in, independent of the
/// filesystem's native block size.
pub const BLOCK_UNIT: u64 = 512;

/// A file with `st_blocks` allocated block units and logical length
/// `st_size` is classified sparse exactly when the allocated storage falls
/// short of the length.
pub open spec fn spec_probably_sparse(st_blocks: u64, st_size: u64) -> bool {
    st_blocks * BLOCK_UNIT < st_size
}

/// Decide from metadata alone whether a file likely contains holes:
/// true exactly when the allocated storage (`st_blocks` units of 512 bytes)
/// falls short of the logical length `st_size`.
///
/// A false positive only costs the caller an extra hole probe, never
/// correctness, so the test is intentionally cheap.
pub fn probably_sparse(st_blocks: u64, st_size: u64) -> (r: bool)
    ensures
        r == spec_probably_sparse(st_blocks, st_size),
{
    let allocated = st_blocks as u128;
    proof {
        assert(allocated * 512 <= u64::MAX as u128 * 512) by (nonlinear_arith)
            requires
                allocated <= u64::MAX as u128,
        ;
    }
    allocated * (BLOCK_UNIT as u128) < (st_size as u128)
}

} // verus!
