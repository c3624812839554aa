//! Byte-level fidelity of the copy strategies.
//!
//! A file's contents are modeled as a sequence of bytes; a hole reads as
//! zeros, and the destination — pre-sized to the source's length before any
//! data is written — starts as all zeros. A sparse copy transfers only the
//! allocated segments the hole walk finds. The lemmas here state that this
//! reproduces the source byte for byte at every offset, including the zero
//! bytes of the holes, and that copying a copy reproduces the same content
//! again.

use vstd::prelude::*;

verus! {

/// Every byte of `s` is zero: what a freshly pre-sized destination reads as.
pub open spec fn zero_filled(s: Seq<u8>) -> bool {
    forall|i: int| 0 <= i < s.len() ==> s[i] == 0
}

/// `dst` after the byte range `[a, b)` is copied into it from `src`.
pub open spec fn copy_range(dst: Seq<u8>, src: Seq<u8>, a: int, b: int) -> Seq<u8> {
    Seq::new(dst.len(), |i: int| if a <= i < b { src[i] } else { dst[i] })
}

/// `dst` after each segment of `segs`, in order, is copied into it from
/// `src`.
pub open spec fn apply_segments(dst: Seq<u8>, src: Seq<u8>, segs: Seq<(u64, u64)>) -> Seq<u8>
    decreases segs.len(),
{
    if segs.len() == 0 {
        dst
    } else {
        apply_segments(
            copy_range(dst, src, segs[0].0 as int, segs[0].1 as int),
            src,
            segs.drop_first(),
        )
    }
}

/// The segment walk's findings mean what holes mean. Starting at `pos`:
/// each segment lies in order inside the file, only zero bytes (the holes)
/// lie between the walk position and the segment's data, the walk resumes
/// at the segment's end, and when no segment remains the walk has either
/// reached the end of the file or left only zeros behind it.
pub open spec fn segments_ok(src: Seq<u8>, segs: Seq<(u64, u64)>, pos: int) -> bool
    decreases segs.len(),
{
    if segs.len() == 0 {
        pos == src.len() || (forall|i: int| pos <= i < src.len() ==> src[i] == 0)
    } else {
        let d = segs[0].0 as int;
        let h = segs[0].1 as int;
        &&& pos <= d <= h <= src.len()
        &&& forall|i: int| pos <= i < d ==> src[i] == 0
        &&& segments_ok(src, segs.drop_first(), h)
    }
}

/// The segments of `segs`, in order, walk a file from `pos` to `end`: each
/// is non-empty, starts at or after the walk position, and hands the walk on
/// at its end; the last one reaches `end` exactly. This is the part of a
/// conforming walk that the copy engine itself enforces on the segments it
/// accepts.
pub open spec fn chain(segs: Seq<(u64, u64)>, pos: int, end: int) -> bool
    decreases segs.len(),
{
    if segs.len() == 0 {
        pos == end
    } else {
        let d = segs[0].0 as int;
        let h = segs[0].1 as int;
        &&& pos <= d < h
        &&& chain(segs.drop_first(), h, end)
    }
}

/// Offset `i` lies inside one of the segments.
pub open spec fn covered(segs: Seq<(u64, u64)>, i: int) -> bool {
    exists|k: int| 0 <= k < segs.len() && (#[trigger] segs[k]).0 <= i < segs[k].1
}

/// A walk reaching to `end` accepts one more segment `[d, h)` at or past
/// `end` and then reaches to `h`.
pub proof fn lemma_chain_push(segs: Seq<(u64, u64)>, pos: int, end: int, d: u64, h: u64)
    requires
        chain(segs, pos, end),
        end <= d < h,
    ensures
        chain(segs.push((d, h)), pos, h as int),
    decreases segs.len(),
{
    if segs.len() == 0 {
        assert(segs.push((d, h))[0] == (d, h));
        assert(segs.push((d, h)).drop_first() =~= Seq::<(u64, u64)>::empty());
        assert(chain(segs.push((d, h)).drop_first(), h as int, h as int));
    } else {
        assert(segs.push((d, h))[0] == segs[0]);
        assert(segs.push((d, h)).drop_first() =~= segs.drop_first().push((d, h)));
        lemma_chain_push(segs.drop_first(), segs[0].1 as int, end, d, h);
        assert(chain(segs.push((d, h)).drop_first(), segs[0].1 as int, h as int));
    }
}

/// A walk never moves backwards: its start is at or before its end.
proof fn lemma_chain_le(segs: Seq<(u64, u64)>, pos: int, end: int)
    requires
        chain(segs, pos, end),
    ensures
        pos <= end,
    decreases segs.len(),
{
    if segs.len() > 0 {
        lemma_chain_le(segs.drop_first(), segs[0].1 as int, end);
    }
}

/// Every segment of a walk that starts at `pos` starts at or after `pos`.
proof fn lemma_chain_starts(segs: Seq<(u64, u64)>, pos: int, end: int)
    requires
        chain(segs, pos, end),
    ensures
        forall|k: int| 0 <= k < segs.len() ==> pos <= #[trigger] segs[k].0 as int,
    decreases segs.len(),
{
    if segs.len() > 0 {
        lemma_chain_starts(segs.drop_first(), segs[0].1 as int, end);
        assert forall|k: int| 0 <= k < segs.len() implies pos <= #[trigger] segs[k].0 as int by {
            if k > 0 {
                assert(segs.drop_first()[k - 1] == segs[k]);
            }
        }
    }
}

/// The bytes the segments of a walk cover, in total: what a segmented copy
/// physically transfers.
pub open spec fn segment_bytes(segs: Seq<(u64, u64)>) -> int
    decreases segs.len(),
{
    if segs.len() == 0 {
        0
    } else {
        (segs[0].1 - segs[0].0) + segment_bytes(segs.drop_first())
    }
}

/// A walk's segments cover no more than the span it walked: what a sparse
/// copy transfers is bounded by the walk's reach, so the holes it skipped
/// are never written at all.
pub proof fn lemma_segment_bytes_bounded(segs: Seq<(u64, u64)>, pos: int, end: int)
    requires
        chain(segs, pos, end),
    ensures
        segment_bytes(segs) <= end - pos,
    decreases segs.len(),
{
    if segs.len() > 0 {
        lemma_segment_bytes_bounded(segs.drop_first(), segs[0].1 as int, end);
    }
}

/// What the engine enforces, together with what the hole seeks answered, is
/// a conforming walk: if the accepted segments chain from `pos` (to wherever
/// the walk stopped) and every byte from `pos` on that no segment covers is
/// zero — which is what "the rest is holes" means — then the walk conforms,
/// and byte-fidelity follows.
pub proof fn lemma_chain_conforms(src: Seq<u8>, segs: Seq<(u64, u64)>, pos: int, end: int)
    requires
        0 <= pos,
        end <= src.len(),
        chain(segs, pos, end),
        forall|i: int| pos <= i < src.len() && !covered(segs, i) ==> src[i] == 0,
    ensures
        segments_ok(src, segs, pos),
    decreases segs.len(),
{
    if segs.len() == 0 {
        assert forall|i: int| pos <= i < src.len() implies src[i] == 0 by {
            assert(!covered(segs, i));
        }
    } else {
        let d = segs[0].0 as int;
        let h = segs[0].1 as int;
        let tail = segs.drop_first();
        lemma_chain_starts(tail, h, end);
        lemma_chain_le(tail, h, end);
        assert forall|i: int| pos <= i < d implies src[i] == 0 by {
            assert forall|k: int| 0 <= k < segs.len() implies !((#[trigger] segs[k]).0 <= i < segs[k].1) by {
                if k > 0 {
                    assert(tail[k - 1] == segs[k]);
                    assert(h <= segs[k].0 as int);
                }
            }
            assert(!covered(segs, i));
        }
        assert forall|i: int| h <= i < src.len() && !covered(tail, i) implies src[i] == 0 by {
            assert forall|k: int| 0 <= k < segs.len() implies !((#[trigger] segs[k]).0 <= i < segs[k].1) by {
                if k > 0 {
                    assert(tail[k - 1] == segs[k]);
                }
            }
            assert(!covered(segs, i));
        }
        lemma_chain_conforms(src, tail, h, end);
    }
}

proof fn lemma_walk_faithful(src: Seq<u8>, dst: Seq<u8>, segs: Seq<(u64, u64)>, pos: int)
    requires
        dst.len() == src.len(),
        0 <= pos <= src.len(),
        forall|i: int| 0 <= i < pos ==> dst[i] == src[i],
        forall|i: int| pos <= i < src.len() ==> dst[i] == 0,
        segments_ok(src, segs, pos),
    ensures
        apply_segments(dst, src, segs) =~= src,
    decreases segs.len(),
{
    if segs.len() == 0 {
    } else {
        let d = segs[0].0 as int;
        let h = segs[0].1 as int;
        let dst2 = copy_range(dst, src, d, h);
        assert forall|i: int| 0 <= i < h implies dst2[i] == src[i] by {
            if i < pos {
            } else if i < d {
                assert(src[i] == 0);
            }
        }
        lemma_walk_faithful(src, dst2, segs.drop_first(), h);
    }
}

/// A sparse copy is byte-faithful. Over a pre-sized (all-zero) destination
/// of the source's length, copying exactly the segments a conforming hole
/// walk found yields the source's bytes at every offset — the zero bytes of
/// the skipped holes included, because a skipped range stays zero and a
/// hole reads as zero.
pub proof fn lemma_sparse_copy_faithful(src: Seq<u8>, dst: Seq<u8>, segs: Seq<(u64, u64)>)
    requires
        dst.len() == src.len(),
        zero_filled(dst),
        segments_ok(src, segs, 0),
    ensures
        apply_segments(dst, src, segs) == src,
{
    lemma_walk_faithful(src, dst, segs, 0);
    assert(apply_segments(dst, src, segs) =~= src);
}

/// A dense copy is byte-faithful: copying the whole length as one range
/// over a destination of the same length yields the source's bytes exactly.
pub proof fn lemma_dense_copy_faithful(src: Seq<u8>, dst: Seq<u8>)
    requires
        dst.len() == src.len(),
    ensures
        copy_range(dst, src, 0, src.len() as int) == src,
{
    assert(copy_range(dst, src, 0, src.len() as int) =~= src);
}

/// A file with no holes degenerates to a single segment spanning the whole
/// file: such a walk always conforms, whatever the bytes are.
pub proof fn lemma_whole_file_single_segment(src: Seq<u8>)
    requires
        src.len() <= u64::MAX,
    ensures
        segments_ok(src, seq![(0u64, src.len() as u64)], 0),
{
    let segs = seq![(0u64, src.len() as u64)];
    assert(segs.len() == 1);
    assert(segs[0] == (0u64, src.len() as u64));
    assert(segs.drop_first().len() == 0);
    assert(segments_ok(src, segs.drop_first(), src.len() as int));
    assert(segments_ok(src, segs, 0));
}

/// Copying is idempotent on content: the result of a faithful copy equals
/// the source, so copying that result again — over any conforming walk of
/// it — reproduces the very same bytes.
pub proof fn lemma_copy_roundtrip(
    src: Seq<u8>,
    dst1: Seq<u8>,
    segs1: Seq<(u64, u64)>,
    dst2: Seq<u8>,
    segs2: Seq<(u64, u64)>,
)
    requires
        dst1.len() == src.len(),
        zero_filled(dst1),
        segments_ok(src, segs1, 0),
        dst2.len() == src.len(),
        zero_filled(dst2),
        segments_ok(apply_segments(dst1, src, segs1), segs2, 0),
    ensures
        apply_segments(dst2, apply_segments(dst1, src, segs1), segs2) == apply_segments(
            dst1,
            src,
            segs1,
        ),
        apply_segments(dst2, apply_segments(dst1, src, segs1), segs2) == src,
{
    lemma_sparse_copy_faithful(src, dst1, segs1);
    lemma_sparse_copy_faithful(apply_segments(dst1, src, segs1), dst2, segs2);
}

} // verus!
