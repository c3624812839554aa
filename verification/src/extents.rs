//! Accumulating a file's allocated extents from batched filesystem queries.
//!
//! The filesystem reports allocated ranges a bounded batch at a time; the
//! caller repeats the query from just past the last extent fetched until a
//! batch carries the "globally last" marker (or comes back empty). These
//! functions hold the request record, fold each batch into the growing list,
//! and classify the query's error codes: "the filesystem cannot do this at
//! all" is a missing capability, not a failure.

use vstd::prelude::*;

use crate::errors::CopyError;

verus! {

/// Linux `EOPNOTSUPP`: the filesystem does not expose extent mapping.
pub const EOPNOTSUPP: i32 = 95;

/// Marker flag on a reported extent: it is the last one of the whole file.
pub const FIEMAP_EXTENT_LAST: u32 = 1;

/// How many extents one query may report at most.
pub const EXTENT_BATCH: u32 = 32;

/// A half-open logical byte range `[start, end)` known to be allocated.
#[derive(Clone, Copy, Debug, PartialEq, Eq, Structural)]
pub struct Extent {
    pub start: u64,
    pub end: u64,
}

/// One extent as the filesystem reports it: logical and physical byte
/// offsets, a byte length, and its marker flags.
#[derive(Clone, Copy, Debug, PartialEq, Eq, Structural)]
pub struct FiemapExtent {
    pub fe_logical: u64,
    pub fe_physical: u64,
    pub fe_length: u64,
    pub fe_flags: u32,
}

impl FiemapExtent {
    /// A zeroed slot, ready for the filesystem to fill.
    pub fn new() -> (r: FiemapExtent)
        ensures
            r == (FiemapExtent { fe_logical: 0, fe_physical: 0, fe_length: 0, fe_flags: 0 }),
    {
        FiemapExtent { fe_logical: 0, fe_physical: 0, fe_length: 0, fe_flags: 0 }
    }
}

/// The extent-query request record: the logical window to map (`fm_start`
/// onward, `fm_length` bytes of interest), and room for one batch of
/// extents, of which the query fills the first `fm_mapped_extents`.
#[derive(Debug)]
pub struct FiemapReq {
    pub fm_start: u64,
    pub fm_length: u64,
    pub fm_flags: u32,
    pub fm_mapped_extents: u32,
    pub fm_extent_count: u32,
    pub fm_extents: Vec<FiemapExtent>,
}

impl FiemapReq {
    /// The record is consistent: the batch the filesystem claims to have
    /// filled fits in the room the request offered.
    pub open spec fn wf(self) -> bool {
        &&& self.fm_extent_count == EXTENT_BATCH
        &&& self.fm_extents@.len() == EXTENT_BATCH
        &&& self.fm_mapped_extents <= EXTENT_BATCH
    }

    /// A fresh request covering the whole file: map everything from offset
    /// zero, with room for one full batch of zeroed extent slots.
    pub fn new() -> (r: FiemapReq)
        ensures
            r.wf(),
            r.fm_start == 0,
            r.fm_length == u64::MAX,
            r.fm_flags == 0,
            r.fm_mapped_extents == 0,
    {
        let mut slots: Vec<FiemapExtent> = Vec::new();
        let mut i: u32 = 0;
        while i < EXTENT_BATCH
            invariant
                i <= EXTENT_BATCH,
                slots@.len() == i,
            decreases EXTENT_BATCH - i,
        {
            slots.push(FiemapExtent::new());
            i = i + 1;
        }
        FiemapReq {
            fm_start: 0,
            fm_length: u64::MAX,
            fm_flags: 0,
            fm_mapped_extents: 0,
            fm_extent_count: EXTENT_BATCH,
            fm_extents: slots,
        }
    }
}

/// The reported extent denotes a representable byte range.
pub open spec fn extent_fits(e: FiemapExtent) -> bool {
    e.fe_logical + e.fe_length <= u64::MAX
}

/// The byte range a reported extent denotes.
pub open spec fn extent_range(e: FiemapExtent) -> Extent {
    Extent { start: e.fe_logical, end: (e.fe_logical + e.fe_length) as u64 }
}

/// What to do after folding in one batch: stop, or query again from
/// `next_start`.
#[derive(Clone, Copy, Debug, PartialEq, Eq, Structural)]
pub enum FiemapStep {
    Done,
    Again { next_start: u64 },
}

/// The step a filled batch dictates: an empty batch ends the walk
/// defensively, a batch whose last extent carries the "globally last"
/// marker ends it normally, and otherwise the next query starts just past
/// the last extent fetched, so nothing is reported twice.
pub open spec fn batch_step(req: FiemapReq) -> FiemapStep {
    let mapped = req.fm_mapped_extents as int;
    if mapped == 0 {
        FiemapStep::Done
    } else {
        let last = req.fm_extents@[mapped - 1];
        if last.fe_flags & FIEMAP_EXTENT_LAST != 0 {
            FiemapStep::Done
        } else {
            FiemapStep::Again { next_start: extent_range(last).end }
        }
    }
}

/// Fold one filled batch into the accumulated extent list, in reported
/// order, and say whether to stop or where to query next. A reported extent
/// whose range does not fit in a byte offset is a nonsensical reply and an
/// explicit error; the list is then left unchanged.
pub fn map_extents_step(req: &FiemapReq, extents: &mut Vec<Extent>) -> (r: Result<
    FiemapStep,
    CopyError,
>)
    requires
        req.wf(),
    ensures
        match r {
            Ok(step) => {
                &&& forall|i: int|
                    0 <= i < req.fm_mapped_extents ==> extent_fits(#[trigger] req.fm_extents@[i])
                &&& final(extents)@ == old(extents)@ + Seq::new(
                    req.fm_mapped_extents as nat,
                    |i: int| extent_range(req.fm_extents@[i]),
                )
                &&& step == batch_step(*req)
            },
            Err(e) => {
                &&& e == CopyError::BadTransfer
                &&& !(forall|i: int|
                    0 <= i < req.fm_mapped_extents ==> extent_fits(#[trigger] req.fm_extents@[i]))
                &&& final(extents)@ == old(extents)@
            },
        },
{
    let mapped = req.fm_mapped_extents as usize;
    let mut i: usize = 0;
    while i < mapped
        invariant
            req.wf(),
            mapped == req.fm_mapped_extents,
            i <= mapped,
            forall|j: int| 0 <= j < i ==> extent_fits(#[trigger] req.fm_extents@[j]),
        decreases mapped - i,
    {
        let e = req.fm_extents[i];
        if e.fe_length > u64::MAX - e.fe_logical {
            assert(!extent_fits(req.fm_extents@[i as int]));
            return Err(CopyError::BadTransfer);
        }
        i = i + 1;
    }
    let ghost pushed = Seq::new(
        req.fm_mapped_extents as nat,
        |i: int| extent_range(req.fm_extents@[i]),
    );
    let mut k: usize = 0;
    while k < mapped
        invariant
            req.wf(),
            mapped == req.fm_mapped_extents,
            k <= mapped,
            forall|j: int| 0 <= j < mapped ==> extent_fits(#[trigger] req.fm_extents@[j]),
            pushed == Seq::new(
                req.fm_mapped_extents as nat,
                |i: int| extent_range(req.fm_extents@[i]),
            ),
            extents@ == old(extents)@ + pushed.take(k as int),
        decreases mapped - k,
    {
        let e = req.fm_extents[k];
        let start = e.fe_logical;
        let end = e.fe_logical + e.fe_length;
        extents.push(Extent { start, end });
        proof {
            assert(extents@ == old(extents)@ + pushed.take(k + 1 as int));
        }
        k = k + 1;
    }
    proof {
        assert(pushed.take(mapped as int) == pushed);
    }
    if mapped == 0 {
        return Ok(FiemapStep::Done);
    }
    let last = req.fm_extents[mapped - 1];
    if last.fe_flags & FIEMAP_EXTENT_LAST != 0 {
        Ok(FiemapStep::Done)
    } else {
        Ok(FiemapStep::Again { next_start: last.fe_logical + last.fe_length })
    }
}

/// Classify the errno of a failed extent query: "operation not supported"
/// means the capability is absent — the whole walk then answers "no extent
/// map", not an error. Anything else is fatal.
pub fn classify_fiemap_errno(errno: i32) -> (r: Option<CopyError>)
    ensures
        r == if errno == EOPNOTSUPP {
            None
        } else {
            Some(CopyError::Os(errno))
        },
{
    if errno == EOPNOTSUPP {
        None
    } else {
        Some(CopyError::Os(errno))
    }
}

} // verus!
