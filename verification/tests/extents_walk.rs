//! Folding batched extent reports into a file's extent list.

use xcp_core::errors::CopyError;
use xcp_core::extents::{
    map_extents_step, Extent, FiemapExtent, FiemapReq, FiemapStep, EXTENT_BATCH,
    FIEMAP_EXTENT_LAST,
};

fn filled(logical: u64, length: u64, flags: u32) -> FiemapExtent {
    let mut e = FiemapExtent::new();
    e.fe_logical = logical;
    e.fe_length = length;
    e.fe_flags = flags;
    e
}

#[test]
fn fresh_request_covers_whole_file() {
    let req = FiemapReq::new();
    assert_eq!(req.fm_start, 0);
    assert_eq!(req.fm_length, u64::MAX);
    assert_eq!(req.fm_flags, 0);
    assert_eq!(req.fm_mapped_extents, 0);
    assert_eq!(req.fm_extent_count, EXTENT_BATCH);
    assert_eq!(req.fm_extents.len(), EXTENT_BATCH as usize);
    assert_eq!(req.fm_extents[0], FiemapExtent::new());
}

#[test]
fn empty_batch_ends_with_no_extents() {
    // An empty pre-sized file reports no extents at all: the walk ends at
    // once and the extent list is a present-but-empty sequence.
    let req = FiemapReq::new();
    let mut extents: Vec<Extent> = Vec::new();
    assert_eq!(map_extents_step(&req, &mut extents), Ok(FiemapStep::Done));
    assert_eq!(extents.len(), 0);
}

#[test]
fn single_extent_block_aligned() {
    // Data written 512 KiB into a pre-sized file occupies one block-aligned
    // extent of 4 KiB.
    let mut req = FiemapReq::new();
    req.fm_extents[0] = filled(512 * 1024, 4 * 1024, FIEMAP_EXTENT_LAST);
    req.fm_mapped_extents = 1;
    let mut extents: Vec<Extent> = Vec::new();
    assert_eq!(map_extents_step(&req, &mut extents), Ok(FiemapStep::Done));
    assert_eq!(extents.len(), 1);
    assert_eq!(
        extents[0],
        Extent { start: 512 * 1024, end: 512 * 1024 + 4 * 1024 }
    );
}

#[test]
fn full_batch_without_last_marker_continues_past_it() {
    // 32 extents of 4 KiB every 8 KiB; the last one does not carry the
    // "globally last" marker, so the walk resumes just past it.
    let mut req = FiemapReq::new();
    for i in 0..32u64 {
        req.fm_extents[i as usize] = filled(i * 8192, 4096, 0);
    }
    req.fm_mapped_extents = 32;
    let mut extents: Vec<Extent> = Vec::new();
    let step = map_extents_step(&req, &mut extents);
    assert_eq!(step, Ok(FiemapStep::Again { next_start: 31 * 8192 + 4096 }));
    assert_eq!(extents.len(), 32);
    for i in 0..32u64 {
        assert_eq!(extents[i as usize], Extent { start: i * 8192, end: i * 8192 + 4096 });
    }
}

#[test]
fn batches_accumulate_across_queries() {
    let mut req = FiemapReq::new();
    req.fm_extents[0] = filled(0, 4096, 0);
    req.fm_mapped_extents = 1;
    let mut extents: Vec<Extent> = Vec::new();
    assert_eq!(
        map_extents_step(&req, &mut extents),
        Ok(FiemapStep::Again { next_start: 4096 })
    );
    req.fm_start = 4096;
    req.fm_extents[0] = filled(8192, 4096, FIEMAP_EXTENT_LAST);
    assert_eq!(map_extents_step(&req, &mut extents), Ok(FiemapStep::Done));
    assert_eq!(extents.len(), 2);
    assert_eq!(extents[0], Extent { start: 0, end: 4096 });
    assert_eq!(extents[1], Extent { start: 8192, end: 8192 + 4096 });
}

#[test]
fn nonsensical_extent_is_an_error_and_changes_nothing() {
    let mut req = FiemapReq::new();
    req.fm_extents[0] = filled(u64::MAX - 10, 4096, FIEMAP_EXTENT_LAST);
    req.fm_mapped_extents = 1;
    let mut extents: Vec<Extent> = vec![Extent { start: 0, end: 1 }];
    assert_eq!(map_extents_step(&req, &mut extents), Err(CopyError::BadTransfer));
    assert_eq!(extents, vec![Extent { start: 0, end: 1 }]);
}
