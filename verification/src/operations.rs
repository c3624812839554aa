//! The copy handle and the engine that drives one file's copy.
//!
//! A `CopyHandle` is the per-file snapshot: the source's length and block
//! count, and the shared configuration. `copy_file` turns it into a
//! `CopyRun`, a state machine that makes every decision of the copy —
//! reflink policy, sparse or dense strategy, segment and chunk bookkeeping —
//! while the caller performs the system calls each `Action` asks for and
//! feeds the outcome back in as an `Event`.
//!
//! A run also keeps, as ghost state, the list of segments it accepted. Its
//! invariant says they chain across the file in order, which is the engine's
//! half of byte-fidelity; `lemma_finished_run_faithful` combines it with the
//! meaning of the hole seeks to conclude that a finished run reproduced the
//! source exactly.

use vstd::prelude::*;

use crate::errors::CopyError;
use crate::fidelity::{
    apply_segments, chain, covered, lemma_chain_conforms, lemma_chain_push,
    lemma_segment_bytes_bounded, lemma_sparse_copy_faithful, segment_bytes, zero_filled,
};
use crate::options::{Opts, Reflink};
use crate::sparse::spec_probably_sparse;

verus! {

/// What the engine asks its driver to do next.
#[derive(Clone, Copy, Debug, PartialEq, Eq, Structural)]
pub enum Action {
    /// Attempt a copy-on-write clone of the whole destination from the whole
    /// source.
    AttemptReflink,
    /// Find the next allocated segment of the source at or after `pos`, and
    /// position both descriptors at its start.
    SeekSegment { pos: u64 },
    /// Copy `bytes` bytes from the descriptors' current positions, advancing
    /// both.
    CopyBytes { bytes: u64 },
    /// The copy is complete; `total` bytes are logically represented as
    /// copied.
    Finished { total: u64 },
}

/// What the driver observed when it carried an action out.
#[derive(Clone, Copy, Debug, PartialEq, Eq, Structural)]
pub enum Event {
    /// The clone attempt succeeded, or was refused as unsupported for this
    /// pair of files.
    Reflinked(bool),
    /// The next allocated segment: where its data starts and where the hole
    /// after it starts (end-of-file standing in for either).
    Segment(u64, u64),
    /// How many bytes one byte-range copy call actually transferred.
    Copied(u64),
}

/// Where the engine stands.
#[derive(Clone, Copy, Debug, PartialEq, Eq, Structural)]
pub enum Phase {
    /// Waiting for the outcome of the clone attempt.
    Reflink,
    /// Walking the source for its next allocated segment, from `pos`.
    Seek { pos: u64 },
    /// Copying the byte range `[cur, end)`; `scan` says whether the walk
    /// resumes after it (sparse strategy) or the range is the whole file.
    Copying { cur: u64, end: u64, scan: bool },
    /// The copy completed.
    Done,
    /// The copy failed; the error was already reported.
    Failed,
}

/// The decision the reflink policy dictates, given whether a clone was
/// attempted and worked (`None` when the policy forbade the attempt):
/// a successful clone finishes the copy; a refused clone is fatal under
/// `Always` and falls through to a normal copy under `Auto`.
pub open spec fn reflink_decision(mode: Reflink, cloned: Option<bool>) -> Result<
    bool,
    CopyError,
> {
    match cloned {
        None => Ok(false),
        Some(true) => Ok(true),
        Some(false) => if mode is Always {
            Err(CopyError::ReflinkFailed)
        } else {
            Ok(false)
        },
    }
}

/// The most bytes to ask of one byte-range copy call: what remains, capped
/// by the configured batch size.
pub open spec fn chunk_size(remaining: u64, batch: u64) -> u64 {
    if remaining < batch {
        remaining
    } else {
        batch
    }
}

/// One copy in progress: the source snapshot, the policy, the phase the
/// engine is in, and — as ghost bookkeeping — the segments accepted so far.
#[derive(Clone, Copy)]
pub struct CopyRun {
    pub mode: Reflink,
    pub len: u64,
    pub blocks: u64,
    pub batch: u64,
    pub phase: Phase,
    pub segs: Ghost<Seq<(u64, u64)>>,
}

/// The phase, accepted segments, and action after the byte transfer is
/// chosen: sparse files enter the segment walk at offset zero, dense files
/// are copied as one segment covering the whole file, and an empty file is
/// already complete.
pub open spec fn start_copy(run: CopyRun) -> (Phase, Seq<(u64, u64)>, Action) {
    if run.len == 0 {
        (Phase::Done, run.segs@, Action::Finished { total: 0 })
    } else if spec_probably_sparse(run.blocks, run.len) {
        (Phase::Seek { pos: 0 }, run.segs@, Action::SeekSegment { pos: 0 })
    } else {
        (
            Phase::Copying { cur: 0, end: run.len, scan: false },
            run.segs@.push((0u64, run.len)),
            Action::CopyBytes { bytes: chunk_size(run.len, run.batch) },
        )
    }
}

/// The full transition relation of the engine: the phase and accepted
/// segments each event leads to, and what the engine answers. `BadTransfer`
/// marks every outcome the protocol rules out — zero bytes copied with bytes
/// remaining, more bytes than remain, or a segment outside the range still
/// to walk — so no run can loop forever on a stalled transfer.
pub open spec fn step_spec(run: CopyRun, e: Event) -> (
    Phase,
    Seq<(u64, u64)>,
    Result<Action, CopyError>,
) {
    match (run.phase, e) {
        (Phase::Reflink, Event::Reflinked(worked)) => match reflink_decision(
            run.mode,
            Some(worked),
        ) {
            Ok(true) => (Phase::Done, run.segs@, Ok(Action::Finished { total: run.len })),
            Ok(false) => {
                let (phase, segs, act) = start_copy(run);
                (phase, segs, Ok(act))
            },
            Err(err) => (Phase::Failed, run.segs@, Err(err)),
        },
        (Phase::Seek { pos }, Event::Segment(data_start, hole_start)) => {
            if !(pos <= data_start && data_start <= hole_start && hole_start <= run.len) {
                (Phase::Failed, run.segs@, Err(CopyError::BadTransfer))
            } else if data_start == hole_start {
                if hole_start == run.len {
                    (Phase::Done, run.segs@, Ok(Action::Finished { total: run.len }))
                } else {
                    (Phase::Failed, run.segs@, Err(CopyError::BadTransfer))
                }
            } else {
                (
                    Phase::Copying { cur: data_start, end: hole_start, scan: true },
                    run.segs@.push((data_start, hole_start)),
                    Ok(
                        Action::CopyBytes {
                            bytes: chunk_size((hole_start - data_start) as u64, run.batch),
                        },
                    ),
                )
            }
        },
        (Phase::Copying { cur, end, scan }, Event::Copied(n)) => {
            if n == 0 || n > end - cur {
                (Phase::Failed, run.segs@, Err(CopyError::BadTransfer))
            } else {
                let cur2 = (cur + n) as u64;
                if cur2 < end {
                    (
                        Phase::Copying { cur: cur2, end, scan },
                        run.segs@,
                        Ok(Action::CopyBytes { bytes: chunk_size((end - cur2) as u64, run.batch) }),
                    )
                } else if scan && end < run.len {
                    (Phase::Seek { pos: end }, run.segs@, Ok(Action::SeekSegment { pos: end }))
                } else {
                    (Phase::Done, run.segs@, Ok(Action::Finished { total: run.len }))
                }
            }
        },
        _ => (run.phase, run.segs@, Err(CopyError::BadTransfer)),
    }
}

impl CopyRun {
    /// The run is consistent: a positive batch size; the reflink phase only
    /// under a policy that attempts one, and before any segment; the walk
    /// and the ranges being copied inside the file; and the accepted
    /// segments chaining in order from the start of the file to the point
    /// the walk has reached.
    pub open spec fn wf(self) -> bool {
        &&& self.batch > 0
        &&& match self.phase {
            Phase::Reflink => !(self.mode is Never) && self.segs@.len() == 0,
            Phase::Seek { pos } => pos < self.len && chain(self.segs@, 0, pos as int),
            Phase::Copying { cur, end, scan } => {
                &&& cur < end <= self.len
                &&& (!scan ==> end == self.len)
                &&& chain(self.segs@, 0, end as int)
            },
            Phase::Done => exists|p: int| 0 <= p <= self.len && chain(self.segs@, 0, p),
            Phase::Failed => true,
        }
    }

    /// The event answers what the current phase asked for.
    pub open spec fn expects(self, e: Event) -> bool {
        match (self.phase, e) {
            (Phase::Reflink, Event::Reflinked(_)) => true,
            (Phase::Seek { .. }, Event::Segment(..)) => true,
            (Phase::Copying { .. }, Event::Copied(_)) => true,
            _ => false,
        }
    }

    /// Feed one observed outcome in; the answer is the next action, the
    /// completion, or the error that ends the run.
    pub fn step(&mut self, e: Event) -> (r: Result<Action, CopyError>)
        requires
            old(self).wf(),
            old(self).expects(e),
        ensures
            final(self).mode == old(self).mode,
            final(self).len == old(self).len,
            final(self).blocks == old(self).blocks,
            final(self).batch == old(self).batch,
            final(self).phase == step_spec(*old(self), e).0,
            final(self).segs@ == step_spec(*old(self), e).1,
            r == step_spec(*old(self), e).2,
            final(self).wf(),
            r matches Ok(Action::Finished { total }) ==> total == old(self).len
                && final(self).phase is Done,
    {
        match self.phase {
            Phase::Reflink => {
                let worked = match e {
                    Event::Reflinked(w) => w,
                    _ => false,
                };
                if worked {
                    self.phase = Phase::Done;
                    proof {
                        assert(chain(self.segs@, 0, 0));
                    }
                    Ok(Action::Finished { total: self.len })
                } else if matches!(self.mode, Reflink::Always) {
                    self.phase = Phase::Failed;
                    Err(CopyError::ReflinkFailed)
                } else {
                    Ok(self.enter_copy())
                }
            },
            Phase::Seek { pos } => {
                let (data_start, hole_start) = match e {
                    Event::Segment(d, h) => (d, h),
                    _ => (0, 0),
                };
                if !(pos <= data_start && data_start <= hole_start && hole_start <= self.len) {
                    self.phase = Phase::Failed;
                    Err(CopyError::BadTransfer)
                } else if data_start == hole_start {
                    if hole_start == self.len {
                        self.phase = Phase::Done;
                        proof {
                            assert(chain(self.segs@, 0, pos as int));
                        }
                        Ok(Action::Finished { total: self.len })
                    } else {
                        self.phase = Phase::Failed;
                        Err(CopyError::BadTransfer)
                    }
                } else {
                    proof {
                        lemma_chain_push(self.segs@, 0, pos as int, data_start, hole_start);
                    }
                    self.phase = Phase::Copying { cur: data_start, end: hole_start, scan: true };
                    self.segs = Ghost(self.segs@.push((data_start, hole_start)));
                    Ok(Action::CopyBytes { bytes: exec_chunk(hole_start - data_start, self.batch) })
                }
            },
            Phase::Copying { cur, end, scan } => {
                let n = match e {
                    Event::Copied(n) => n,
                    _ => 0,
                };
                if n == 0 || n > end - cur {
                    self.phase = Phase::Failed;
                    Err(CopyError::BadTransfer)
                } else {
                    let cur2 = cur + n;
                    if cur2 < end {
                        self.phase = Phase::Copying { cur: cur2, end, scan };
                        Ok(Action::CopyBytes { bytes: exec_chunk(end - cur2, self.batch) })
                    } else if scan && end < self.len {
                        self.phase = Phase::Seek { pos: end };
                        Ok(Action::SeekSegment { pos: end })
                    } else {
                        self.phase = Phase::Done;
                        proof {
                            assert(chain(self.segs@, 0, end as int));
                        }
                        Ok(Action::Finished { total: self.len })
                    }
                }
            },
            Phase::Done => Err(CopyError::BadTransfer),
            Phase::Failed => Err(CopyError::BadTransfer),
        }
    }

    /// Enter the byte-transfer part of the copy, choosing the sparse or the
    /// dense strategy from the metadata snapshot.
    fn enter_copy(&mut self) -> (r: Action)
        requires
            old(self).batch > 0,
            old(self).segs@.len() == 0,
        ensures
            final(self).mode == old(self).mode,
            final(self).len == old(self).len,
            final(self).blocks == old(self).blocks,
            final(self).batch == old(self).batch,
            final(self).phase == start_copy(*old(self)).0,
            final(self).segs@ == start_copy(*old(self)).1,
            r == start_copy(*old(self)).2,
            final(self).wf(),
    {
        if self.len == 0 {
            self.phase = Phase::Done;
            proof {
                assert(chain(self.segs@, 0, 0));
            }
            Action::Finished { total: 0 }
        } else if crate::sparse::probably_sparse(self.blocks, self.len) {
            self.phase = Phase::Seek { pos: 0 };
            proof {
                assert(chain(self.segs@, 0, 0));
            }
            Action::SeekSegment { pos: 0 }
        } else {
            proof {
                assert(chain(self.segs@, 0, 0));
                lemma_chain_push(self.segs@, 0, 0, 0u64, self.len);
            }
            self.phase = Phase::Copying { cur: 0, end: self.len, scan: false };
            self.segs = Ghost(self.segs@.push((0u64, self.len)));
            Action::CopyBytes { bytes: exec_chunk(self.len, self.batch) }
        }
    }
}

/// The executable form of `chunk_size`.
fn exec_chunk(remaining: u64, batch: u64) -> (r: u64)
    ensures
        r == chunk_size(remaining, batch),
{
    if remaining < batch {
        remaining
    } else {
        batch
    }
}

/// The per-file snapshot a copy runs from: the source's byte length and
/// allocated block count, taken when the files were opened, and the shared
/// configuration.
#[derive(Clone, Copy, Debug)]
pub struct CopyHandle {
    pub len: u64,
    pub blocks: u64,
    pub opts: Opts,
}

/// The phase, accepted segments, and first action of the run `copy_file`
/// sets up: under `Never` the reflink phase is skipped outright — no clone
/// is ever attempted — and the byte transfer begins at once.
pub open spec fn copy_file_spec(h: CopyHandle) -> (Phase, Seq<(u64, u64)>, Action) {
    let run = CopyRun {
        mode: h.opts.reflink,
        len: h.len,
        blocks: h.blocks,
        batch: h.opts.batch_size,
        phase: Phase::Reflink,
        segs: Ghost(Seq::empty()),
    };
    if h.opts.reflink is Never {
        start_copy(run)
    } else {
        (Phase::Reflink, Seq::empty(), Action::AttemptReflink)
    }
}

impl CopyHandle {
    /// The handle's configuration is usable.
    pub open spec fn wf(self) -> bool {
        self.opts.wf()
    }

    /// Snapshot the source's metadata and the configuration for one copy.
    pub fn new(len: u64, blocks: u64, opts: Opts) -> (r: CopyHandle)
        requires
            opts.wf(),
        ensures
            r == (CopyHandle { len, blocks, opts }),
            r.wf(),
    {
        CopyHandle { len, blocks, opts }
    }

    /// The sparseness classification of the source, from the snapshot alone.
    pub fn probably_sparse(&self) -> (r: bool)
        ensures
            r == spec_probably_sparse(self.blocks, self.len),
    {
        crate::sparse::probably_sparse(self.blocks, self.len)
    }

    /// The reflink decision for this handle, given whether a clone was
    /// attempted and worked (`None` exactly when the policy is `Never`):
    /// `Ok(true)` means the file is fully copied and no byte transfer may
    /// follow.
    pub fn try_reflink(&self, cloned: Option<bool>) -> (r: Result<bool, CopyError>)
        requires
            cloned is None <==> self.opts.reflink is Never,
        ensures
            r == reflink_decision(self.opts.reflink, cloned),
    {
        match cloned {
            None => Ok(false),
            Some(true) => Ok(true),
            Some(false) => {
                if matches!(self.opts.reflink, Reflink::Always) {
                    Err(CopyError::ReflinkFailed)
                } else {
                    Ok(false)
                }
            },
        }
    }

    /// Begin the copy: the engine to drive, and the first action to carry
    /// out.
    pub fn copy_file(&self) -> (r: (CopyRun, Action))
        requires
            self.wf(),
        ensures
            r.0.mode == self.opts.reflink,
            r.0.len == self.len,
            r.0.blocks == self.blocks,
            r.0.batch == self.opts.batch_size,
            r.0.phase == copy_file_spec(*self).0,
            r.0.segs@ == copy_file_spec(*self).1,
            r.1 == copy_file_spec(*self).2,
            r.0.wf(),
            self.opts.reflink is Never ==> !(r.1 is AttemptReflink),
    {
        let mut run = CopyRun {
            mode: self.opts.reflink,
            len: self.len,
            blocks: self.blocks,
            batch: self.opts.batch_size,
            phase: Phase::Reflink,
            segs: Ghost(Seq::empty()),
        };
        if matches!(self.opts.reflink, Reflink::Never) {
            let act = run.enter_copy();
            (run, act)
        } else {
            (run, Action::AttemptReflink)
        }
    }

    /// What finalization must do for this handle: copy owner and mode
    /// metadata unless permissions are skipped, and force the destination's
    /// data to stable storage when syncing is asked for. Finalization runs
    /// at teardown whether or not the copy succeeded, and its failures are
    /// reported but never propagated.
    pub fn finalise_plan(&self) -> (r: (bool, bool))
        ensures
            r.0 == !self.opts.no_perms,
            r.1 == self.opts.fsync,
    {
        (!self.opts.no_perms, self.opts.fsync)
    }
}

/// The engine never asks for a clone after the first action, whatever the
/// mode, so under `Never` — where `copy_file` starts past the reflink phase
/// — no clone is ever attempted during a run.
pub proof fn lemma_step_never_attempts_reflink(run: CopyRun, e: Event)
    ensures
        !(step_spec(run, e).2 matches Ok(Action::AttemptReflink)),
{
}

/// A finished run is byte-faithful, end to end. The engine's invariant says
/// the segments it accepted chain in order up to the point its walk reached;
/// if every byte outside them is zero — which is what the hole seeks that
/// skipped those ranges answered, and trivially true of the dense strategy's
/// single all-covering segment — then copying exactly those segments over a
/// pre-sized (all-zero) destination reproduced the source at every offset.
pub proof fn lemma_finished_run_faithful(run: CopyRun, src: Seq<u8>, dst: Seq<u8>)
    requires
        run.wf(),
        run.phase is Done,
        src.len() == run.len,
        dst.len() == src.len(),
        zero_filled(dst),
        forall|i: int| 0 <= i < src.len() && !covered(run.segs@, i) ==> src[i] == 0,
    ensures
        apply_segments(dst, src, run.segs@) == src,
{
    let p = choose|p: int| 0 <= p <= run.len && chain(run.segs@, 0, p);
    lemma_chain_conforms(src, run.segs@, 0, p);
    lemma_sparse_copy_faithful(src, dst, run.segs@);
}

/// What a finished run physically transferred — the accepted segments'
/// total length — never exceeds the file's length, and a walk that skipped
/// holes transferred strictly less: the skipped ranges were never written,
/// which is how the destination's allocation stays below a dense copy's
/// where the storage layer supports sparseness.
pub proof fn lemma_finished_run_transfer_bounded(run: CopyRun)
    requires
        run.wf(),
        run.phase is Done,
    ensures
        segment_bytes(run.segs@) <= run.len,
{
    let p = choose|p: int| 0 <= p <= run.len && chain(run.segs@, 0, p);
    lemma_segment_bytes_bounded(run.segs@, 0, p);
}

} // verus!
