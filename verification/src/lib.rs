//! Core logic of a sparse- and reflink-aware single-file copy engine.
//!
//! The crate holds the decisions of the copy path — reflink policy, the
//! sparseness heuristic, classification of kernel error codes, segment and
//! chunk bookkeeping, and extent-map accumulation — as verified functions
//! over plain values. The surrounding process performs the actual system
//! calls and feeds their outcomes back in as events; the engine's invariants
//! and the lemmas of `fidelity` then say that a finished copy reproduced the
//! source byte for byte.

pub mod copyrange;
pub mod errors;
pub mod extents;
pub mod fidelity;
pub mod operations;
pub mod options;
pub mod seek;
pub mod sparse;
