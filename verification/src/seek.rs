//! Interpreting the outcomes of hole- and data-seeking on the source file.
//!
//! The caller performs the seeks; these functions classify the raw outcomes
//! (an offset, or an errno) and turn them into the next allocated segment of
//! the file.

use vstd::prelude::*;

use crate::errors::CopyError;

verus! {

/// Linux `ENXIO`: a data or hole seek found nothing before end-of-file.
pub const ENXIO: i32 = 6;

/// Where a seek landed: at an absolute offset, or past the last data
/// (respectively hole) of the file.
#[derive(Clone, Copy, Debug, PartialEq, Eq, Structural)]
pub enum SeekOff {
    Offset(u64),
    EOF,
}

/// What a raw seek outcome means as a `SeekOff`, when it is not a fatal
/// error: `ENXIO` is how the kernel says "nothing of that kind remains",
/// which is an answer, not a failure.
pub open spec fn seek_outcome(res: Result<u64, i32>) -> Result<SeekOff, CopyError> {
    match res {
        Ok(off) => Ok(SeekOff::Offset(off)),
        Err(errno) => if errno == ENXIO {
            Ok(SeekOff::EOF)
        } else {
            Err(CopyError::Os(errno))
        },
    }
}

/// Classify a raw seek outcome (the returned offset, or the errno the call
/// failed with): `ENXIO` means end-of-file, any other errno is fatal.
pub fn lseek(res: Result<u64, i32>) -> (r: Result<SeekOff, CopyError>)
    ensures
        r == seek_outcome(res),
{
    match res {
        Ok(off) => Ok(SeekOff::Offset(off)),
        Err(errno) => if errno == ENXIO {
            Ok(SeekOff::EOF)
        } else {
            Err(CopyError::Os(errno))
        },
    }
}

/// The absolute offset a seek outcome denotes, reading end-of-file as the
/// file's length.
pub open spec fn resolved(off: SeekOff, len: u64) -> u64 {
    match off {
        SeekOff::Offset(o) => o,
        SeekOff::EOF => len,
    }
}

/// Resolve the next allocated segment of a file of length `len`, given where
/// a data seek and the following hole seek landed: end-of-file stands in for
/// a missing offset on both sides. The result is the pair (start of data,
/// start of the following hole).
pub fn next_sparse_segments(next_data: SeekOff, next_hole: SeekOff, len: u64) -> (r: (u64, u64))
    ensures
        r.0 == resolved(next_data, len),
        r.1 == resolved(next_hole, len),
{
    let data_start = match next_data {
        SeekOff::Offset(o) => o,
        SeekOff::EOF => len,
    };
    let hole_start = match next_hole {
        SeekOff::Offset(o) => o,
        SeekOff::EOF => len,
    };
    (data_start, hole_start)
}

} // verus!
