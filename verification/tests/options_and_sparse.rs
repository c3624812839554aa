//! Parsing the reflink policy, and the sparseness heuristic.

use xcp_core::errors::CopyError;
use xcp_core::options::Reflink;
use xcp_core::sparse::probably_sparse;

#[test]
fn reflink_tokens_parse() {
    assert_eq!(Reflink::from_str("always"), Ok(Reflink::Always));
    assert_eq!(Reflink::from_str("auto"), Ok(Reflink::Auto));
    assert_eq!(Reflink::from_str("never"), Ok(Reflink::Never));
}

#[test]
fn reflink_tokens_ignore_ascii_case() {
    assert_eq!(Reflink::from_str("Always"), Ok(Reflink::Always));
    assert_eq!(Reflink::from_str("AUTO"), Ok(Reflink::Auto));
    assert_eq!(Reflink::from_str("NeVeR"), Ok(Reflink::Never));
}

#[test]
fn reflink_unknown_value_is_config_error() {
    assert_eq!(
        Reflink::from_str("sometimes"),
        Err(CopyError::InvalidReflinkValue(String::from("sometimes")))
    );
    assert_eq!(
        Reflink::from_str(""),
        Err(CopyError::InvalidReflinkValue(String::new()))
    );
    // A near miss is still a miss, and the offending value is carried as is.
    assert_eq!(
        Reflink::from_str("auto "),
        Err(CopyError::InvalidReflinkValue(String::from("auto ")))
    );
}

#[test]
fn sparse_detection_empty_presized_file() {
    // A freshly pre-sized 1 MiB file has no blocks allocated.
    assert!(probably_sparse(0, 1024 * 1024));
}

#[test]
fn sparse_detection_fully_written_file() {
    // A fully written 1 MiB file carries all 2048 of its 512-byte units.
    assert!(!probably_sparse(2048, 1024 * 1024));
}

#[test]
fn sparse_detection_half_written_file() {
    // Half the units allocated: still classified sparse.
    assert!(probably_sparse(1024, 1024 * 1024));
}

#[test]
fn sparse_detection_boundary() {
    // Exactly as many units as the length implies: dense, not sparse.
    assert!(!probably_sparse(2, 1024));
    // One unit short of the length: sparse.
    assert!(probably_sparse(1, 1024));
    // Over-allocation (indirect blocks) is dense too.
    assert!(!probably_sparse(3, 1024));
}

#[test]
fn sparse_detection_small_dense_file() {
    // A small file with a whole unit allocated for a few bytes of data.
    assert!(!probably_sparse(8, 137));
    // An empty file is not sparse: nothing falls short of length zero.
    assert!(!probably_sparse(0, 0));
}
