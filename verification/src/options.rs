//! The copy-on-write policy and the configuration the engine consumes.

use vstd::prelude::*;

use crate::errors::CopyError;

verus! {

/// Copy-on-write cloning policy.
///
/// `Always` demands a successful clone or the copy fails; `Auto` attempts one
/// and silently falls back to a normal copy; `Never` skips the attempt
/// entirely.
#[derive(Clone, Copy, Debug, PartialEq, Eq, Structural)]
pub enum Reflink {
    Always,
    Auto,
    Never,
}

/// `a` reads as the (lower-case) token character `b`, ignoring ASCII case.
pub open spec fn folds_to(a: char, b: char) -> bool {
    a == b || ('A' as u32 <= a as u32 && a as u32 <= 'Z' as u32 && a as u32 + 32 == b as u32)
}

/// `s` equals the lower-case token `t` up to ASCII case.
pub open spec fn matches_token(s: Seq<char>, t: Seq<char>) -> bool {
    s.len() == t.len() && (forall|i: int| 0 <= i < s.len() ==> folds_to(s[i], t[i]))
}

/// The mode a configuration string denotes, or `None` when it is not one of
/// the three recognized tokens (compared ignoring ASCII case).
pub open spec fn reflink_of_str(s: Seq<char>) -> Option<Reflink> {
    if matches_token(s, "always"@) {
        Some(Reflink::Always)
    } else if matches_token(s, "auto"@) {
        Some(Reflink::Auto)
    } else if matches_token(s, "never"@) {
        Some(Reflink::Never)
    } else {
        None
    }
}

/// Case-insensitive (ASCII) comparison of `s` against a lower-case token.
fn matches_lower(s: &str, t: &str) -> (r: bool)
    ensures
        r == matches_token(s@, t@),
{
    let n = s.unicode_len();
    if n != t.unicode_len() {
        return false;
    }
    let mut i: usize = 0;
    while i < n
        invariant
            i <= n,
            n == s@.len(),
            n == t@.len(),
            forall|j: int| 0 <= j < i ==> folds_to(s@[j], t@[j]),
        decreases n - i,
    {
        let a = s.get_char(i);
        let b = t.get_char(i);
        let au = a as u32;
        let bu = b as u32;
        if !(a == b || (65 <= au && au <= 90 && au + 32 == bu)) {
            assert(!folds_to(s@[i as int], t@[i as int]));
            return false;
        }
        i += 1;
    }
    true
}

impl Reflink {
    /// Parse a configuration value: one of the three recognized tokens,
    /// ignoring ASCII case. Anything else is a configuration error carrying
    /// the raw value, reported immediately and never retried.
    pub fn from_str(s: &str) -> (r: Result<Reflink, CopyError>)
        ensures
            match r {
                Ok(mode) => reflink_of_str(s@) == Some(mode),
                Err(e) => reflink_of_str(s@) is None && (e matches CopyError::InvalidReflinkValue(
                    v,
                ) && v@ == s@),
            },
    {
        if matches_lower(s, "always") {
            Ok(Reflink::Always)
        } else if matches_lower(s, "auto") {
            Ok(Reflink::Auto)
        } else if matches_lower(s, "never") {
            Ok(Reflink::Never)
        } else {
            Err(CopyError::InvalidReflinkValue(s.to_owned()))
        }
    }
}

/// The configuration the copy engine consumes (it never owns it): the
/// cloning policy, whether to skip permission finalization, whether to force
/// the destination to stable storage on finalization, and the most bytes a
/// single kernel-copy call may be asked for.
#[derive(Clone, Copy, Debug)]
pub struct Opts {
    pub reflink: Reflink,
    pub no_perms: bool,
    pub fsync: bool,
    pub batch_size: u64,
}

impl Opts {
    /// A usable configuration: a copy request of zero bytes could never make
    /// progress, so the batch size must be positive.
    pub open spec fn wf(self) -> bool {
        self.batch_size > 0
    }
}

} // verus!
