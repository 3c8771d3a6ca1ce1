//! Byte-pattern matching and linear offset discovery over a memory image.

use vstd::prelude::*;

use crate::mem_lib::Error;

verus! {

/// `pattern` lies in `image` starting at index `i`.
pub open spec fn occurs_at(image: Seq<u8>, pattern: Seq<u8>, i: int) -> bool {
    0 <= i && i + pattern.len() <= image.len() && image.subrange(i, i + pattern.len()) == pattern
}

/// `pattern` lies somewhere in `image`.
pub open spec fn contains_bytes(image: Seq<u8>, pattern: Seq<u8>) -> bool {
    exists|i: int| occurs_at(image, pattern, i)
}

/// `r` is what a forward scan of the offsets `start..bound` for `pattern` owes:
/// the first offset in range where the pattern lies, else `DiscoveryExhausted`.
pub open spec fn is_scan_result(
    image: Seq<u8>,
    pattern: Seq<u8>,
    start: int,
    bound: int,
    r: Result<usize, Error>,
) -> bool {
    match r {
        Ok(o) => start <= o < bound && occurs_at(image, pattern, o as int) && forall|j: int|
            start <= j < o ==> !occurs_at(image, pattern, j),
        Err(e) => e == Error::DiscoveryExhausted && forall|j: int|
            start <= j < bound ==> !occurs_at(image, pattern, j),
    }
}

/// Exact-length, exact-byte equality.
pub fn bytes_equal(a: &[u8], b: &[u8]) -> (r: bool)
    ensures
        r == (a@ == b@),
{
    if a.len() != b.len() {
        return false;
    }
    let mut i: usize = 0;
    while i < a.len()
        invariant
            a@.len() == b@.len(),
            i <= a@.len(),
            forall|k: int| 0 <= k < i ==> a@[k] == b@[k],
        decreases a@.len() - i,
    {
        if a[i] != b[i] {
            return false;
        }
        i = i + 1;
    }
    assert(a@ =~= b@);
    true
}

/// Whether `pattern` lies in `image` at index `at`.
pub fn matches_at(image: &[u8], pattern: &[u8], at: usize) -> (r: bool)
    ensures
        r == occurs_at(image@, pattern@, at as int),
{
    if at > image.len() || pattern.len() > image.len() - at {
        return false;
    }
    let mut k: usize = 0;
    while k < pattern.len()
        invariant
            at + pattern@.len() <= image@.len(),
            image@.len() <= usize::MAX,
            k <= pattern@.len(),
            forall|m: int| 0 <= m < k ==> image@[at + m] == pattern@[m],
        decreases pattern@.len() - k,
    {
        if image[at + k] != pattern[k] {
            assert(image@.subrange(at as int, at + pattern@.len())[k as int] != pattern@[k as int]);
            return false;
        }
        k = k + 1;
    }
    assert(image@.subrange(at as int, at + pattern@.len()) =~= pattern@);
    true
}

/// Scans `image` (memory from the module base on) for `pattern`, one byte at a
/// time from offset `start`, never at or past `bound`.
pub fn find_pattern(image: &[u8], pattern: &[u8], start: usize, bound: usize) -> (r: Result<
    usize,
    Error,
>)
    ensures
        is_scan_result(image@, pattern@, start as int, bound as int, r),
{
    if pattern.len() > image.len() {
        return Err(Error::DiscoveryExhausted);
    }
    let last: usize = image.len() - pattern.len();
    let end: usize = if bound <= last {
        bound
    } else {
        last + 1
    };
    let mut o: usize = start;
    while o < end
        invariant
            start <= o,
            end <= bound,
            end <= last + 1,
            last + pattern@.len() == image@.len(),
            forall|j: int| start <= j < o ==> !occurs_at(image@, pattern@, j),
        decreases end - o,
    {
        if matches_at(image, pattern, o) {
            return Ok(o);
        }
        o = o + 1;
    }
    Err(Error::DiscoveryExhausted)
}

/// Whether `pattern` occurs anywhere in `image`.
pub fn contains(image: &[u8], pattern: &[u8]) -> (r: bool)
    ensures
        r == contains_bytes(image@, pattern@),
{
    if pattern.len() > image.len() {
        return false;
    }
    if pattern.len() == 0 {
        assert(image@.subrange(0, 0) =~= pattern@);
        assert(occurs_at(image@, pattern@, 0));
        return true;
    }
    match find_pattern(image, pattern, 0, image.len() - pattern.len() + 1) {
        Ok(_) => true,
        Err(_) => false,
    }
}

} // verus!
