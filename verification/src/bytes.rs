//! Small operations on byte strings that the rest of the crate shares.

use vstd::prelude::*;

verus! {

/// Appends every byte of `tail` to `buffer`.
pub fn append_bytes(buffer: &mut Vec<u8>, tail: &[u8])
    ensures
        final(buffer)@ == old(buffer)@ + tail@,
{
    let mut i: usize = 0;
    while i < tail.len()
        invariant
            i <= tail.len(),
            buffer@ == old(buffer)@ + tail@.subrange(0, i as int),
        decreases tail.len() - i,
    {
        buffer.push(tail[i]);
        i += 1;
    }
    assert(tail@.subrange(0, tail@.len() as int) == tail@);
}

/// The bytes of `source` from `start` up to, not including, `end`.
pub fn copy_range(source: &[u8], start: usize, end: usize) -> (out: Vec<u8>)
    requires
        start <= end <= source.len(),
    ensures
        out@ == source@.subrange(start as int, end as int),
{
    let mut out: Vec<u8> = Vec::new();
    let mut i: usize = start;
    while i < end
        invariant
            start <= i <= end <= source.len(),
            out@ == source@.subrange(start as int, i as int),
        decreases end - i,
    {
        out.push(source[i]);
        i += 1;
    }
    out
}

/// Whether two byte strings hold the same bytes.
pub fn bytes_equal(a: &[u8], b: &[u8]) -> (same: bool)
    ensures
        same == (a@ == b@),
{
    if a.len() != b.len() {
        return false;
    }
    let mut i: usize = 0;
    while i < a.len()
        invariant
            i <= a.len(),
            a.len() == b.len(),
            a@.subrange(0, i as int) == b@.subrange(0, i as int),
        decreases a.len() - i,
    {
        if a[i] != b[i] {
            return false;
        }
        assert(a@.subrange(0, i + 1) == a@.subrange(0, i as int).push(a@[i as int]));
        assert(b@.subrange(0, i + 1) == b@.subrange(0, i as int).push(b@[i as int]));
        i += 1;
    }
    assert(a@.subrange(0, a@.len() as int) == a@);
    assert(b@.subrange(0, b@.len() as int) == b@);
    true
}

} // verus!
