//! Fixed-size byte helpers shared by the readers and writers.

use vstd::prelude::*;

verus! {

/// Copies `N` bytes of `input` starting at `start` into an array.
pub fn take_bytes<const N: usize>(input: &[u8], start: usize) -> (r: [u8; N])
    requires
        start + N <= input@.len(),
    ensures
        r@ == input@.subrange(start as int, start + N),
{
    let mut r: [u8; N] = [0u8; N];
    let mut i: usize = 0;
    while i < N
        invariant
            i <= N,
            start + N <= input.len(),
            r@.len() == N,
            forall|j: int| 0 <= j < i ==> r@[j] == input@[start + j],
        decreases N - i,
    {
        r[i] = input[start + i];
        i = i + 1;
    }
    assert(r@ =~= input@.subrange(start as int, start + N));
    r
}

/// Appends `bytes` to the end of `out`.
pub fn append_bytes(out: &mut Vec<u8>, bytes: &[u8])
    ensures
        final(out)@ == old(out)@ + bytes@,
{
    let mut i: usize = 0;
    while i < bytes.len()
        invariant
            i <= bytes@.len(),
            out@ == old(out)@ + bytes@.subrange(0, i as int),
        decreases bytes@.len() - i,
    {
        out.push(bytes[i]);
        i = i + 1;
        assert(out@ =~= old(out)@ + bytes@.subrange(0, i as int));
    }
    assert(bytes@.subrange(0, bytes@.len() as int) =~= bytes@);
}

} // verus!
