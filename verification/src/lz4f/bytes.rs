//! Copying bytes between buffers.

use vstd::prelude::*;

verus! {

/// Append the `k` bytes of `src` from `from` to `v`.
pub(crate) fn append_range(v: &mut Vec<u8>, src: &[u8], from: usize, k: usize)
    requires
        from + k <= src@.len(),
    ensures
        final(v)@ == old(v)@ + src@.subrange(from as int, from + k),
{
    let mut i: usize = 0;
    while i < k
        invariant
            i <= k,
            from + k <= src.len(),
            v@ == old(v)@ + src@.subrange(from as int, from + i),
        decreases k - i,
    {
        v.push(src[from + i]);
        assert(src@.subrange(from as int, from + i + 1) == src@.subrange(from as int, from + i).push(
            src@[from + i],
        ));
        i = i + 1;
    }
}

/// Append all of `src` to `v`.
pub(crate) fn append_all(v: &mut Vec<u8>, src: &[u8])
    ensures
        final(v)@ == old(v)@ + src@,
{
    append_range(v, src, 0, src.len());
    assert(src@.subrange(0, src@.len() as int) =~= src@);
}

/// A copy of `src`.
pub(crate) fn copy_bytes(src: &[u8]) -> (r: Vec<u8>)
    ensures
        r@ == src@,
{
    let mut copy: Vec<u8> = Vec::new();
    append_all(&mut copy, src);
    assert(Seq::<u8>::empty() + src@ =~= src@);
    copy
}

/// Copy the `n` bytes of `src` from `from` into the start of `dst`; the rest
/// of `dst` is left as it was.
pub(crate) fn copy_into(dst: &mut [u8], src: &[u8], from: usize, n: usize)
    requires
        from + n <= src@.len(),
        n <= old(dst)@.len(),
    ensures
        final(dst)@.len() == old(dst)@.len(),
        final(dst)@.take(n as int) == src@.subrange(from as int, from + n),
        final(dst)@.skip(n as int) == old(dst)@.skip(n as int),
{
    let ghost d0 = dst@;
    let mut i: usize = 0;
    while i < n
        invariant
            from + n <= src.len(),
            n <= dst@.len(),
            dst@.len() == d0.len(),
            i <= n,
            forall|j: int| 0 <= j < i ==> dst@[j] == src@[from + j],
            forall|j: int| n <= j < d0.len() ==> dst@[j] == d0[j],
        decreases n - i,
    {
        dst[i] = src[from + i];
        i = i + 1;
    }
    assert(dst@.take(n as int) =~= src@.subrange(from as int, from + n));
    assert(dst@.skip(n as int) =~= d0.skip(n as int));
}

} // verus!
