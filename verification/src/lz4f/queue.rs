//! The buffer of produced bytes that a streaming compressor or decompressor
//! hands out piece by piece.

use vstd::prelude::*;
use super::bytes::{append_all, copy_into};

verus! {

/// Produced bytes, and how many of them have been read out.
pub struct OutputQueue {
    data: Vec<u8>,
    consumed: usize,
}

impl OutputQueue {
    /// At most all of the bytes have been read out.
    #[verifier::type_invariant]
    spec fn inv(&self) -> bool {
        self.consumed <= self.data@.len()
    }

    /// The bytes in the buffer.
    pub closed spec fn bytes(&self) -> Seq<u8> {
        self.data@
    }

    /// How many bytes of the buffer have been read out.
    pub closed spec fn consumed_spec(&self) -> nat {
        self.consumed as nat
    }

    /// The bytes in the buffer that have not been read out yet.
    pub closed spec fn pending(&self) -> Seq<u8> {
        self.data@.skip(self.consumed as int)
    }

    /// An empty buffer.
    pub fn new() -> (r: OutputQueue)
        ensures
            r.bytes() == Seq::<u8>::empty(),
            r.consumed_spec() == 0,
    {
        OutputQueue { data: Vec::new(), consumed: 0 }
    }

    /// Append `more` to the buffer.
    pub fn extend(&mut self, more: &[u8])
        ensures
            final(self).bytes() == old(self).bytes() + more@,
            final(self).consumed_spec() == old(self).consumed_spec(),
            final(self).pending() == old(self).pending() + more@,
    {
        let mut taken = OutputQueue::new();
        std::mem::swap(&mut taken, self);
        proof {
            use_type_invariant(&taken);
        }
        let OutputQueue { data, consumed } = taken;
        let ghost d0 = data@;
        let mut data = data;
        append_all(&mut data, more);
        assert(data@.skip(consumed as int) =~= d0.skip(consumed as int) + more@);
        *self = OutputQueue { data, consumed };
    }

    /// Return the bytes in the buffer.
    pub fn as_slice(&self) -> (r: &[u8])
        ensures
            r@ == self.bytes(),
    {
        self.data.as_slice()
    }

    /// Return the bytes that have not been read out yet.
    pub fn pending_slice(&self) -> (r: &[u8])
        ensures
            r@ == self.pending(),
    {
        proof {
            use_type_invariant(self);
        }
        let (_, tail) = self.data.as_slice().split_at(self.consumed);
        assert(tail@ =~= self.pending());
        tail
    }

    /// Empty the buffer.
    pub fn clear(&mut self)
        ensures
            final(self).bytes() == Seq::<u8>::empty(),
            final(self).consumed_spec() == 0,
            final(self).pending() == Seq::<u8>::empty(),
    {
        self.consumed = 0;
        self.data = Vec::new();
        assert(self.data@.skip(0) =~= Seq::<u8>::empty());
    }

    /// Copy as many pending bytes as `dst` holds into its start; the buffer
    /// is emptied once all of it has been read out.
    pub fn read_buf(&mut self, dst: &mut [u8]) -> (n: usize)
        ensures
            n == if old(dst)@.len() < old(self).pending().len() {
                old(dst)@.len()
            } else {
                old(self).pending().len()
            },
            final(dst)@.len() == old(dst)@.len(),
            final(dst)@.take(n as int) == old(self).pending().take(n as int),
            final(dst)@.skip(n as int) == old(dst)@.skip(n as int),
            final(self).pending() == old(self).pending().skip(n as int),
            final(self).bytes() == old(self).bytes() || (final(self).bytes() == Seq::<u8>::empty()
                && final(self).consumed_spec() == 0 && n == old(self).pending().len()),
            final(self).bytes() == old(self).bytes() ==> final(self).consumed_spec() == old(self).consumed_spec() + n,
    {
        proof {
            use_type_invariant(&*self);
        }
        let ghost p0 = self.pending();
        let avail = self.data.len() - self.consumed;
        let n = if dst.len() < avail { dst.len() } else { avail };
        copy_into(dst, self.data.as_slice(), self.consumed, n);
        assert(self.data@.subrange(self.consumed as int, self.consumed + n) =~= p0.take(n as int));
        let read_out = self.consumed + n;
        if read_out >= self.data.len() {
            self.consumed = 0;
            self.data = Vec::new();
        } else {
            self.consumed = read_out;
        }
        assert(self.pending() =~= p0.skip(n as int));
        n
    }

    /// Mark `amt` pending bytes as read out (all of them when `amt` is
    /// larger); the buffer is emptied once all of it has been read out.
    pub fn consume(&mut self, amt: usize)
        ensures
            final(self).pending() == old(self).pending().skip(
                if amt < old(self).pending().len() { amt as int } else { old(self).pending().len() as int },
            ),
            (amt < old(self).pending().len() && final(self).bytes() == old(self).bytes()
                && final(self).consumed_spec() == old(self).consumed_spec() + amt) || (amt >= old(self).pending().len()
                && final(self).bytes() == Seq::<u8>::empty() && final(self).consumed_spec() == 0),
    {
        proof {
            use_type_invariant(&*self);
        }
        let ghost p0 = self.pending();
        let avail = self.data.len() - self.consumed;
        if amt >= avail {
            self.consumed = 0;
            self.data = Vec::new();
            assert(self.pending() =~= p0.skip(p0.len() as int));
        } else {
            self.consumed = self.consumed + amt;
            assert(self.pending() =~= p0.skip(amt as int));
        }
    }
}

} // verus!
