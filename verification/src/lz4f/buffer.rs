//! A destination buffer that grows to what liblz4 may write for the next
//! piece of input.

use vstd::prelude::*;
use super::bound::{
    compress_bound, compress_bound_spec, lemma_bounds_fit, lemma_compress_bound_monotone,
    LZ4F_HEADER_SIZE_MAX,
};
use super::preferences::Preferences;

verus! {

/// A byte buffer sized for the output of the next compression step.
///
/// It remembers the largest input it was grown for (plus one, or zero
/// before the first growth), and grows only for a larger one.
pub struct LZ4Buffer {
    data: Vec<u8>,
    prev_size: usize,
    prefs: Ghost<Preferences>,
}

impl View for LZ4Buffer {
    type V = Seq<u8>;

    closed spec fn view(&self) -> Seq<u8> {
        self.data@
    }
}

/// The length a buffer of length `len` has after it is made room for
/// `size` bytes of input with `prefs`, when it grows.
pub open spec fn grown_len_spec(len: nat, size: nat, prefs: Preferences) -> nat {
    let want = compress_bound_spec(size, prefs) + (LZ4F_HEADER_SIZE_MAX as nat);
    if want > len { want } else { len }
}

/// A buffer of `len` bytes can take what liblz4 writes for `size` bytes of
/// input with `prefs`, after the largest frame header.
pub open spec fn holds_output_spec(len: nat, size: nat, prefs: Preferences) -> bool {
    len >= compress_bound_spec(size, prefs) + LZ4F_HEADER_SIZE_MAX
}

impl LZ4Buffer {
    /// Once grown, the buffer can take the output for the largest input it
    /// was grown for, with the preferences of its last growth.
    pub closed spec fn wf(&self) -> bool {
        self.prev_size > 0 ==> holds_output_spec(
            self.data@.len(),
            (self.prev_size - 1) as nat,
            self.prefs@,
        )
    }

    /// The preferences that the buffer was last grown with.
    pub closed spec fn prefs_spec(&self) -> Preferences {
        self.prefs@
    }

    /// The largest input size that the buffer was grown for, plus one (zero
    /// before it was first grown).
    pub closed spec fn prev_size_spec(&self) -> usize {
        self.prev_size
    }

    /// Create an empty buffer.
    pub fn new() -> (r: LZ4Buffer)
        ensures
            r.wf(),
            r@ == Seq::<u8>::empty(),
            r.prev_size_spec() == 0,
    {
        LZ4Buffer { data: Vec::new(), prev_size: 0, prefs: Ghost(Preferences::default_spec()) }
    }

    /// Make room for the output of compressing `size` more bytes with
    /// `prefs` (and the largest frame header): the buffer grows, with zero
    /// bytes at its end, when `size` is larger than every size it was grown
    /// for before. Its content is kept.
    pub fn grow(&mut self, size: usize, prefs: &Preferences)
        requires
            old(self).wf(),
            size <= isize::MAX,
        ensures
            final(self).wf(),
            old(self).prev_size_spec() == 0 || size + 1 > old(self).prev_size_spec()
                || old(self).prefs_spec() == *prefs ==> holds_output_spec(
                final(self)@.len(),
                size as nat,
                *prefs,
            ),
            old(self).prev_size_spec() == 0 || size + 1 > old(self).prev_size_spec() ==> {
                &&& final(self)@.len() == grown_len_spec(old(self)@.len(), size as nat, *prefs)
                &&& final(self).prev_size_spec() == size + 1
            },
            !(old(self).prev_size_spec() == 0 || size + 1 > old(self).prev_size_spec()) ==> {
                &&& final(self)@ == old(self)@
                &&& final(self).prev_size_spec() == old(self).prev_size_spec()
            },
            final(self)@.take(old(self)@.len() as int) == old(self)@,
            forall|i: int| old(self)@.len() <= i < final(self)@.len() ==> final(self)@[i] == 0,
    {
        let ghost d0 = self.data@;
        if self.prev_size == 0 || size + 1 > self.prev_size {
            proof {
                lemma_bounds_fit(size as nat, *prefs);
            }
            let len = compress_bound(size, prefs) + LZ4F_HEADER_SIZE_MAX;
            if len > self.data.len() {
                let mut n = self.data.len();
                while n < len
                    invariant
                        d0.len() <= n <= len,
                        self.data@.len() == n,
                        self.data@.take(d0.len() as int) == d0,
                        forall|i: int| d0.len() <= i < n ==> self.data@[i] == 0,
                    decreases len - n,
                {
                    self.data.push(0);
                    assert(self.data@.take(d0.len() as int) =~= d0);
                    n = n + 1;
                }
            } else {
                assert(self.data@.take(d0.len() as int) =~= d0);
            }
            self.prev_size = size + 1;
            self.prefs = Ghost(*prefs);
        } else {
            assert(self.data@.take(d0.len() as int) =~= d0);
            proof {
                if self.prefs@ == *prefs {
                    lemma_compress_bound_monotone(size as nat, (self.prev_size - 1) as nat, *prefs);
                }
            }
        }
    }

    /// Return the bytes of the buffer.
    pub fn as_slice(&self) -> (r: &[u8])
        ensures
            r@ == self@,
    {
        self.data.as_slice()
    }

    /// Return the bytes of the buffer, to be written to.
    pub fn as_mut_slice(&mut self) -> (r: &mut [u8])
        requires
            old(self).wf(),
        ensures
            r@ == old(self)@,
            final(self)@ == final(r)@,
            final(self)@.len() == old(self)@.len() ==> final(self).wf(),
            final(self).prev_size_spec() == old(self).prev_size_spec(),
            final(self).prefs_spec() == old(self).prefs_spec(),
    {
        self.data.as_mut_slice()
    }
}

impl Default for LZ4Buffer {
    fn default() -> (r: LZ4Buffer)
        ensures
            r.wf(),
            r@ == Seq::<u8>::empty(),
            r.prev_size_spec() == 0,
    {
        LZ4Buffer::new()
    }
}

} // verus!
