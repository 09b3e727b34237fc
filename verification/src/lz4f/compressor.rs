//! Streaming LZ4 frame compression: a compression context that appends the
//! frame piece by piece, and the compressor state machine on top of it.

use vstd::prelude::*;
use super::bound::{
    compress_bound as frame_compress_bound, compress_bound_spec, lemma_written_header_prefix,
    written_header_len_spec, written_header_spec, LZ4F_HEADER_SIZE_MAX,
};
use super::codec::{
    encoder_contents, encoder_finish, encoder_flush, encoder_new, encoder_output, encoder_write,
    lz4f_decode,
};
use super::dictionary::Dictionary;
use super::bytes::{append_range, copy_into};
use super::error::{Error, ErrorKind, Result};
use super::preferences::Preferences;

verus! {

/// Append `src[from..]` to `dst`.
fn append_tail(src: &Vec<u8>, from: usize, dst: &mut Vec<u8>)
    requires
        from <= src@.len(),
    ensures
        final(dst)@ == old(dst)@ + src@.skip(from as int),
{
    append_range(dst, src.as_slice(), from, src.len() - from);
    assert(src@.subrange(from as int, src@.len() as int) =~= src@.skip(from as int));
}

/// A liblz4 compression context that writes one frame at a time.
///
/// Each call appends the bytes of the frame that it produced to a `Vec`.
/// A dictionary can be attached; the `lz4` crate that the context is built
/// on has no way to load it into liblz4, so frames are written without it
/// (they decompress the same with or without the dictionary).
pub struct CompressionContext {
    encoder: Option<lz4::Encoder<Vec<u8>>>,
    taken: usize,
    ended: bool,
    dict: Option<Dictionary>,
    prefs: Ghost<Preferences>,
    input: Ghost<Seq<u8>>,
    output: Ghost<Seq<u8>>,
}

/// Whether liblz4 can end a frame begun with `prefs` after `len` bytes of
/// input: the frame announces no content size, or announces `len`.
pub open spec fn content_size_matches(prefs: Preferences, len: nat) -> bool {
    prefs.frame_info.content_size == 0 || prefs.frame_info.content_size == len
}

/// `a` is a prefix of `c` when it is one of `b` and `b` is one of `c`.
proof fn lemma_prefix_trans(a: Seq<u8>, b: Seq<u8>, c: Seq<u8>)
    requires
        a.is_prefix_of(b),
        b.is_prefix_of(c),
    ensures
        a.is_prefix_of(c),
{
    assert forall|i: int| 0 <= i < a.len() implies a[i] == c[i] by {
        assert(a[i] == b[i]);
    }
}

impl CompressionContext {
    /// The context is consistent with the encoder that it holds, and what it
    /// handed out of a begun frame starts with the frame's header.
    pub closed spec fn wf(&self) -> bool {
        match self.encoder {
            Some(e) => {
                &&& !self.ended
                &&& encoder_contents(e).0 == self.input@
                &&& encoder_contents(e).2 == self.prefs@
                &&& self.taken == encoder_contents(e).1.len()
                &&& self.output@ == encoder_contents(e).1
                &&& written_header_spec(self.output@, self.prefs@)
            },
            None => if self.ended {
                &&& lz4f_decode(self.output@) == (self.input@, true, None::<Seq<char>>)
                &&& written_header_spec(self.output@, self.prefs@)
            } else {
                self.input@ == Seq::<u8>::empty() && self.output@ == Seq::<u8>::empty()
            },
        }
    }

    /// A frame has been begun and not yet ended.
    pub closed spec fn is_active(&self) -> bool {
        self.encoder is Some
    }

    /// The last frame has been ended.
    pub closed spec fn is_ended(&self) -> bool {
        self.encoder is None && self.ended
    }

    /// The bytes given to the current frame.
    pub closed spec fn input(&self) -> Seq<u8> {
        self.input@
    }

    /// The bytes of the current frame that the context has handed out.
    pub closed spec fn output(&self) -> Seq<u8> {
        self.output@
    }

    /// The preferences that the current (or last) frame was begun with.
    pub closed spec fn prefs_spec(&self) -> Preferences {
        self.prefs@
    }

    /// How many of the bytes given to the current frame liblz4 holds back,
    /// not yet compressed into a block.
    pub closed spec fn held_back(&self) -> nat {
        match self.encoder {
            Some(e) => encoder_contents(e).3,
            None => 0,
        }
    }

    /// Create a context, with the dictionary that it will be used with.
    pub fn new(dict: Option<Dictionary>) -> (r: Result<CompressionContext>)
        ensures
            r matches Ok(c) && c.wf() && !c.is_active() && !c.is_ended(),
    {
        Ok(CompressionContext {
            encoder: None,
            taken: 0,
            ended: false,
            dict,
            prefs: Ghost(Preferences::default_spec()),
            input: Ghost(Seq::empty()),
            output: Ghost(Seq::empty()),
        })
    }

    fn reset(&mut self)
        ensures
            final(self).wf(),
            !final(self).is_active(),
            !final(self).is_ended(),
            final(self).dict == old(self).dict,
    {
        self.encoder = None;
        self.taken = 0;
        self.ended = false;
        self.input = Ghost(Seq::empty());
        self.output = Ghost(Seq::empty());
    }

    /// Begin a new frame written with `prefs` and append its header to `dst`.
    /// It fails only when liblz4 cannot allocate its context.
    pub fn begin(&mut self, dst: &mut Vec<u8>, prefs: &Preferences) -> (r: Result<usize>)
        requires
            old(self).wf(),
        ensures
            final(self).wf(),
            r matches Ok(n) ==> {
                &&& final(self).is_active()
                &&& final(self).prefs_spec() == *prefs
                &&& final(self).input() == Seq::<u8>::empty()
                &&& final(self).output().len() == n
                &&& n == written_header_len_spec(*prefs)
                &&& n <= LZ4F_HEADER_SIZE_MAX
                &&& written_header_spec(final(self).output(), *prefs)
                &&& final(dst)@ == old(dst)@ + final(self).output()
            },
            r is Err ==> r == Err::<usize, Error>(Error::Lz4f(ErrorKind::AllocationFailed))
                && !final(self).is_active() && !final(self).is_ended() && final(dst)@ == old(dst)@,
    {
        match encoder_new(prefs) {
            Ok(enc) => {
                let out = encoder_output(&enc);
                let n = out.len();
                append_tail(out, 0, dst);
                let ghost header = out@;
                assert(header.skip(0) =~= header);
                assert(header.take(n as int) =~= header);
                self.encoder = Some(enc);
                self.taken = n;
                self.ended = false;
                self.prefs = Ghost(*prefs);
                self.input = Ghost(Seq::empty());
                self.output = Ghost(header);
                Ok(n)
            },
            Err(e) => {
                self.reset();
                Err(e)
            },
        }
    }

    /// Compress `src` into the current frame and append what comes out to
    /// `dst`; this succeeds whenever a frame is in progress. `stable_src` is
    /// a hint that liblz4 only uses to avoid a copy.
    pub fn update(&mut self, dst: &mut Vec<u8>, src: &[u8], stable_src: bool) -> (r: Result<usize>)
        requires
            old(self).wf(),
        ensures
            final(self).wf(),
            !old(self).is_active() ==> r == Err::<usize, Error>(Error::Lz4f(ErrorKind::Generic))
                && *final(self) == *old(self) && final(dst)@ == old(dst)@,
            old(self).is_active() ==> r is Ok,
            r matches Ok(n) ==> {
                &&& old(self).is_active() && final(self).is_active()
                &&& final(self).prefs_spec() == old(self).prefs_spec()
                &&& final(self).input() == old(self).input() + src@
                &&& final(dst)@ == old(dst)@ + final(dst)@.skip(old(dst)@.len() as int)
                &&& final(self).output() == old(self).output() + final(dst)@.skip(old(dst)@.len() as int)
                &&& n == final(dst)@.len() - old(dst)@.len()
                &&& src@.len() > 0 ==> n > 0 || final(self).held_back() > 0
            },
    {
        match self.encoder.take() {
            Some(mut enc) => {
                let ghost before = encoder_contents(enc).1;
                let _ = encoder_write(&mut enc, src);
                let out = encoder_output(&enc);
                let from = self.taken;
                let len = out.len();
                let ghost d0 = dst@;
                append_tail(out, from, dst);
                let ghost after = out@;
                proof {
                    assert(before.take(from as int) =~= after.take(from as int));
                    assert(after.take(len as int) =~= after);
                    assert(after =~= after.take(from as int) + after.skip(from as int));
                    assert(dst@.skip(d0.len() as int) =~= after.skip(from as int));
                    assert(self.output@.is_prefix_of(after));
                    lemma_written_header_prefix(self.output@, after, self.prefs@);
                }
                self.encoder = Some(enc);
                self.taken = len;
                self.input = Ghost(self.input@ + src@);
                self.output = Ghost(after);
                Ok(len - from)
            },
            None => Err(Error::new(ErrorKind::Generic)),
        }
    }

    /// Compress what liblz4 holds back of the current frame and append it
    /// to `dst`; this always succeeds, and without a current frame nothing
    /// is to be flushed.
    pub fn flush(&mut self, dst: &mut Vec<u8>, stable_src: bool) -> (r: Result<usize>)
        requires
            old(self).wf(),
        ensures
            final(self).wf(),
            r is Ok,
            !old(self).is_active() ==> r == Ok::<usize, Error>(0) && *final(self) == *old(self)
                && final(dst)@ == old(dst)@,
            r matches Ok(n) ==> {
                &&& old(self).is_active() ==> final(self).is_active()
                &&& final(self).prefs_spec() == old(self).prefs_spec()
                &&& final(self).input() == old(self).input()
                &&& final(dst)@ == old(dst)@ + final(dst)@.skip(old(dst)@.len() as int)
                &&& final(self).output() == old(self).output() + final(dst)@.skip(old(dst)@.len() as int)
                &&& n == final(dst)@.len() - old(dst)@.len()
            },
            old(self).is_active() ==> {
                &&& lz4f_decode(final(self).output()).0 == final(self).input()
                &&& lz4f_decode(final(self).output()).2 is None
                &&& final(self).held_back() == 0
                &&& old(self).held_back() > 0 ==> (r matches Ok(n) && n > 0)
            },
    {
        match self.encoder.take() {
            Some(mut enc) => {
                let ghost before = encoder_contents(enc).1;
                let _ = encoder_flush(&mut enc);
                let out = encoder_output(&enc);
                let from = self.taken;
                let len = out.len();
                let ghost d0 = dst@;
                append_tail(out, from, dst);
                let ghost after = out@;
                proof {
                    assert(before.take(from as int) =~= after.take(from as int));
                    assert(after.take(len as int) =~= after);
                    assert(after =~= after.take(from as int) + after.skip(from as int));
                    assert(dst@.skip(d0.len() as int) =~= after.skip(from as int));
                    assert(self.output@.is_prefix_of(after));
                    lemma_written_header_prefix(self.output@, after, self.prefs@);
                }
                self.encoder = Some(enc);
                self.taken = len;
                self.output = Ghost(after);
                Ok(len - from)
            },
            None => {
                assert(dst@.skip(dst@.len() as int) =~= Seq::<u8>::empty());
                assert(self.output@ + Seq::<u8>::empty() =~= self.output@);
                assert(dst@ + Seq::<u8>::empty() =~= dst@);
                Ok(0)
            },
        }
    }

    /// End the current frame and append its last bytes to `dst`. The bytes
    /// handed out for the frame then decompress to all that it was given.
    /// It fails with `FrameSizeWrong` exactly when the frame announced a
    /// content size other than the number of bytes it was given.
    pub fn end(&mut self, dst: &mut Vec<u8>, stable_src: bool) -> (r: Result<usize>)
        requires
            old(self).wf(),
        ensures
            final(self).wf(),
            !old(self).is_active() ==> r == Err::<usize, Error>(Error::Lz4f(ErrorKind::Generic))
                && *final(self) == *old(self) && final(dst)@ == old(dst)@,
            old(self).is_active() ==> (r is Ok <==> content_size_matches(
                old(self).prefs_spec(),
                old(self).input().len(),
            )),
            old(self).is_active() && r is Err ==> r == Err::<usize, Error>(
                Error::Lz4f(ErrorKind::FrameSizeWrong),
            ),
            r matches Ok(n) ==> {
                &&& old(self).is_active() && final(self).is_ended()
                &&& final(self).prefs_spec() == old(self).prefs_spec()
                &&& final(self).input() == old(self).input()
                &&& final(dst)@ == old(dst)@ + final(dst)@.skip(old(dst)@.len() as int)
                &&& final(self).output() == old(self).output() + final(dst)@.skip(old(dst)@.len() as int)
                &&& n == final(dst)@.len() - old(dst)@.len()
                &&& lz4f_decode(final(self).output()) == (final(self).input(), true, None::<Seq<char>>)
                &&& written_header_spec(final(self).output(), final(self).prefs_spec())
            },
            r is Err ==> !final(self).is_active() && final(dst)@ == old(dst)@,
    {
        match self.encoder.take() {
            Some(enc) => {
                let ghost before = encoder_contents(enc).1;
                let (out, res) = encoder_finish(enc);
                match res {
                    Ok(()) => {
                        let from = self.taken;
                        let len = out.len();
                        let ghost d0 = dst@;
                        append_tail(&out, from, dst);
                        let ghost after = out@;
                        proof {
                            assert(before.take(from as int) =~= after.take(from as int));
                            assert(after.take(len as int) =~= after);
                            assert(after =~= after.take(from as int) + after.skip(from as int));
                            assert(dst@.skip(d0.len() as int) =~= after.skip(from as int));
                            lemma_prefix_trans(self.output@, before, after);
                            lemma_written_header_prefix(self.output@, after, self.prefs@);
                        }
                        self.taken = 0;
                        self.ended = true;
                        self.output = Ghost(after);
                        Ok(len - from)
                    },
                    Err(_) => {
                        self.reset();
                        Err(Error::new(ErrorKind::FrameSizeWrong))
                    },
                }
            },
            None => Err(Error::new(ErrorKind::Generic)),
        }
    }

    /// Return the capacity that a destination must have so that liblz4 can
    /// take `src_size` more bytes in the worst case.
    pub fn compress_bound(src_size: usize, prefs: &Preferences) -> (r: usize)
        requires
            src_size <= isize::MAX,
        ensures
            r == compress_bound_spec(src_size as nat, *prefs),
    {
        frame_compress_bound(src_size, prefs)
    }
}

/// Where a streaming compressor is in its frame.
#[derive(Debug, Copy, Clone, PartialEq, Eq, Structural)]
pub enum State {
    Created,
    Active,
    Finished,
}

/// A streaming compressor: it writes one frame, begun by the first call,
/// into an internal buffer that the caller drains.
pub struct Compressor {
    ctx: CompressionContext,
    prefs: Preferences,
    state: State,
    buffer: Vec<u8>,
    consumed: usize,
    input: Ghost<Seq<u8>>,
    out: Ghost<Seq<u8>>,
    healthy: Ghost<bool>,
}

impl Compressor {
    /// The buffer holds the last bytes produced, and while no call has
    /// failed the state, input and output are those of the context.
    pub closed spec fn wf(&self) -> bool {
        &&& self.ctx.wf()
        &&& self.state != State::Active ==> !self.ctx.is_active()
        &&& self.buffer@.len() <= self.out@.len()
        &&& self.out@.skip(self.out@.len() - self.buffer@.len()) == self.buffer@
        &&& self.consumed <= self.buffer@.len()
        &&& self.healthy@ ==> {
            &&& self.ctx.input() == self.input@
            &&& self.ctx.output() == self.out@
            &&& self.state != State::Created ==> self.ctx.prefs_spec() == self.prefs
            &&& match self.state {
                State::Created => !self.ctx.is_active() && !self.ctx.is_ended(),
                State::Active => self.ctx.is_active(),
                State::Finished => self.ctx.is_ended(),
            }
        }
    }

    /// Where the compressor is in its frame.
    pub closed spec fn state(&self) -> State {
        self.state
    }

    /// No call has failed so far.
    pub closed spec fn healthy(&self) -> bool {
        self.healthy@
    }

    /// All the bytes given to the compressor.
    pub closed spec fn input(&self) -> Seq<u8> {
        self.input@
    }

    /// All the bytes that the compressor has produced, drained or not.
    pub closed spec fn output(&self) -> Seq<u8> {
        self.out@
    }

    /// The bytes produced and not yet drained.
    pub closed spec fn buffered(&self) -> Seq<u8> {
        self.buffer@
    }

    /// The drained bytes that were read out of the buffer.
    pub closed spec fn consumed(&self) -> nat {
        self.consumed as nat
    }

    /// The bytes of the buffer that have not been read out yet.
    pub open spec fn pending(&self) -> Seq<u8> {
        self.buffered().skip(self.consumed() as int)
    }

    /// The bytes that the compressor has handed out: all it produced but
    /// what is still pending.
    pub open spec fn handed_out(&self) -> Seq<u8> {
        self.output().take(self.output().len() - self.pending().len())
    }

    /// The preferences of the frame.
    pub closed spec fn preferences(&self) -> Preferences {
        self.prefs
    }

    /// How many of the bytes given liblz4 holds back, not yet compressed
    /// into a block.
    pub closed spec fn held_back(&self) -> nat {
        self.ctx.held_back()
    }

    /// Two compressors that nothing observable tells apart.
    pub open spec fn same_as(&self, other: &Compressor) -> bool {
        &&& self.state() == other.state()
        &&& self.healthy() == other.healthy()
        &&& self.input() == other.input()
        &&& self.output() == other.output()
        &&& self.buffered() == other.buffered()
        &&& self.consumed() == other.consumed()
        &&& self.preferences() == other.preferences()
    }

    /// Create a compressor that writes a frame with `prefs` (and `dict`).
    pub fn new(prefs: Preferences, dict: Option<Dictionary>) -> (r: Result<Compressor>)
        ensures
            r matches Ok(c) && {
                &&& c.wf()
                &&& c.healthy()
                &&& c.state() == State::Created
                &&& c.input() == Seq::<u8>::empty()
                &&& c.output() == Seq::<u8>::empty()
                &&& c.buffered() == Seq::<u8>::empty()
                &&& c.preferences() == prefs
            },
    {
        let ctx = CompressionContext::new(dict)?;
        assert(Seq::<u8>::empty().skip(0) =~= Seq::<u8>::empty());
        Ok(Compressor {
            ctx,
            prefs,
            state: State::Created,
            buffer: Vec::new(),
            consumed: 0,
            input: Ghost(Seq::empty()),
            out: Ghost(Seq::empty()),
            healthy: Ghost(true),
        })
    }

    /// Append to the output what the context appended to the buffer.
    proof fn lemma_appended(out: Seq<u8>, buffer: Seq<u8>, new_buffer: Seq<u8>)
        requires
            buffer.len() <= out.len(),
            out.skip(out.len() - buffer.len()) == buffer,
            new_buffer == buffer + new_buffer.skip(buffer.len() as int),
        ensures
            ({
                let new_out = out + new_buffer.skip(buffer.len() as int);
                &&& new_buffer.len() <= new_out.len()
                &&& new_out.skip(new_out.len() - new_buffer.len()) == new_buffer
            }),
    {
        let added = new_buffer.skip(buffer.len() as int);
        let new_out = out + added;
        assert(new_out.skip(new_out.len() - new_buffer.len()) =~= out.skip(out.len() - buffer.len()) + added);
    }

    fn begin(&mut self) -> (r: Result<()>)
        requires
            old(self).wf(),
        ensures
            final(self).wf(),
            final(self).prefs == old(self).prefs,
            final(self).consumed == old(self).consumed,
            final(self).input@ == old(self).input@,
            old(self).state != State::Created ==> r is Ok && *final(self) == *old(self),
            old(self).state == State::Created ==> final(self).state == State::Active,
            old(self).state == State::Created && r is Ok ==> final(self).ctx.is_active(),
            r is Ok && old(self).healthy@ ==> final(self).healthy@,
            r is Ok ==> final(self).buffer@ == old(self).buffer@ + final(self).buffer@.skip(
                old(self).buffer@.len() as int,
            ) && final(self).out@ == old(self).out@ + final(self).buffer@.skip(
                old(self).buffer@.len() as int,
            ),
            r is Err ==> !final(self).healthy@ && final(self).buffer@ == old(self).buffer@
                && final(self).out@ == old(self).out@,
            r is Err ==> r == Err::<(), Error>(Error::Lz4f(ErrorKind::AllocationFailed)),
            r matches Err(e) ==> e is Lz4f,
    {
        if self.state == State::Created {
            self.state = State::Active;
            let ghost b0 = self.buffer@;
            match self.ctx.begin(&mut self.buffer, &self.prefs) {
                Ok(_) => {
                    proof {
                        assert(self.buffer@.skip(b0.len() as int) =~= self.ctx.output());
                        Self::lemma_appended(self.out@, b0, self.buffer@);
                        if self.healthy@ {
                            assert(self.ctx.output() =~= self.out@ + self.buffer@.skip(b0.len() as int));
                        }
                    }
                    self.out = Ghost(self.out@ + self.buffer@.skip(b0.len() as int));
                    Ok(())
                },
                Err(e) => {
                    self.healthy = Ghost(false);
                    Err(e)
                },
            }
        } else {
            Ok(())
        }
    }

    /// Compress `src` into the frame; the compressed bytes (if liblz4 gives
    /// none yet, the flushed bytes) are appended to the buffer, so a
    /// non-empty `src` always adds bytes to it.
    pub fn update(&mut self, src: &[u8], stable_src: bool) -> (r: Result<()>)
        requires
            old(self).wf(),
        ensures
            final(self).wf(),
            final(self).preferences() == old(self).preferences(),
            final(self).consumed() == old(self).consumed(),
            final(self).handed_out() == old(self).handed_out(),
            old(self).state() == State::Finished ==> r == Err::<(), Error>(Error::Lz4f(ErrorKind::Generic))
                && final(self).state() == State::Finished,
            r is Ok ==> {
                &&& final(self).state() == State::Active
                &&& old(self).healthy() ==> final(self).healthy()
                &&& final(self).input() == old(self).input() + src@
                &&& final(self).buffered() == old(self).buffered() + final(self).buffered().skip(old(self).buffered().len() as int)
                &&& final(self).output() == old(self).output() + final(self).buffered().skip(old(self).buffered().len() as int)
            },
            old(self).healthy() && old(self).state() == State::Active ==> r is Ok,
            old(self).healthy() && old(self).state() == State::Created ==> r is Ok || r == Err::<
                (),
                Error,
            >(Error::Lz4f(ErrorKind::AllocationFailed)),
            r is Err ==> final(self).buffered() == old(self).buffered(),
            r is Ok && src@.len() > 0 ==> final(self).buffered().len() > old(self).buffered().len(),
            r matches Err(e) ==> e is Lz4f,
    {
        self.begin()?;
        let ghost b0 = self.buffer@;
        let ghost o0 = self.out@;
        let ghost i0 = self.input@;
        let len = match self.ctx.update(&mut self.buffer, src, stable_src) {
            Ok(len) => len,
            Err(e) => {
                self.healthy = Ghost(false);
                return Err(e);
            },
        };
        proof {
            Self::lemma_appended(self.out@, b0, self.buffer@);
        }
        self.out = Ghost(self.out@ + self.buffer@.skip(b0.len() as int));
        self.input = Ghost(self.input@ + src@);
        if len == 0 {
            assert(self.buffer@ =~= b0);
            self.flush(stable_src)
        } else {
            Ok(())
        }
    }

    /// Flush what liblz4 holds back into the buffer.
    pub fn flush(&mut self, stable_src: bool) -> (r: Result<()>)
        requires
            old(self).wf(),
        ensures
            final(self).wf(),
            final(self).preferences() == old(self).preferences(),
            final(self).consumed() == old(self).consumed(),
            final(self).handed_out() == old(self).handed_out(),
            final(self).input() == old(self).input(),
            old(self).state() == State::Finished ==> r is Ok && final(self).same_as(&*old(self)),
            old(self).state() != State::Created ==> r is Ok,
            old(self).healthy() ==> r is Ok || r == Err::<(), Error>(
                Error::Lz4f(ErrorKind::AllocationFailed),
            ),
            r is Err ==> final(self).buffered() == old(self).buffered(),
            old(self).held_back() > 0 ==> r is Ok && final(self).buffered().len() > old(
                self,
            ).buffered().len(),
            r is Ok ==> {
                &&& old(self).state() != State::Finished ==> final(self).state() == State::Active
                &&& old(self).healthy() ==> final(self).healthy()
                &&& final(self).buffered() == old(self).buffered() + final(self).buffered().skip(old(self).buffered().len() as int)
                &&& final(self).output() == old(self).output() + final(self).buffered().skip(old(self).buffered().len() as int)
            },
            r matches Err(e) ==> e is Lz4f,
    {
        self.begin()?;
        let ghost b0 = self.buffer@;
        match self.ctx.flush(&mut self.buffer, stable_src) {
            Ok(_) => {},
            Err(e) => {
                self.healthy = Ghost(false);
                return Err(e);
            },
        }
        proof {
            Self::lemma_appended(self.out@, b0, self.buffer@);
        }
        let ghost new_out = self.out@ + self.buffer@.skip(b0.len() as int);
        proof {
            if old(self).state == State::Finished {
                assert(new_out =~= self.out@);
            }
        }
        self.out = Ghost(new_out);
        Ok(())
    }

    /// End the frame: its last bytes are appended to the buffer. Ending a
    /// finished frame does nothing.
    #[verifier::spinoff_prover]
    #[verifier::rlimit(40)]
    pub fn end(&mut self, stable_src: bool) -> (r: Result<()>)
        requires
            old(self).wf(),
        ensures
            final(self).wf(),
            final(self).preferences() == old(self).preferences(),
            final(self).consumed() == old(self).consumed(),
            final(self).handed_out() == old(self).handed_out(),
            final(self).input() == old(self).input(),
            old(self).state() == State::Finished ==> r is Ok && final(self).same_as(&*old(self)),
            r is Ok ==> {
                &&& final(self).state() == State::Finished
                &&& old(self).healthy() ==> final(self).healthy()
                &&& final(self).buffered() == old(self).buffered() + final(self).buffered().skip(old(self).buffered().len() as int)
                &&& final(self).output() == old(self).output() + final(self).buffered().skip(old(self).buffered().len() as int)
            },
            r is Ok && old(self).healthy() ==> lz4f_decode(final(self).output()) == (
                final(self).input(),
                true,
                None::<Seq<char>>,
            ),
            r is Ok && old(self).healthy() ==> written_header_spec(
                final(self).output(),
                final(self).preferences(),
            ),
            old(self).healthy() && old(self).state() == State::Active ==> (r is Ok
                <==> content_size_matches(old(self).preferences(), old(self).input().len())),
            old(self).healthy() && old(self).state() == State::Created ==> r == Err::<(), Error>(
                Error::Lz4f(ErrorKind::AllocationFailed),
            ) || (r is Ok <==> content_size_matches(old(self).preferences(), 0)),
            old(self).healthy() && r is Err ==> r == Err::<(), Error>(
                Error::Lz4f(ErrorKind::AllocationFailed),
            ) || r == Err::<(), Error>(Error::Lz4f(ErrorKind::FrameSizeWrong)),
            r is Err && old(self).state() != State::Created ==> final(self).buffered() == old(
                self,
            ).buffered(),
            r matches Err(e) ==> e is Lz4f,
    {
        self.begin()?;
        if self.state == State::Active {
            self.state = State::Finished;
            let ghost b0 = self.buffer@;
            match self.ctx.end(&mut self.buffer, stable_src) {
                Ok(_) => {},
                Err(e) => {
                    self.healthy = Ghost(false);
                    return Err(e);
                },
            }
            proof {
                Self::lemma_appended(self.out@, b0, self.buffer@);
            }
            self.out = Ghost(self.out@ + self.buffer@.skip(b0.len() as int));
        }
        Ok(())
    }

    /// Return the bytes produced and not yet drained.
    pub fn buf(&self) -> (r: &[u8])
        ensures
            r@ == self.buffered(),
    {
        self.buffer.as_slice()
    }

    /// Drain the buffer.
    pub fn clear_buf(&mut self)
        requires
            old(self).wf(),
        ensures
            final(self).wf(),
            final(self).buffered() == Seq::<u8>::empty(),
            final(self).consumed() == 0,
            final(self).state() == old(self).state(),
            final(self).healthy() == old(self).healthy(),
            final(self).input() == old(self).input(),
            final(self).output() == old(self).output(),
            final(self).preferences() == old(self).preferences(),
    {
        self.buffer.clear();
        self.consumed = 0;
        assert(self.out@.skip(self.out@.len() as int) =~= Seq::<u8>::empty());
    }

    proof fn lemma_split(&self)
        requires
            self.wf(),
        ensures
            self.handed_out() + self.pending() == self.output(),
            self.pending().len() <= self.output().len(),
    {
        let out = self.out@;
        let buf = self.buffer@;
        assert(self.pending() =~= out.skip(out.len() - buf.len() + self.consumed));
        assert(self.handed_out() + self.pending() =~= out);
    }

    /// Return the bytes of the buffer that have not been read out yet.
    pub fn pending_slice(&self) -> (r: &[u8])
        requires
            self.wf(),
        ensures
            r@ == self.pending(),
    {
        let (_, tail) = self.buffer.as_slice().split_at(self.consumed);
        assert(tail@ =~= self.pending());
        tail
    }

    /// Copy as many pending bytes as `dst` holds into its start; the buffer
    /// is drained once all of it has been read out.
    pub fn read_buf(&mut self, dst: &mut [u8]) -> (n: usize)
        requires
            old(self).wf(),
        ensures
            final(self).wf(),
            n == if old(dst)@.len() < old(self).pending().len() {
                old(dst)@.len()
            } else {
                old(self).pending().len()
            },
            final(dst)@.len() == old(dst)@.len(),
            final(dst)@.take(n as int) == old(self).pending().take(n as int),
            final(dst)@.skip(n as int) == old(dst)@.skip(n as int),
            final(self).pending() == old(self).pending().skip(n as int),
            final(self).handed_out() == old(self).handed_out() + old(self).pending().take(n as int),
            final(self).state() == old(self).state(),
            final(self).healthy() == old(self).healthy(),
            final(self).input() == old(self).input(),
            final(self).output() == old(self).output(),
            final(self).preferences() == old(self).preferences(),
    {
        proof {
            self.lemma_split();
        }
        let ghost p0 = self.pending();
        let ghost h0 = self.handed_out();
        let avail = self.buffer.len() - self.consumed;
        let n = if dst.len() < avail { dst.len() } else { avail };
        copy_into(dst, self.buffer.as_slice(), self.consumed, n);
        assert(self.buffer@.subrange(self.consumed as int, self.consumed + n) =~= p0.take(n as int));
        self.consumed = self.consumed + n;
        if self.consumed >= self.buffer.len() {
            self.buffer.clear();
            self.consumed = 0;
            assert(self.out@.skip(self.out@.len() as int) =~= Seq::<u8>::empty());
        }
        assert(self.pending() =~= p0.skip(n as int));
        proof {
            self.lemma_split();
            assert(h0 + p0 == self.output());
            assert(self.handed_out() + p0.skip(n as int) == self.output());
            assert(p0 =~= p0.take(n as int) + p0.skip(n as int));
            assert(self.handed_out() =~= h0 + p0.take(n as int));
        }
        n
    }

    /// Mark `amt` pending bytes as read out; the buffer is drained once all
    /// of it has been read out.
    pub fn consume(&mut self, amt: usize)
        requires
            old(self).wf(),
        ensures
            final(self).wf(),
            final(self).pending() == old(self).pending().skip(
                if amt < old(self).pending().len() { amt as int } else { old(self).pending().len() as int },
            ),
            final(self).handed_out() == old(self).handed_out() + old(self).pending().take(
                if amt < old(self).pending().len() { amt as int } else { old(self).pending().len() as int },
            ),
            final(self).state() == old(self).state(),
            final(self).healthy() == old(self).healthy(),
            final(self).input() == old(self).input(),
            final(self).output() == old(self).output(),
            final(self).preferences() == old(self).preferences(),
    {
        proof {
            self.lemma_split();
        }
        let ghost p0 = self.pending();
        let ghost h0 = self.handed_out();
        let avail = self.buffer.len() - self.consumed;
        let ghost k: int = if amt < avail { amt as int } else { avail as int };
        if amt >= avail {
            self.buffer.clear();
            self.consumed = 0;
            assert(self.out@.skip(self.out@.len() as int) =~= Seq::<u8>::empty());
        } else {
            self.consumed = self.consumed + amt;
        }
        assert(self.pending() =~= p0.skip(k));
        proof {
            self.lemma_split();
            assert(p0 =~= p0.take(k) + p0.skip(k));
            assert(self.handed_out() =~= h0 + p0.take(k));
        }
    }

    /// One read of a `BufRead`-based compressor: compress `input` (the next
    /// bytes of the device), or end the frame when the device has none left,
    /// then copy pending bytes into `dst`. A read of nothing into a
    /// non-empty `dst` comes only once the device had nothing left, the
    /// frame has ended and every byte has been read out.
    pub fn read_step(&mut self, input: &[u8], dst: &mut [u8]) -> (r: Result<usize>)
        requires
            old(self).wf(),
        ensures
            final(self).wf(),
            final(self).preferences() == old(self).preferences(),
            final(dst)@.len() == old(dst)@.len(),
            r matches Ok(n) ==> {
                &&& old(self).healthy() ==> final(self).healthy()
                &&& input@.len() > 0 ==> final(self).input() == old(self).input() + input@
                    && final(self).state() == State::Active
                &&& input@.len() == 0 ==> final(self).input() == old(self).input()
                    && final(self).state() == State::Finished
                &&& old(self).output().is_prefix_of(final(self).output())
                &&& n <= old(dst)@.len()
                &&& final(dst)@.take(n as int) == final(self).handed_out().skip(
                    final(self).handed_out().len() - n,
                )
                &&& final(dst)@.skip(n as int) == old(dst)@.skip(n as int)
                &&& old(self).handed_out().is_prefix_of(final(self).handed_out())
                &&& final(self).handed_out() == old(self).handed_out() + final(dst)@.take(n as int)
                &&& (n == 0 && old(dst)@.len() > 0) ==> {
                    &&& input@.len() == 0
                    &&& final(self).state() == State::Finished
                    &&& final(self).pending() == Seq::<u8>::empty()
                }
            },
            old(self).state() == State::Finished && input@.len() == 0 ==> (r matches Ok(n) && n == (
            if old(dst)@.len() < old(self).pending().len() {
                old(dst)@.len()
            } else {
                old(self).pending().len()
            })),
            old(self).state() == State::Finished && input@.len() > 0 ==> r == Err::<usize, Error>(
                Error::Lz4f(ErrorKind::Generic),
            ),
            old(self).healthy() && old(self).state() == State::Active && input@.len() > 0 ==> r is Ok,
            old(self).healthy() && old(self).state() == State::Created && input@.len() > 0 ==> r is Ok
                || r == Err::<usize, Error>(Error::Lz4f(ErrorKind::AllocationFailed)),
            old(self).healthy() && old(self).state() == State::Active && input@.len() == 0 ==> (r is Ok
                <==> content_size_matches(old(self).preferences(), old(self).input().len())),
            old(self).healthy() && old(self).state() == State::Created && input@.len() == 0 ==> r
                == Err::<usize, Error>(Error::Lz4f(ErrorKind::AllocationFailed)) || (r is Ok
                <==> content_size_matches(old(self).preferences(), 0)),
            r matches Err(e) ==> e is Lz4f,
    {
        let ghost o0 = self.output();
        let ghost h0 = self.handed_out();
        proof {
            self.lemma_split();
        }
        if input.len() == 0 {
            self.end(false)?;
        } else {
            self.update(input, false)?;
        }
        proof {
            self.lemma_split();
            assert(o0.is_prefix_of(self.output()));
            assert(h0.is_prefix_of(self.handed_out()));
        }
        let ghost h1 = self.handed_out();
        let ghost p1 = self.pending();
        let n = self.read_buf(dst);
        proof {
            assert(self.handed_out().skip(self.handed_out().len() - n) =~= p1.take(n as int));
            assert(h1.is_prefix_of(self.handed_out()));
        }
        Ok(n)
    }

    /// Return the preferences of the frame.
    pub fn prefs(&self) -> (r: &Preferences)
        ensures
            *r == self.preferences(),
    {
        &self.prefs
    }
}

/// Whatever the calls made, once a compressor that no call failed on has
/// ended its frame, all the bytes it produced (drained or not) form one
/// frame that decompresses, without error, to all the bytes it was given.
pub proof fn lemma_finished_output_decompresses(c: &Compressor)
    requires
        c.wf(),
        c.healthy(),
        c.state() == State::Finished,
    ensures
        lz4f_decode(c.output()) == (c.input(), true, None::<Seq<char>>),
{
}

/// The bytes a compressor handed out, followed by the bytes still pending,
/// are all the bytes it produced.
pub proof fn lemma_handed_out_then_pending(c: &Compressor)
    requires
        c.wf(),
    ensures
        c.handed_out() + c.pending() == c.output(),
{
    c.lemma_split();
}

/// Once a compressor that no call failed on has ended its frame and every
/// byte has been read out of it, the bytes it handed out are one frame that
/// decompresses, without error, to all the bytes it was given.
pub proof fn lemma_read_out_frame_decompresses(c: &Compressor)
    requires
        c.wf(),
        c.healthy(),
        c.state() == State::Finished,
        c.pending().len() == 0,
    ensures
        lz4f_decode(c.handed_out()) == (c.input(), true, None::<Seq<char>>),
{
    c.lemma_split();
    assert(c.handed_out() =~= c.output());
}

/// The bytes of `chunks`, one chunk after another.
pub open spec fn joined(chunks: Seq<Seq<u8>>) -> Seq<u8>
    decreases chunks.len(),
{
    if chunks.len() == 0 {
        Seq::empty()
    } else {
        joined(chunks.drop_last()) + chunks.last()
    }
}

/// A run of calls on a compressor, from a new compressor `cs[0]` through
/// the states `cs[1]`, `cs[2]`, ...: call `i` gave it the bytes
/// `inputs[i]` and handed out the bytes `outs[i]` (a read copied them out,
/// or a device accepted them and `consume` marked them; `update`, `flush`
/// and `end` hand out nothing). Then the bytes handed out, one call after
/// another, are all that the compressor handed out, in order, with no byte
/// repeated or skipped, and it was given the inputs one after another.
/// Once the frame has ended, no call failed and nothing is pending, the
/// bytes handed out are one frame that decompresses, without error, to all
/// the inputs.
pub proof fn lemma_hand_out_run(cs: Seq<Compressor>, inputs: Seq<Seq<u8>>, outs: Seq<Seq<u8>>)
    requires
        cs.len() == outs.len() + 1,
        inputs.len() == outs.len(),
        cs[0].input() == Seq::<u8>::empty(),
        cs[0].output() == Seq::<u8>::empty(),
        forall|i: int| 0 <= i < cs.len() ==> (#[trigger] cs[i]).wf(),
        forall|i: int|
            0 <= i < outs.len() ==> (#[trigger] cs[i + 1]).handed_out() == cs[i].handed_out()
                + outs[i] && cs[i + 1].input() == cs[i].input() + inputs[i],
    ensures
        cs.last().handed_out() == joined(outs),
        cs.last().input() == joined(inputs),
        cs.last().healthy() && cs.last().state() == State::Finished && cs.last().pending().len() == 0
            ==> lz4f_decode(joined(outs)) == (joined(inputs), true, None::<Seq<char>>),
    decreases outs.len(),
{
    if outs.len() == 0 {
        cs[0].lemma_split();
        assert(cs[0].handed_out() =~= Seq::<u8>::empty());
    } else {
        let k = outs.len() - 1;
        assert(cs[k + 1].wf());
        lemma_hand_out_run(cs.drop_last(), inputs.drop_last(), outs.drop_last());
        assert(cs.drop_last().last() == cs[k]);
        assert(cs.last() == cs[k + 1]);
        if cs.last().healthy() && cs.last().state() == State::Finished && cs.last().pending().len() == 0 {
            lemma_read_out_frame_decompresses(&cs.last());
        }
    }
}

} // verus!
