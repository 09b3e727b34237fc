//! The decisions of a streaming LZ4 frame decompressor: gathering the frame
//! header from the pieces of input, the header-only mode, the dictionary
//! rule and the buffer of decompressed bytes.

use vstd::prelude::*;
use crate::common::ErrorKind as CommonErrorKind;
use super::bound::{header_size, header_size_spec, LZ4F_HEADER_SIZE_MAX, LZ4F_MIN_SIZE_TO_KNOW_HEADER_LENGTH};
use super::error::{Error, ErrorKind, Result};
use super::frame_info::FrameInfo;
use super::queue::OutputQueue;
use super::bytes::{append_range, copy_bytes};

verus! {

/// The full size of the frame header that `h` starts, once its first bytes
/// are there: `None` while fewer than 5 bytes are there, else the header
/// size they give (or the error they give).
pub open spec fn header_target_spec(h: Seq<u8>) -> Option<Result<usize>> {
    if h.len() < LZ4F_MIN_SIZE_TO_KNOW_HEADER_LENGTH {
        None
    } else {
        Some(header_size_spec(h.take(LZ4F_MIN_SIZE_TO_KNOW_HEADER_LENGTH as int)))
    }
}

/// The header bytes gathered so far are a whole frame header.
pub open spec fn header_complete_spec(h: Seq<u8>) -> bool {
    header_target_spec(h) == Some(Ok::<usize, Error>(h.len() as usize))
}

/// What gathering header bytes from `src` gives when `h` was gathered
/// before: the bytes of `src` taken (as many as complete the header, or all
/// of them), or the error of a header that is not LZ4's.
pub open spec fn take_header_spec(h: Seq<u8>, src: Seq<u8>) -> Result<usize> {
    let joined = h + src;
    match header_target_spec(joined) {
        None => Ok(src.len() as usize),
        Some(Err(_)) => Err(Error::Common(CommonErrorKind::FrameHeaderInvalid)),
        Some(Ok(target)) => Ok(
            if src.len() < target - h.len() {
                src.len() as usize
            } else {
                (target - h.len()) as usize
            },
        ),
    }
}

proof fn lemma_header_size_prefix(h: Seq<u8>)
    requires
        h.len() >= LZ4F_MIN_SIZE_TO_KNOW_HEADER_LENGTH,
    ensures
        header_size_spec(h) == header_size_spec(h.take(LZ4F_MIN_SIZE_TO_KNOW_HEADER_LENGTH as int)),
{
    let t = h.take(LZ4F_MIN_SIZE_TO_KNOW_HEADER_LENGTH as int);
    assert(t[0] == h[0] && t[1] == h[1] && t[2] == h[2] && t[3] == h[3] && t[4] == h[4]);
}

proof fn lemma_header_size_range(h: Seq<u8>)
    ensures
        header_size_spec(h) matches Ok(n) ==> 7 <= n <= LZ4F_HEADER_SIZE_MAX,
{
}

/// Gathering a frame header does not depend on how its bytes are cut into
/// pieces: after a piece `a` was taken whole without completing the
/// header, taking `b` gives what taking `a + b` at once gives, less `a`.
pub proof fn lemma_take_header_in_pieces(h: Seq<u8>, a: Seq<u8>, b: Seq<u8>)
    requires
        (a + b).len() <= usize::MAX,
        take_header_spec(h, a) == Ok::<usize, Error>(a.len() as usize),
        !header_complete_spec(h + a),
        match header_target_spec(h) {
            Some(Ok(t)) => h.len() <= t,
            _ => true,
        },
    ensures
        match take_header_spec(h, a + b) {
            Ok(k) => a.len() <= k && take_header_spec(h + a, b) == Ok::<usize, Error>(
                (k - a.len()) as usize,
            ),
            Err(e) => take_header_spec(h + a, b) == Err::<usize, Error>(e),
        },
{
    let ha = h + a;
    assert((h + a) + b =~= h + (a + b));
    let all = h + (a + b);
    if all.len() >= LZ4F_MIN_SIZE_TO_KNOW_HEADER_LENGTH {
        lemma_header_size_range(all.take(5));
        if ha.len() >= LZ4F_MIN_SIZE_TO_KNOW_HEADER_LENGTH {
            assert(all.take(5) =~= ha.take(5));
            lemma_header_size_range(ha.take(5));
        }
    }
}

/// Whether `a` and `b` hold the same bytes.
fn bytes_equal(a: &[u8], b: &[u8]) -> (r: bool)
    ensures
        r == (a@ == b@),
{
    if a.len() != b.len() {
        return false;
    }
    let mut i: usize = 0;
    while i < a.len()
        invariant
            i <= a@.len(),
            a@.len() == b@.len(),
            a@.take(i as int) == b@.take(i as int),
        decreases a@.len() - i,
    {
        if a[i] != b[i] {
            assert(a@[i as int] != b@[i as int]);
            return false;
        }
        assert(a@.take(i + 1) == a@.take(i as int).push(a@[i as int]));
        assert(b@.take(i + 1) == b@.take(i as int).push(b@[i as int]));
        i = i + 1;
    }
    assert(a@ =~= a@.take(i as int));
    assert(b@ =~= b@.take(i as int));
    true
}

/// What a decompression step does with its input: how many bytes of it
/// went to the frame header, whether the header became whole (so its
/// parameters are to be decoded now), and whether frame body is decoded.
#[derive(Debug, Copy, Clone, PartialEq, Eq, Structural)]
pub struct DecompressStep {
    pub header_taken: usize,
    pub header_ready: bool,
    pub decode_body: bool,
}

/// The state that a streaming decompressor keeps besides liblz4's context.
pub struct Decompressor {
    header: Vec<u8>,
    frame_info: Option<FrameInfo>,
    dict: Vec<u8>,
    body_dict: Option<Vec<u8>>,
    header_only: bool,
    output: OutputQueue,
    capacity: usize,
}

impl Decompressor {
    /// The header bytes gathered so far stay within the header that their
    /// first bytes announce; a frame is decoded only after its header.
    pub closed spec fn wf(&self) -> bool {
        &&& self.header@.len() <= LZ4F_HEADER_SIZE_MAX
        &&& match header_target_spec(self.header@) {
            Some(Ok(target)) => self.header@.len() <= target,
            Some(Err(_)) => self.frame_info is None && self.header@.len()
                == LZ4F_MIN_SIZE_TO_KNOW_HEADER_LENGTH,
            None => true,
        }
        &&& self.frame_info is Some ==> header_complete_spec(self.header@)
        &&& self.body_dict is Some ==> self.frame_info is Some
    }

    /// The frame header bytes gathered so far.
    pub closed spec fn header_spec(&self) -> Seq<u8> {
        self.header@
    }

    /// The parameters of the frame, once its header has been decoded.
    pub closed spec fn frame_info_spec(&self) -> Option<FrameInfo> {
        self.frame_info
    }

    /// The dictionary that decompression uses.
    pub closed spec fn dict_spec(&self) -> Seq<u8> {
        self.dict@
    }

    /// Whether only the frame header is decoded.
    pub closed spec fn header_only_spec(&self) -> bool {
        self.header_only
    }

    /// The dictionary that the body of the frame began to be decoded with,
    /// once it has begun.
    pub closed spec fn body_dict_spec(&self) -> Option<Seq<u8>> {
        match self.body_dict {
            Some(d) => Some(d@),
            None => None,
        }
    }

    /// Whether the dictionary set now is the one the body began with (or the
    /// body has not begun).
    pub open spec fn dict_unchanged_spec(&self) -> bool {
        match self.body_dict_spec() {
            Some(d) => d == self.dict_spec(),
            None => true,
        }
    }

    /// Whether the body of the frame has begun to be decoded.
    pub open spec fn in_body_spec(&self) -> bool {
        self.body_dict_spec() is Some
    }

    /// The decompressed bytes that have not been handed out yet.
    pub closed spec fn pending(&self) -> Seq<u8> {
        self.output.pending()
    }

    /// The decompressed bytes in the buffer.
    pub closed spec fn buffered(&self) -> Seq<u8> {
        self.output.bytes()
    }

    /// The capacity that each decompression step may fill.
    pub closed spec fn capacity_spec(&self) -> usize {
        self.capacity
    }

    /// Create the state of a decompressor whose buffer grows by `capacity`
    /// bytes at a time.
    pub fn new(capacity: usize) -> (r: Decompressor)
        ensures
            r.wf(),
            r.header_spec() == Seq::<u8>::empty(),
            r.frame_info_spec() is None,
            r.dict_spec() == Seq::<u8>::empty(),
            !r.header_only_spec(),
            !r.in_body_spec(),
            r.buffered() == Seq::<u8>::empty(),
            r.capacity_spec() == capacity,
    {
        Decompressor {
            header: Vec::new(),
            frame_info: None,
            dict: Vec::new(),
            body_dict: None,
            header_only: false,
            output: OutputQueue::new(),
            capacity,
        }
    }

    /// Return the capacity that each decompression step may fill.
    pub fn capacity(&self) -> (r: usize)
        ensures
            r == self.capacity_spec(),
    {
        self.capacity
    }

    /// Set the dictionary. Setting one after the body of the frame has begun
    /// makes the next decompression step fail.
    pub fn set_dict(&mut self, dict: &[u8])
        requires
            old(self).wf(),
        ensures
            final(self).wf(),
            final(self).dict_spec() == dict@,
            final(self).header_spec() == old(self).header_spec(),
            final(self).frame_info_spec() == old(self).frame_info_spec(),
            final(self).header_only_spec() == old(self).header_only_spec(),
            final(self).body_dict_spec() == old(self).body_dict_spec(),
            final(self).pending() == old(self).pending(),
            final(self).buffered() == old(self).buffered(),
            final(self).capacity_spec() == old(self).capacity_spec(),
    {
        self.dict = copy_bytes(dict);
    }

    /// Return the dictionary that decompression uses.
    pub fn dict(&self) -> (r: &[u8])
        ensures
            r@ == self.dict_spec(),
    {
        self.dict.as_slice()
    }

    /// Return the parameters of the frame if its header has been decoded.
    pub fn frame_info(&self) -> (r: Option<FrameInfo>)
        ensures
            r == self.frame_info_spec(),
    {
        self.frame_info
    }

    /// Set the header-only mode: the body of the frame is left undecoded.
    pub fn decode_header_only(&mut self, flag: bool)
        requires
            old(self).wf(),
        ensures
            final(self).wf(),
            final(self).header_only_spec() == flag,
            final(self).header_spec() == old(self).header_spec(),
            final(self).frame_info_spec() == old(self).frame_info_spec(),
            final(self).dict_spec() == old(self).dict_spec(),
            final(self).in_body_spec() == old(self).in_body_spec(),
            final(self).dict_unchanged_spec() == old(self).dict_unchanged_spec(),
            final(self).pending() == old(self).pending(),
            final(self).buffered() == old(self).buffered(),
            final(self).capacity_spec() == old(self).capacity_spec(),
    {
        self.header_only = flag;
    }

    /// Return whether only the frame header is decoded.
    pub fn is_header_only(&self) -> (r: bool)
        ensures
            r == self.header_only_spec(),
    {
        self.header_only
    }

    /// Gather frame header bytes from the start of `src`: first the bytes
    /// that tell the header's size, then the rest of the header. Returns how
    /// many bytes of `src` were taken.
    pub fn take_header(&mut self, src: &[u8]) -> (r: Result<usize>)
        requires
            old(self).wf(),
            old(self).frame_info_spec() is None,
            !header_complete_spec(old(self).header_spec()),
        ensures
            final(self).wf(),
            r == take_header_spec(old(self).header_spec(), src@),
            r matches Ok(k) ==> final(self).header_spec() == old(self).header_spec() + src@.take(k as int),
            r is Err ==> final(self).header_spec() == (old(self).header_spec() + src@).take(
                LZ4F_MIN_SIZE_TO_KNOW_HEADER_LENGTH as int,
            ),
            final(self).frame_info_spec() is None,
            final(self).dict_spec() == old(self).dict_spec(),
            final(self).header_only_spec() == old(self).header_only_spec(),
            final(self).in_body_spec() == old(self).in_body_spec(),
            final(self).pending() == old(self).pending(),
            final(self).buffered() == old(self).buffered(),
            final(self).capacity_spec() == old(self).capacity_spec(),
    {
        let ghost h0 = self.header@;
        let ghost joined = h0 + src@;
        let mut taken: usize = 0;
        if self.header.len() < LZ4F_MIN_SIZE_TO_KNOW_HEADER_LENGTH {
            let want = LZ4F_MIN_SIZE_TO_KNOW_HEADER_LENGTH - self.header.len();
            let k = if src.len() < want { src.len() } else { want };
            append_range(&mut self.header, src, 0, k);
            taken = k;
            assert(src@.subrange(0, k as int) =~= src@.take(k as int));
        }
        assert(self.header@ == h0 + src@.take(taken as int));
        if self.header.len() >= LZ4F_MIN_SIZE_TO_KNOW_HEADER_LENGTH {
            proof {
                lemma_header_size_prefix(self.header@);
                assert(self.header@.take(5) =~= joined.take(5));
            }
            let exact = match header_size(self.header.as_slice()) {
                Ok(n) => n,
                Err(_) => {
                    proof {
                        lemma_header_size_prefix(h0 + src@.take(taken as int));
                    }
                    return Err(Error::common(CommonErrorKind::FrameHeaderInvalid));
                },
            };
            if self.header.len() < exact {
                let want = exact - self.header.len();
                let rest = src.len() - taken;
                let k = if rest < want { rest } else { want };
                append_range(&mut self.header, src, taken, k);
                assert(src@.take(taken as int) + src@.subrange(taken as int, taken + k) =~= src@.take(taken + k));
                taken = taken + k;
            }
            proof {
                assert(self.header@.take(5) =~= joined.take(5));
                lemma_header_size_prefix(self.header@);
            }
        } else {
            proof {
                assert(joined.len() < 5);
            }
        }
        Ok(taken)
    }

    /// Begin a decompression step on `src`: while the frame header is not
    /// whole, its bytes are taken from the start of `src`, and input that
    /// ends there (an empty `src`) is `FrameHeaderIncomplete`; the body is
    /// decoded unless only the header is wanted or it is not whole yet.
    pub fn begin_step(&mut self, src: &[u8]) -> (r: Result<DecompressStep>)
        requires
            old(self).wf(),
        ensures
            final(self).wf(),
            old(self).frame_info_spec() is Some || header_complete_spec(old(self).header_spec()) ==> {
                &&& r == Ok::<DecompressStep, Error>(
                    DecompressStep {
                        header_taken: 0,
                        header_ready: old(self).frame_info_spec() is None,
                        decode_body: !old(self).header_only_spec() && old(self).frame_info_spec() is Some,
                    },
                )
                &&& final(self).header_spec() == old(self).header_spec()
            },
            old(self).header_only_spec() && old(self).frame_info_spec() is Some ==> r == Ok::<
                DecompressStep,
                Error,
            >(DecompressStep { header_taken: 0, header_ready: false, decode_body: false }),
            old(self).frame_info_spec() is None && !header_complete_spec(old(self).header_spec())
                && src@.len() == 0 ==> {
                &&& r == Err::<DecompressStep, Error>(Error::Lz4f(ErrorKind::FrameHeaderIncomplete))
                &&& final(self).header_spec() == old(self).header_spec()
            },
            old(self).frame_info_spec() is None && !header_complete_spec(old(self).header_spec())
                && src@.len() > 0 ==> {
                &&& r is Err <==> take_header_spec(old(self).header_spec(), src@) is Err
                &&& r matches Err(e) ==> take_header_spec(old(self).header_spec(), src@) == Err::<usize, Error>(e)
                &&& r is Err ==> final(self).header_spec() == (old(self).header_spec() + src@).take(
                    LZ4F_MIN_SIZE_TO_KNOW_HEADER_LENGTH as int,
                )
                &&& r matches Ok(step) ==> {
                    &&& Ok::<usize, Error>(step.header_taken) == take_header_spec(old(self).header_spec(), src@)
                    &&& final(self).header_spec() == old(self).header_spec() + src@.take(step.header_taken as int)
                    &&& step.header_ready == header_complete_spec(final(self).header_spec())
                    &&& !step.decode_body
                }
            },
            final(self).frame_info_spec() == old(self).frame_info_spec(),
            final(self).dict_spec() == old(self).dict_spec(),
            final(self).header_only_spec() == old(self).header_only_spec(),
            final(self).body_dict_spec() == old(self).body_dict_spec(),
            final(self).pending() == old(self).pending(),
            final(self).buffered() == old(self).buffered(),
            final(self).capacity_spec() == old(self).capacity_spec(),
    {
        if self.frame_info.is_some() {
            return Ok(DecompressStep { header_taken: 0, header_ready: false, decode_body: !self.header_only });
        }
        if self.header_complete() {
            return Ok(DecompressStep { header_taken: 0, header_ready: true, decode_body: false });
        }
        if src.len() == 0 {
            return Err(Error::new(ErrorKind::FrameHeaderIncomplete));
        }
        let taken = self.take_header(src)?;
        let ready = self.header_complete();
        Ok(DecompressStep { header_taken: taken, header_ready: ready, decode_body: false })
    }

    /// Whether the header bytes gathered so far are a whole frame header.
    pub fn header_complete(&self) -> (r: bool)
        requires
            self.wf(),
        ensures
            r == header_complete_spec(self.header_spec()),
    {
        if self.header.len() < LZ4F_MIN_SIZE_TO_KNOW_HEADER_LENGTH {
            return false;
        }
        proof {
            lemma_header_size_prefix(self.header@);
        }
        match header_size(self.header.as_slice()) {
            Ok(n) => n == self.header.len(),
            Err(_) => false,
        }
    }

    /// Return the frame header bytes gathered so far.
    pub fn header_bytes(&self) -> (r: &[u8])
        ensures
            r@ == self.header_spec(),
    {
        self.header.as_slice()
    }

    /// Record the parameters that liblz4 decoded from the whole header; the
    /// parameters of a frame, once recorded, are kept.
    pub fn set_frame_info(&mut self, info: FrameInfo)
        requires
            old(self).wf(),
            header_complete_spec(old(self).header_spec()),
        ensures
            final(self).wf(),
            final(self).frame_info_spec() == match old(self).frame_info_spec() {
                Some(kept) => Some(kept),
                None => Some(info),
            },
            final(self).header_spec() == old(self).header_spec(),
            final(self).dict_spec() == old(self).dict_spec(),
            final(self).header_only_spec() == old(self).header_only_spec(),
            final(self).in_body_spec() == old(self).in_body_spec(),
            final(self).dict_unchanged_spec() == old(self).dict_unchanged_spec(),
            final(self).pending() == old(self).pending(),
            final(self).buffered() == old(self).buffered(),
            final(self).capacity_spec() == old(self).capacity_spec(),
    {
        if self.frame_info.is_none() {
            self.frame_info = Some(info);
        }
    }

    /// Whether the next step decodes frame body: the header is decoded and
    /// the header-only mode is off.
    pub fn wants_body(&self) -> (r: bool)
        ensures
            r == (self.frame_info_spec() is Some && !self.header_only_spec()),
    {
        self.frame_info.is_some() && !self.header_only
    }

    /// Begin (or go on with) decoding the frame body: the dictionary must be
    /// the one that the body began with.
    pub fn enter_body(&mut self) -> (r: Result<()>)
        requires
            old(self).wf(),
            old(self).frame_info_spec() is Some,
        ensures
            final(self).wf(),
            r is Ok <==> old(self).dict_unchanged_spec(),
            r is Err ==> r == Err::<(), Error>(
                Error::Common(CommonErrorKind::DictionaryChangedDuringDecompression),
            ),
            final(self).in_body_spec(),
            r is Ok ==> final(self).dict_unchanged_spec(),
            final(self).header_spec() == old(self).header_spec(),
            final(self).frame_info_spec() == old(self).frame_info_spec(),
            final(self).dict_spec() == old(self).dict_spec(),
            final(self).header_only_spec() == old(self).header_only_spec(),
            final(self).pending() == old(self).pending(),
            final(self).buffered() == old(self).buffered(),
            final(self).capacity_spec() == old(self).capacity_spec(),
    {
        match &self.body_dict {
            Some(d) => {
                if !bytes_equal(d.as_slice(), self.dict.as_slice()) {
                    return Err(Error::common(CommonErrorKind::DictionaryChangedDuringDecompression));
                }
                Ok(())
            },
            None => {
                self.body_dict = Some(copy_bytes(self.dict.as_slice()));
                Ok(())
            },
        }
    }

    /// Append decompressed bytes to the buffer.
    pub fn append_output(&mut self, bytes: &[u8])
        requires
            old(self).wf(),
        ensures
            final(self).wf(),
            final(self).buffered() == old(self).buffered() + bytes@,
            final(self).pending() == old(self).pending() + bytes@,
            final(self).header_spec() == old(self).header_spec(),
            final(self).frame_info_spec() == old(self).frame_info_spec(),
            final(self).dict_spec() == old(self).dict_spec(),
            final(self).header_only_spec() == old(self).header_only_spec(),
            final(self).in_body_spec() == old(self).in_body_spec(),
            final(self).dict_unchanged_spec() == old(self).dict_unchanged_spec(),
            final(self).capacity_spec() == old(self).capacity_spec(),
    {
        let ghost p0 = self.output.pending();
        self.output.extend(bytes);
        assert(self.output.pending() =~= p0 + bytes@);
    }

    /// Return the decompressed bytes in the buffer.
    pub fn buf(&self) -> (r: &[u8])
        ensures
            r@ == self.buffered(),
    {
        self.output.as_slice()
    }

    /// Return the decompressed bytes not handed out yet.
    pub fn pending_slice(&self) -> (r: &[u8])
        requires
            self.wf(),
        ensures
            r@ == self.pending(),
    {
        self.output.pending_slice()
    }

    /// Empty the buffer of decompressed bytes.
    pub fn clear_buf(&mut self)
        requires
            old(self).wf(),
        ensures
            final(self).wf(),
            final(self).buffered() == Seq::<u8>::empty(),
            final(self).pending() == Seq::<u8>::empty(),
            final(self).header_spec() == old(self).header_spec(),
            final(self).frame_info_spec() == old(self).frame_info_spec(),
            final(self).dict_spec() == old(self).dict_spec(),
            final(self).header_only_spec() == old(self).header_only_spec(),
            final(self).in_body_spec() == old(self).in_body_spec(),
            final(self).dict_unchanged_spec() == old(self).dict_unchanged_spec(),
            final(self).capacity_spec() == old(self).capacity_spec(),
    {
        self.output.clear();
    }

    /// Copy as many decompressed bytes as `dst` holds into its start.
    pub fn read_buf(&mut self, dst: &mut [u8]) -> (n: usize)
        requires
            old(self).wf(),
        ensures
            final(self).wf(),
            n == if old(dst)@.len() < old(self).pending().len() {
                old(dst)@.len()
            } else {
                old(self).pending().len()
            },
            final(dst)@.len() == old(dst)@.len(),
            final(dst)@.take(n as int) == old(self).pending().take(n as int),
            final(dst)@.skip(n as int) == old(dst)@.skip(n as int),
            final(self).pending() == old(self).pending().skip(n as int),
            final(self).header_spec() == old(self).header_spec(),
            final(self).frame_info_spec() == old(self).frame_info_spec(),
            final(self).dict_spec() == old(self).dict_spec(),
            final(self).header_only_spec() == old(self).header_only_spec(),
            final(self).in_body_spec() == old(self).in_body_spec(),
            final(self).dict_unchanged_spec() == old(self).dict_unchanged_spec(),
            final(self).capacity_spec() == old(self).capacity_spec(),
    {
        self.output.read_buf(dst)
    }

    /// Mark `amt` decompressed bytes as handed out.
    pub fn consume(&mut self, amt: usize)
        requires
            old(self).wf(),
        ensures
            final(self).wf(),
            final(self).pending() == old(self).pending().skip(
                if amt < old(self).pending().len() { amt as int } else { old(self).pending().len() as int },
            ),
            final(self).header_spec() == old(self).header_spec(),
            final(self).frame_info_spec() == old(self).frame_info_spec(),
            final(self).dict_spec() == old(self).dict_spec(),
            final(self).header_only_spec() == old(self).header_only_spec(),
            final(self).in_body_spec() == old(self).in_body_spec(),
            final(self).dict_unchanged_spec() == old(self).dict_unchanged_spec(),
            final(self).capacity_spec() == old(self).capacity_spec(),
    {
        self.output.consume(amt);
    }
}

/// The parameters of a frame are known only once its whole header has been
/// gathered.
pub proof fn lemma_frame_info_after_whole_header(d: &Decompressor)
    requires
        d.wf(),
    ensures
        d.frame_info_spec() is Some ==> header_complete_spec(d.header_spec()),
{
}

} // verus!
