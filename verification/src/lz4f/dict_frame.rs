//! The decisions of a streaming compressor whose compression calls (with a
//! dictionary loaded into liblz4) are made by the caller: which of liblz4's
//! begin, update, flush and end calls a request is made of, the room each
//! call gets, and what its returned value means for the output.

use vstd::prelude::*;
use super::bound::{compress_bound, compress_bound_spec, lemma_bounds_fit, LZ4F_HEADER_SIZE_MAX};
use super::compressor::State;
use super::error::{result_from_code, result_from_code_spec, Error, ErrorKind, Result};
use super::preferences::Preferences;
use super::queue::OutputQueue;
use super::writer::WriterRequest;

verus! {

/// The liblz4 calls a request is made of: the frame's begin first (when
/// the frame has not begun), then the call of the request itself (update,
/// flush or end), unless there is nothing left for it to do.
#[derive(Debug, Copy, Clone, PartialEq, Eq, Structural)]
pub struct DictPlan {
    pub begin: bool,
    pub call: bool,
}

/// How a request is carried out in a state: the calls to make and the
/// state after them, or the error of a write after the frame's end.
pub open spec fn dict_plan_spec(state: State, req: WriterRequest) -> Result<(DictPlan, State)> {
    if req == WriterRequest::Write && state == State::Finished {
        Err(Error::Lz4f(ErrorKind::Generic))
    } else {
        let plan = DictPlan {
            begin: state == State::Created,
            call: req == WriterRequest::Write || state != State::Finished,
        };
        let next = if req == WriterRequest::Close && state != State::Finished {
            State::Finished
        } else if state == State::Created {
            State::Active
        } else {
            state
        };
        Ok((plan, next))
    }
}

/// What a value that liblz4 returned after writing into a room of
/// `room` bytes means: the number of bytes it wrote, or its error (a count
/// larger than the room is taken as a generic error).
pub open spec fn settle_spec(code: usize, room: nat) -> Result<usize> {
    match result_from_code_spec(code) {
        Ok(written) => if written <= room {
            Ok(written)
        } else {
            Err(Error::Lz4f(ErrorKind::Generic))
        },
        Err(e) => Err(e),
    }
}

/// The state of a streaming compressor whose liblz4 calls are made by the
/// caller: where the frame is, the room the next call writes into, and the
/// compressed bytes produced so far.
pub struct DictFrameState {
    state: State,
    room: Vec<u8>,
    out: OutputQueue,
}

impl DictFrameState {
    /// Where the compressor is in its frame.
    pub closed spec fn state_spec(&self) -> State {
        self.state
    }

    /// The room that the next liblz4 call writes into.
    pub closed spec fn room_spec(&self) -> Seq<u8> {
        self.room@
    }

    /// The produced bytes in the buffer.
    pub closed spec fn buffered(&self) -> Seq<u8> {
        self.out.bytes()
    }

    /// The produced bytes not read out yet.
    pub closed spec fn pending(&self) -> Seq<u8> {
        self.out.pending()
    }

    /// A compressor whose frame has not begun.
    pub fn new() -> (r: DictFrameState)
        ensures
            r.state_spec() == State::Created,
            r.room_spec() == Seq::<u8>::empty(),
            r.buffered() == Seq::<u8>::empty(),
    {
        DictFrameState { state: State::Created, room: Vec::new(), out: OutputQueue::new() }
    }

    /// Return where the compressor is in its frame.
    pub fn state(&self) -> (r: State)
        ensures
            r == self.state_spec(),
    {
        self.state
    }

    /// Decide the liblz4 calls of a request, and enter the state after them.
    pub fn plan(&mut self, req: WriterRequest) -> (r: Result<DictPlan>)
        ensures
            match dict_plan_spec(old(self).state_spec(), req) {
                Ok((plan, next)) => r == Ok::<DictPlan, Error>(plan) && final(self).state_spec() == next,
                Err(e) => r == Err::<DictPlan, Error>(e) && final(self).state_spec() == old(
                    self,
                ).state_spec(),
            },
            final(self).room_spec() == old(self).room_spec(),
            final(self).buffered() == old(self).buffered(),
            final(self).pending() == old(self).pending(),
    {
        if req == WriterRequest::Write && self.state == State::Finished {
            return Err(Error::new(ErrorKind::Generic));
        }
        let plan = DictPlan {
            begin: self.state == State::Created,
            call: req == WriterRequest::Write || self.state != State::Finished,
        };
        if req == WriterRequest::Close && self.state != State::Finished {
            self.state = State::Finished;
        } else if self.state == State::Created {
            self.state = State::Active;
        }
        Ok(plan)
    }

    /// The request that one read of a `BufRead`-based compressor makes: the
    /// end of the frame when the device has nothing left, else a write.
    pub fn read_request(input_len: usize) -> (r: WriterRequest)
        ensures
            r == if input_len == 0 {
                WriterRequest::Close
            } else {
                WriterRequest::Write
            },
    {
        if input_len == 0 {
            WriterRequest::Close
        } else {
            WriterRequest::Write
        }
    }

    /// Make the room for a call that takes `src_size` bytes of input (0 for
    /// a begin, flush or end): what liblz4 may write for them with `prefs`,
    /// and the largest frame header. Returns the room's size.
    pub fn reserve(&mut self, src_size: usize, prefs: &Preferences) -> (r: usize)
        requires
            src_size <= isize::MAX,
        ensures
            r == compress_bound_spec(src_size as nat, *prefs) + LZ4F_HEADER_SIZE_MAX,
            final(self).room_spec().len() == r,
            final(self).state_spec() == old(self).state_spec(),
            final(self).buffered() == old(self).buffered(),
            final(self).pending() == old(self).pending(),
    {
        proof {
            lemma_bounds_fit(src_size as nat, *prefs);
        }
        let len = compress_bound(src_size, prefs) + LZ4F_HEADER_SIZE_MAX;
        self.room = vec![0u8; len];
        len
    }

    /// Return the room, for liblz4 to write into.
    pub fn room_mut(&mut self) -> (r: &mut [u8])
        ensures
            r@ == old(self).room_spec(),
            final(self).room_spec() == final(r)@,
            final(self).state_spec() == old(self).state_spec(),
            final(self).buffered() == old(self).buffered(),
            final(self).pending() == old(self).pending(),
    {
        self.room.as_mut_slice()
    }

    /// Take the value that liblz4 returned after writing into the room:
    /// the bytes it wrote are appended to the output.
    pub fn settle(&mut self, code: usize) -> (r: Result<usize>)
        ensures
            r == settle_spec(code, old(self).room_spec().len()),
            r matches Ok(w) ==> {
                &&& final(self).buffered() == old(self).buffered() + old(self).room_spec().take(w as int)
                &&& final(self).pending() == old(self).pending() + old(self).room_spec().take(w as int)
            },
            r is Err ==> final(self).buffered() == old(self).buffered() && final(self).pending()
                == old(self).pending(),
            final(self).state_spec() == old(self).state_spec(),
    {
        let written = result_from_code(code)?;
        if written > self.room.len() {
            return Err(Error::new(ErrorKind::Generic));
        }
        let (head, _) = self.room.as_slice().split_at(written);
        assert(head@ =~= self.room@.take(written as int));
        self.out.extend(head);
        Ok(written)
    }

    /// Return the produced bytes in the buffer.
    pub fn buf(&self) -> (r: &[u8])
        ensures
            r@ == self.buffered(),
    {
        self.out.as_slice()
    }

    /// Return the produced bytes not read out yet.
    pub fn pending_slice(&self) -> (r: &[u8])
        ensures
            r@ == self.pending(),
    {
        self.out.pending_slice()
    }

    /// Empty the buffer.
    pub fn clear_buf(&mut self)
        ensures
            final(self).buffered() == Seq::<u8>::empty(),
            final(self).pending() == Seq::<u8>::empty(),
            final(self).state_spec() == old(self).state_spec(),
            final(self).room_spec() == old(self).room_spec(),
    {
        self.out.clear();
    }

    /// Copy as many pending bytes as `dst` holds into its start.
    pub fn read_buf(&mut self, dst: &mut [u8]) -> (n: usize)
        ensures
            n == if old(dst)@.len() < old(self).pending().len() {
                old(dst)@.len()
            } else {
                old(self).pending().len()
            },
            final(dst)@.len() == old(dst)@.len(),
            final(dst)@.take(n as int) == old(self).pending().take(n as int),
            final(dst)@.skip(n as int) == old(dst)@.skip(n as int),
            final(self).pending() == old(self).pending().skip(n as int),
            final(self).state_spec() == old(self).state_spec(),
            final(self).room_spec() == old(self).room_spec(),
    {
        self.out.read_buf(dst)
    }

    /// Mark `amt` pending bytes as read out.
    pub fn consume(&mut self, amt: usize)
        ensures
            final(self).pending() == old(self).pending().skip(
                if amt < old(self).pending().len() { amt as int } else { old(self).pending().len() as int },
            ),
            final(self).state_spec() == old(self).state_spec(),
            final(self).room_spec() == old(self).room_spec(),
    {
        self.out.consume(amt);
    }
}

/// What liblz4 is asked to do for each request. While the frame has not
/// finished, every request makes its own call (a write `LZ4F_compressUpdate`,
/// a flush `LZ4F_flush`, a close `LZ4F_compressEnd`), preceded by the
/// frame's begin exactly when the frame has not begun; a close leaves the
/// frame finished and any other request leaves it begun. Once the frame has
/// finished, a write is refused with the state kept, and a flush or close
/// makes no call at all and keeps the frame finished.
pub proof fn lemma_dict_plan_calls(state: State, req: WriterRequest)
    ensures
        state != State::Finished ==> dict_plan_spec(state, req) == Ok::<(DictPlan, State), Error>(
            (
                DictPlan { begin: state == State::Created, call: true },
                if req == WriterRequest::Close {
                    State::Finished
                } else {
                    State::Active
                },
            ),
        ),
        state == State::Finished && req == WriterRequest::Write ==> dict_plan_spec(state, req) is Err,
        state == State::Finished && req != WriterRequest::Write ==> dict_plan_spec(state, req) == Ok::<
            (DictPlan, State),
            Error,
        >((DictPlan { begin: false, call: false }, State::Finished)),
{
}

/// Two requests in a row from a new frame: the frame is begun by the first
/// of them only, and a flush or close made after a write still reaches
/// liblz4 (`LZ4F_flush`, `LZ4F_compressEnd`), so the end of the frame is
/// written.
pub proof fn lemma_dict_plan_after_write(second: WriterRequest)
    ensures
        ({
            let first = dict_plan_spec(State::Created, WriterRequest::Write);
            &&& first matches Ok((p1, s1)) && p1.begin && p1.call && s1 == State::Active
            &&& dict_plan_spec(State::Active, second) matches Ok((p2, s2)) && !p2.begin && p2.call
                && (second == WriterRequest::Close ==> s2 == State::Finished)
        }),
{
}

} // verus!
