//! The decisions of the asynchronous writing compressor and decompressor:
//! which calls of the device a write, flush or close is made of, and in
//! which order. The caller performs each step on the device and reports
//! when it has completed.

use vstd::prelude::*;

verus! {

/// What a writer is in the middle of.
#[derive(Debug, Copy, Clone, PartialEq, Eq, Structural)]
pub enum WriterState {
    /// Nothing: a new request can start.
    Idle,
    /// Writing the output of a write of so many input bytes.
    Write(usize),
    /// Writing the output of a flush, then flushing the device.
    WriteThenFlush,
    /// Flushing the device.
    Flush,
    /// Writing the end of the frame, then flushing and closing the device.
    WriteThenClose,
    /// Flushing the device, then closing it.
    FlushThenClose,
    /// Closing the device.
    Close,
    /// The device is closed.
    Shutdown,
}

/// A request made of a writer.
#[derive(Debug, Copy, Clone, PartialEq, Eq, Structural)]
pub enum WriterRequest {
    Write,
    Flush,
    Close,
}

/// How a writer takes a request in its present state.
#[derive(Debug, Copy, Clone, PartialEq, Eq, Structural)]
pub enum RequestDecision {
    /// The writer is idle: the request starts (the caller compresses or
    /// decompresses, then enters the state that `WriterState::started` gives).
    Start,
    /// The writer is already carrying out this request: it goes on.
    Resume,
    /// The writer is carrying out another request that must be polled to
    /// completion first.
    Invalid,
}

/// The next call of the device in a state.
#[derive(Debug, Copy, Clone, PartialEq, Eq, Structural)]
pub enum WriterStep {
    /// Write all of the pending output to the device.
    WriteAll,
    /// Flush the device.
    FlushDevice,
    /// Close the device.
    CloseDevice,
    /// The request is done, with this many input bytes taken.
    Finished(usize),
}

impl WriterState {
    /// How a request is taken in this state.
    pub open spec fn decide_spec(self, req: WriterRequest) -> RequestDecision {
        if self == WriterState::Idle {
            RequestDecision::Start
        } else {
            match req {
                WriterRequest::Write => match self {
                    WriterState::Write(_) | WriterState::Shutdown => RequestDecision::Resume,
                    _ => RequestDecision::Invalid,
                },
                WriterRequest::Flush => match self {
                    WriterState::WriteThenFlush | WriterState::Flush | WriterState::Shutdown =>
                        RequestDecision::Resume,
                    _ => RequestDecision::Invalid,
                },
                WriterRequest::Close => match self {
                    WriterState::WriteThenClose | WriterState::FlushThenClose | WriterState::Close
                    | WriterState::Shutdown => RequestDecision::Resume,
                    _ => RequestDecision::Invalid,
                },
            }
        }
    }

    /// The state a started request enters: a write of `size` input bytes
    /// writes its output; a flush or close of a compressor first writes what
    /// the compressor produced for it (`writes_first`), a decompressor's
    /// goes to the device at once.
    pub open spec fn started_spec(req: WriterRequest, size: usize, writes_first: bool) -> WriterState {
        match req {
            WriterRequest::Write => WriterState::Write(size),
            WriterRequest::Flush => if writes_first {
                WriterState::WriteThenFlush
            } else {
                WriterState::Flush
            },
            WriterRequest::Close => if writes_first {
                WriterState::WriteThenClose
            } else {
                WriterState::Close
            },
        }
    }

    /// The next call of the device in this state.
    pub open spec fn step_spec(self) -> WriterStep {
        match self {
            WriterState::Write(_) | WriterState::WriteThenFlush | WriterState::WriteThenClose =>
                WriterStep::WriteAll,
            WriterState::Flush | WriterState::FlushThenClose => WriterStep::FlushDevice,
            WriterState::Close => WriterStep::CloseDevice,
            WriterState::Idle | WriterState::Shutdown => WriterStep::Finished(0),
        }
    }

    /// The state once the call of `step_spec` has completed, and the number
    /// of input bytes to report if the request is done with it.
    pub open spec fn completed_spec(self) -> (WriterState, Option<usize>) {
        match self {
            WriterState::Write(size) => (WriterState::Idle, Some(size)),
            WriterState::WriteThenFlush => (WriterState::Flush, None),
            WriterState::Flush => (WriterState::Idle, None),
            WriterState::WriteThenClose => (WriterState::FlushThenClose, None),
            WriterState::FlushThenClose => (WriterState::Close, None),
            WriterState::Close => (WriterState::Shutdown, None),
            WriterState::Idle | WriterState::Shutdown => (self, Some(0)),
        }
    }

    /// How many device calls are left before the request in hand is done.
    pub open spec fn remaining_steps(self) -> nat {
        match self {
            WriterState::Write(_) => 1,
            WriterState::WriteThenFlush => 2,
            WriterState::Flush => 1,
            WriterState::WriteThenClose => 3,
            WriterState::FlushThenClose => 2,
            WriterState::Close => 1,
            WriterState::Idle | WriterState::Shutdown => 0,
        }
    }

    /// Return how a request is taken in this state.
    pub fn decide(&self, req: WriterRequest) -> (r: RequestDecision)
        ensures
            r == self.decide_spec(req),
    {
        match self {
            WriterState::Idle => RequestDecision::Start,
            WriterState::Shutdown => RequestDecision::Resume,
            WriterState::Write(_) => match req {
                WriterRequest::Write => RequestDecision::Resume,
                _ => RequestDecision::Invalid,
            },
            WriterState::WriteThenFlush | WriterState::Flush => match req {
                WriterRequest::Flush => RequestDecision::Resume,
                _ => RequestDecision::Invalid,
            },
            WriterState::WriteThenClose | WriterState::FlushThenClose | WriterState::Close => match req {
                WriterRequest::Close => RequestDecision::Resume,
                _ => RequestDecision::Invalid,
            },
        }
    }

    /// Return the state a started request enters.
    pub fn started(req: WriterRequest, size: usize, writes_first: bool) -> (r: WriterState)
        ensures
            r == WriterState::started_spec(req, size, writes_first),
    {
        match req {
            WriterRequest::Write => WriterState::Write(size),
            WriterRequest::Flush => if writes_first {
                WriterState::WriteThenFlush
            } else {
                WriterState::Flush
            },
            WriterRequest::Close => if writes_first {
                WriterState::WriteThenClose
            } else {
                WriterState::Close
            },
        }
    }

    /// Return the next call of the device in this state.
    pub fn step(&self) -> (r: WriterStep)
        ensures
            r == self.step_spec(),
    {
        match self {
            WriterState::Write(_) | WriterState::WriteThenFlush | WriterState::WriteThenClose =>
                WriterStep::WriteAll,
            WriterState::Flush | WriterState::FlushThenClose => WriterStep::FlushDevice,
            WriterState::Close => WriterStep::CloseDevice,
            WriterState::Idle | WriterState::Shutdown => WriterStep::Finished(0),
        }
    }

    /// Return the state once the call of `step` has completed, and the
    /// number of input bytes to report if the request is done with it.
    pub fn completed(&self) -> (r: (WriterState, Option<usize>))
        ensures
            r == self.completed_spec(),
    {
        match *self {
            WriterState::Write(size) => (WriterState::Idle, Some(size)),
            WriterState::WriteThenFlush => (WriterState::Flush, None),
            WriterState::Flush => (WriterState::Idle, None),
            WriterState::WriteThenClose => (WriterState::FlushThenClose, None),
            WriterState::FlushThenClose => (WriterState::Close, None),
            WriterState::Close => (WriterState::Shutdown, None),
            WriterState::Idle => (WriterState::Idle, Some(0)),
            WriterState::Shutdown => (WriterState::Shutdown, Some(0)),
        }
    }
}

/// Each completed device call brings the request in hand closer to its end:
/// a request is done after at most three device calls, never loops, and
/// the steps it takes are the ones its kind calls for.
pub proof fn lemma_completed_step_progresses(s: WriterState)
    requires
        !(s.step_spec() is Finished),
    ensures
        s.completed_spec().0.remaining_steps() < s.remaining_steps(),
        s.remaining_steps() <= 3,
        s.completed_spec().1 is Some ==> s.completed_spec().0 == WriterState::Idle,
{
}

/// A request started from an idle writer is carried out by resuming it: a
/// new request of the same kind resumes it, a request of another kind is
/// refused until it is done, and a write reports the input size it started
/// with.
pub proof fn lemma_started_request_resumes(req: WriterRequest, size: usize, writes_first: bool)
    ensures
        ({
            let s = WriterState::started_spec(req, size, writes_first);
            &&& s.decide_spec(req) == RequestDecision::Resume
            &&& forall|other: WriterRequest| other != req ==> s.decide_spec(other) == RequestDecision::Invalid
            &&& req == WriterRequest::Write ==> s.completed_spec() == (WriterState::Idle, Some(size))
        }),
{
}

/// Once closed, a writer stays closed: every request resumes and is done at
/// once, with nothing written.
pub proof fn lemma_shutdown_is_final(req: WriterRequest)
    ensures
        WriterState::Shutdown.decide_spec(req) == RequestDecision::Resume,
        WriterState::Shutdown.step_spec() == WriterStep::Finished(0),
        WriterState::Shutdown.completed_spec().0 == WriterState::Shutdown,
{
}

/// A close carried out to its end leaves the writer closed: when output is
/// written first (a compressor's end of frame), the device is written, then
/// flushed, then closed; otherwise it is closed at once.
pub proof fn lemma_close_ends_in_shutdown(writes_first: bool)
    ensures
        ({
            let s0 = WriterState::started_spec(WriterRequest::Close, 0, writes_first);
            let s1 = if writes_first { s0.completed_spec().0 } else { s0 };
            &&& writes_first ==> s0.step_spec() == WriterStep::WriteAll
            &&& writes_first ==> s1.step_spec() == WriterStep::FlushDevice
                && s1.completed_spec().0.step_spec() == WriterStep::CloseDevice
                && s1.completed_spec().0.completed_spec().0 == WriterState::Shutdown
            &&& !writes_first ==> s0.step_spec() == WriterStep::CloseDevice
                && s0.completed_spec().0 == WriterState::Shutdown
        }),
{
}

/// The state a writer is in after `k` device calls of the request in hand
/// have completed.
pub open spec fn after_calls(s: WriterState, k: nat) -> WriterState
    decreases k,
{
    if k == 0 {
        s
    } else {
        after_calls(s.completed_spec().0, (k - 1) as nat)
    }
}

/// The device calls that each request is made of, in order, and what the
/// writer is once they are done: a write writes its output and reports its
/// input size; a flush writes the output first (when there is output to
/// write) and then flushes the device; a close writes the end of the frame
/// (when there is one), flushes the device and closes it, and leaves the
/// writer shut down. No call is skipped or repeated, and nothing is reported
/// before the last call.
pub proof fn lemma_request_device_calls(size: usize)
    ensures
        ({
            let w = WriterState::started_spec(WriterRequest::Write, size, true);
            &&& w.step_spec() == WriterStep::WriteAll
            &&& w.completed_spec() == (WriterState::Idle, Some(size))
        }),
        ({
            let f0 = WriterState::started_spec(WriterRequest::Flush, size, true);
            let f1 = f0.completed_spec().0;
            &&& f0.step_spec() == WriterStep::WriteAll
            &&& f0.completed_spec().1 is None
            &&& f1.step_spec() == WriterStep::FlushDevice
            &&& f1.completed_spec() == (WriterState::Idle, None::<usize>)
        }),
        ({
            let f0 = WriterState::started_spec(WriterRequest::Flush, size, false);
            &&& f0.step_spec() == WriterStep::FlushDevice
            &&& f0.completed_spec() == (WriterState::Idle, None::<usize>)
        }),
        ({
            let c0 = WriterState::started_spec(WriterRequest::Close, size, true);
            let c1 = c0.completed_spec().0;
            let c2 = c1.completed_spec().0;
            &&& c0.step_spec() == WriterStep::WriteAll
            &&& c0.completed_spec().1 is None
            &&& c1.step_spec() == WriterStep::FlushDevice
            &&& c1.completed_spec().1 is None
            &&& c2.step_spec() == WriterStep::CloseDevice
            &&& c2.completed_spec() == (WriterState::Shutdown, None::<usize>)
        }),
        ({
            let c0 = WriterState::started_spec(WriterRequest::Close, size, false);
            &&& c0.step_spec() == WriterStep::CloseDevice
            &&& c0.completed_spec() == (WriterState::Shutdown, None::<usize>)
        }),
{
}

/// The number of device calls a request is made of: one for a write, two
/// for a flush that writes output first (else one), three for a close that
/// writes the end of the frame first (else one).
pub open spec fn request_calls(req: WriterRequest, writes_first: bool) -> nat {
    match req {
        WriterRequest::Write => 1,
        WriterRequest::Flush => if writes_first { 2 } else { 1 },
        WriterRequest::Close => if writes_first { 3 } else { 1 },
    }
}

/// While a started request is in hand (before its last device call has
/// completed), polling the same request again resumes it, and any other
/// request is refused until it is done; once its calls are done the writer
/// is idle again, or shut down after a close, and an idle writer starts any
/// request.
pub proof fn lemma_request_in_hand_resumes(
    req: WriterRequest,
    size: usize,
    writes_first: bool,
    k: nat,
    other: WriterRequest,
)
    ensures
        ({
            let s0 = WriterState::started_spec(req, size, writes_first);
            &&& k < request_calls(req, writes_first) ==> after_calls(s0, k).decide_spec(req)
                == RequestDecision::Resume
            &&& k < request_calls(req, writes_first) && other != req ==> after_calls(s0, k).decide_spec(
                other,
            ) == RequestDecision::Invalid
            &&& k < request_calls(req, writes_first) ==> !(after_calls(s0, k).step_spec() is Finished)
            &&& WriterState::Idle.decide_spec(other) == RequestDecision::Start
            &&& after_calls(s0, request_calls(req, writes_first)) == if req == WriterRequest::Close {
                WriterState::Shutdown
            } else {
                WriterState::Idle
            }
        }),
{
    let s0 = WriterState::started_spec(req, size, writes_first);
    reveal_with_fuel(after_calls, 4);
    assert(after_calls(s0, 0) == s0);
    assert(after_calls(s0, 1) == s0.completed_spec().0);
    assert(after_calls(s0, 2) == s0.completed_spec().0.completed_spec().0);
    assert(after_calls(s0, 3) == s0.completed_spec().0.completed_spec().0.completed_spec().0);
}

} // verus!
