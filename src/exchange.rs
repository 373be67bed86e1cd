//! One request/response exchange as a state machine. The caller performs each
//! action it is handed (write, wait, read, decode) and reports what happened;
//! every decision in between is taken here.
use vstd::prelude::*;
use crate::envelope::{
    awaits_more, closes_at, delimiter_clean, envelope_of, frame, opens_wrong, ReplyReader,
    ReplyStep, MAX_WRITE,
};
use crate::protocol::{check_tag, rejection};
use crate::types::{expected_tag, tag_of, HLAPIReceive, HLAPISend, ProtocolError, ReplyTag};

verus! {

/// Where an exchange stands.
#[derive(Clone, Copy, Debug, PartialEq, Eq, Structural)]
pub enum Phase {
    Writing,
    AwaitingReady,
    Reading,
    Decoding,
    Succeeded,
    Failed,
}

/// What the caller has to do next.
#[derive(Clone, Debug, PartialEq, Eq)]
pub enum Action {
    /// Write all of these bytes to the device and flush, then report `Written`.
    Write(Vec<u8>),
    /// Block until the device is readable, then report `Ready`.
    WaitReadable,
    /// Read up to `READ_BUF` bytes and report them with `Received`.
    Read,
    /// Decode one value from the start of this payload and report `Decoded`,
    /// with the number of bytes the value took, or `DecodeFailed`.
    Decode(Vec<u8>),
    /// The exchange succeeded with this reply, whose tag is the expected one.
    Deliver(HLAPIReceive),
    /// The exchange failed.
    Fail(ProtocolError),
}

/// What the caller reports after performing an action.
#[derive(Clone, Debug, PartialEq, Eq)]
pub enum Event {
    /// The whole envelope was written and flushed.
    Written,
    /// The readiness wait returned.
    Ready,
    /// These bytes were read; none means the stream ended.
    Received(Vec<u8>),
    /// A value at the start of the payload decoded into this reply and took
    /// this many bytes of it.
    Decoded(HLAPIReceive, usize),
    /// The payload did not decode.
    DecodeFailed,
}

/// A single in-flight request and the reply it waits for.
pub struct Exchange {
    phase: Phase,
    want: ReplyTag,
    reader: ReplyReader,
    consumed: usize,
}

/// How an exchange that has just taken in bytes, so that it now holds `all`,
/// goes on: while the envelope is open it is in phase `waiting` and asks for
/// `wait_action`; a wrong first byte fails it; a closed envelope hands its
/// payload to the decoder and marks the envelope's bytes as consumed.
pub open spec fn takes_in(
    before: Exchange,
    after: Exchange,
    a: Action,
    all: Seq<u8>,
    waiting: Phase,
    wait_action: Action,
) -> bool {
    &&& after.received() == all
    &&& awaits_more(all) ==> after.phase_spec() == waiting && a == wait_action && after.consumed()
        == before.consumed()
    &&& opens_wrong(all) ==> after.phase_spec() == Phase::Failed && a == Action::Fail(
        ProtocolError::Framing,
    ) && after.consumed() == before.consumed()
    &&& forall|end: int|
        closes_at(all, end) ==> after.phase_spec() == Phase::Decoding && after.consumed() == end
            && after.pending() == all.subrange(1, end - 1) && (a matches Action::Decode(p) && p@
            == all.subrange(1, end - 1))
}

impl Exchange {
    pub closed spec fn phase_spec(&self) -> Phase {
        self.phase
    }

    /// The reply tag that the request calls for.
    pub closed spec fn want(&self) -> ReplyTag {
        self.want
    }

    /// The reply bytes received so far, including any carried over from
    /// before the exchange began.
    pub closed spec fn received(&self) -> Seq<u8> {
        self.reader.received()
    }

    /// How many of the received bytes the closed reply envelope takes; zero
    /// while no envelope has closed.
    pub closed spec fn consumed(&self) -> int {
        self.consumed as int
    }

    /// The payload of the closed reply envelope, once there is one.
    pub closed spec fn pending(&self) -> Seq<u8> {
        self.reader.received().subrange(1, self.consumed - 1)
    }

    pub closed spec fn wf(&self) -> bool {
        &&& self.consumed <= self.reader.received().len()
        &&& self.phase == Phase::Decoding ==> self.consumed >= 2
    }

    pub fn phase(&self) -> (r: Phase)
        ensures
            r == self.phase_spec(),
    {
        self.phase
    }

    /// Starts the exchange of `request`, whose encoded form is `payload`. A
    /// payload that holds the delimiter, or whose envelope would exceed
    /// `MAX_WRITE`, fails here, and no write is asked for.
    pub fn begin(request: &HLAPISend, payload: &[u8]) -> (r: (Exchange, Action))
        ensures
            r.0.wf(),
            r.0.want() == expected_tag(*request),
            r.0.received() == Seq::<u8>::empty(),
            r.0.consumed() == 0,
            !delimiter_clean(payload@) ==> r.0.phase_spec() == Phase::Failed && r.1
                == Action::Fail(ProtocolError::DelimiterInPayload),
            delimiter_clean(payload@) && payload@.len() + 2 > MAX_WRITE ==> r.0.phase_spec()
                == Phase::Failed && r.1 == Action::Fail(ProtocolError::Oversized),
            delimiter_clean(payload@) && payload@.len() + 2 <= MAX_WRITE ==> r.0.phase_spec()
                == Phase::Writing && (r.1 matches Action::Write(v) && v@ == envelope_of(payload@)),
    {
        Exchange::begin_after(request, payload, Vec::new())
    }

    /// Like `begin`, for a stream in which `carried` was already read: the
    /// bytes that followed the previous reply's envelope. They are the start
    /// of this exchange's reply.
    pub fn begin_after(request: &HLAPISend, payload: &[u8], carried: Vec<u8>) -> (r: (
        Exchange,
        Action,
    ))
        ensures
            r.0.wf(),
            r.0.want() == expected_tag(*request),
            r.0.received() == carried@,
            r.0.consumed() == 0,
            !delimiter_clean(payload@) ==> r.0.phase_spec() == Phase::Failed && r.1
                == Action::Fail(ProtocolError::DelimiterInPayload),
            delimiter_clean(payload@) && payload@.len() + 2 > MAX_WRITE ==> r.0.phase_spec()
                == Phase::Failed && r.1 == Action::Fail(ProtocolError::Oversized),
            delimiter_clean(payload@) && payload@.len() + 2 <= MAX_WRITE ==> r.0.phase_spec()
                == Phase::Writing && (r.1 matches Action::Write(v) && v@ == envelope_of(payload@)),
    {
        let want = request.expected_reply();
        let reader = ReplyReader::with_received(carried);
        match frame(payload) {
            Ok(v) => (Exchange { phase: Phase::Writing, want, reader, consumed: 0 }, Action::Write(v)),
            Err(e) => (Exchange { phase: Phase::Failed, want, reader, consumed: 0 }, Action::Fail(e)),
        }
    }

    /// The received bytes that follow the closed reply envelope (all of them
    /// while none has closed). They belong to the next reply.
    pub fn leftover(&self) -> (r: Vec<u8>)
        requires
            self.wf(),
        ensures
            r@ == self.received().subrange(self.consumed(), self.received().len() as int),
    {
        self.reader.tail(self.consumed)
    }

    fn take_in(&mut self, step: ReplyStep, waiting: Phase, wait_action: Action) -> (a: Action)
        requires
            old(self).wf(),
            waiting != Phase::Decoding,
            step is NeedMore <==> awaits_more(old(self).received()),
            step is Malformed <==> opens_wrong(old(self).received()),
            step matches ReplyStep::Payload(p) ==> exists|end: int|
                closes_at(old(self).received(), end) && p@ == old(self).received().subrange(
                    1,
                    end - 1,
                ),
            forall|end: int|
                closes_at(old(self).received(), end) ==> (step matches ReplyStep::Payload(p)
                    && p@ == old(self).received().subrange(1, end - 1)),
        ensures
            final(self).wf(),
            final(self).want() == old(self).want(),
            takes_in(*old(self), *final(self), a, old(self).received(), waiting, wait_action),
    {
        match step {
            ReplyStep::NeedMore => {
                self.phase = waiting;
                wait_action
            },
            ReplyStep::Malformed => {
                self.phase = Phase::Failed;
                Action::Fail(ProtocolError::Framing)
            },
            ReplyStep::Payload(p) => {
                let ghost all = self.reader.received();
                // the envelope's end is at most this length, so it fits a usize
                let _received_len = self.reader.received_len();
                proof {
                    let end = choose|end: int| closes_at(all, end) && p@ == all.subrange(1, end - 1);
                    assert(p@.len() == end - 2);
                    assert forall|e: int| closes_at(all, e) implies e == end by {
                        if e < end {
                            assert(all.subrange(1, end - 1)[e - 2] == all[e - 1]);
                        } else if e > end {
                            assert(all.subrange(1, e - 1)[end - 2] == all[end - 1]);
                        }
                    }
                }
                self.phase = Phase::Decoding;
                self.consumed = p.len() + 2;
                Action::Decode(p)
            },
        }
    }

    /// Takes the event that the last action produced and returns the next
    /// action. An event that the current phase does not wait for fails the
    /// exchange.
    pub fn step(&mut self, ev: Event) -> (a: Action)
        requires
            old(self).wf(),
        ensures
            final(self).wf(),
            final(self).want() == old(self).want(),
            match (old(self).phase_spec(), ev) {
                (Phase::Writing, Event::Written) => takes_in(
                    *old(self),
                    *final(self),
                    a,
                    old(self).received(),
                    Phase::AwaitingReady,
                    Action::WaitReadable,
                ),
                (Phase::AwaitingReady, Event::Ready) => final(self).phase_spec() == Phase::Reading
                    && a == Action::Read && final(self).received() == old(self).received()
                    && final(self).consumed() == old(self).consumed(),
                (Phase::Reading, Event::Received(c)) => if c@.len() == 0 {
                    final(self).phase_spec() == Phase::Failed && a == Action::Fail(
                        ProtocolError::Framing,
                    ) && final(self).received() == old(self).received() && final(self).consumed()
                        == old(self).consumed()
                } else {
                    takes_in(
                        *old(self),
                        *final(self),
                        a,
                        old(self).received() + c@,
                        Phase::Reading,
                        Action::Read,
                    )
                },
                (Phase::Decoding, Event::Decoded(reply, used)) => {
                    &&& final(self).received() == old(self).received()
                    &&& final(self).consumed() == old(self).consumed()
                    &&& if used != old(self).pending().len() {
                        final(self).phase_spec() == Phase::Failed && a == Action::Fail(
                            ProtocolError::Framing,
                        )
                    } else if tag_of(reply) == old(self).want() {
                        final(self).phase_spec() == Phase::Succeeded && a == Action::Deliver(reply)
                    } else {
                        final(self).phase_spec() == Phase::Failed && a == Action::Fail(
                            rejection(reply),
                        )
                    }
                },
                (Phase::Decoding, Event::DecodeFailed) => final(self).phase_spec() == Phase::Failed
                    && a == Action::Fail(ProtocolError::Decode) && final(self).received()
                    == old(self).received() && final(self).consumed() == old(self).consumed(),
                _ => final(self).phase_spec() == Phase::Failed && a == Action::Fail(
                    ProtocolError::OutOfSequence,
                ) && final(self).received() == old(self).received() && final(self).consumed()
                    == old(self).consumed(),
            },
    {
        match (self.phase, ev) {
            (Phase::Writing, Event::Written) => {
                let none: Vec<u8> = Vec::new();
                let step = self.reader.feed(none.as_slice());
                assert(self.reader.received() =~= old(self).received());
                proof {
                    if step is Payload {
                        let p = step->Payload_0;
                        let all = self.reader.received();
                        let end = choose|end: int| closes_at(all, end) && p@ == all.subrange(1, end - 1);
                        assert(closes_at(self.received(), end) && p@ == self.received().subrange(1, end - 1));
                    }
                }
                self.take_in(step, Phase::AwaitingReady, Action::WaitReadable)
            },
            (Phase::AwaitingReady, Event::Ready) => {
                self.phase = Phase::Reading;
                Action::Read
            },
            (Phase::Reading, Event::Received(c)) => {
                if c.len() == 0 {
                    self.phase = Phase::Failed;
                    return Action::Fail(ProtocolError::Framing);
                }
                let step = self.reader.feed(c.as_slice());
                self.take_in(step, Phase::Reading, Action::Read)
            },
            (Phase::Decoding, Event::Decoded(reply, used)) => {
                let payload_len = if self.consumed >= 2 {
                    self.consumed - 2
                } else {
                    0
                };
                if self.consumed < 2 || used != payload_len {
                    self.phase = Phase::Failed;
                    Action::Fail(ProtocolError::Framing)
                } else if check_tag(self.want, &reply) {
                    self.phase = Phase::Succeeded;
                    Action::Deliver(reply)
                } else {
                    self.phase = Phase::Failed;
                    Action::Fail(crate::protocol::reject(reply))
                }
            },
            (Phase::Decoding, Event::DecodeFailed) => {
                self.phase = Phase::Failed;
                Action::Fail(ProtocolError::Decode)
            },
            _ => {
                self.phase = Phase::Failed;
                Action::Fail(ProtocolError::OutOfSequence)
            },
        }
    }
}

} // verus!
