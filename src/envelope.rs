//! Envelope framing: `DELIM || payload || DELIM`, with a delimiter-clean payload.
use vstd::prelude::*;
use crate::types::ProtocolError;

verus! {

/// The one-byte delimiter that opens and closes every envelope.
pub const DELIM: u8 = 0;

/// Size of each incremental read while a reply is being received.
pub const READ_BUF: usize = 4096;

/// Hard cap on one encoded outbound envelope, delimiters included.
pub const MAX_WRITE: usize = 4096;

/// No byte of `p` is the delimiter.
pub open spec fn delimiter_clean(p: Seq<u8>) -> bool {
    forall|i: int| 0 <= i < p.len() ==> #[trigger] p[i] != DELIM
}

/// The envelope that carries payload `p`.
pub open spec fn envelope_of(p: Seq<u8>) -> Seq<u8> {
    seq![DELIM] + p + seq![DELIM]
}

/// `buf` begins with a complete envelope whose last byte is at `end - 1`.
pub open spec fn closes_at(buf: Seq<u8>, end: int) -> bool {
    &&& 2 <= end <= buf.len()
    &&& buf[0] == DELIM
    &&& buf[end - 1] == DELIM
    &&& delimiter_clean(buf.subrange(1, end - 1))
}

/// `buf` is the start of an envelope that has not closed yet.
pub open spec fn awaits_more(buf: Seq<u8>) -> bool {
    buf.len() == 0 || (buf[0] == DELIM && delimiter_clean(buf.subrange(1, buf.len() as int)))
}

/// `buf` does not open with the delimiter.
pub open spec fn opens_wrong(buf: Seq<u8>) -> bool {
    buf.len() > 0 && buf[0] != DELIM
}

#[verifier::external_type_specification]
#[verifier::external_body]
#[verifier::reject_recursive_types(T)]
pub struct ExArrayVec<T, const CAP: usize>(arrayvec::ArrayVec<T, CAP>);

/// The bytes held by an outbound write buffer.
pub uninterp spec fn write_buffer_bytes(b: arrayvec::ArrayVec<u8, MAX_WRITE>) -> Seq<u8>;

/// Relies on arrayvec::ArrayVec::new: a new buffer is empty.
#[verifier::external_body]
fn write_buffer_new() -> (r: arrayvec::ArrayVec<u8, MAX_WRITE>)
    ensures
        write_buffer_bytes(r) == Seq::<u8>::empty(),
{
    arrayvec::ArrayVec::new()
}

/// Relies on arrayvec::ArrayVec::try_push: the byte is appended when the
/// buffer holds fewer than its capacity, and the buffer is left as it was
/// otherwise.
#[verifier::external_body]
fn write_buffer_try_push(b: &mut arrayvec::ArrayVec<u8, MAX_WRITE>, x: u8) -> (r: bool)
    ensures
        write_buffer_bytes(*old(b)).len() < MAX_WRITE ==> r && write_buffer_bytes(*final(b))
            == write_buffer_bytes(*old(b)).push(x),
        write_buffer_bytes(*old(b)).len() >= MAX_WRITE ==> !r && write_buffer_bytes(*final(b))
            == write_buffer_bytes(*old(b)),
{
    b.try_push(x).is_ok()
}

/// Relies on arrayvec::ArrayVec::as_slice: the slice holds the buffer's bytes
/// in order.
#[verifier::external_body]
fn write_buffer_to_vec(b: &arrayvec::ArrayVec<u8, MAX_WRITE>) -> (r: Vec<u8>)
    ensures
        r@ == write_buffer_bytes(*b),
{
    b.as_slice().to_vec()
}

/// Wraps an encoded request payload in its envelope, in a write buffer of
/// `MAX_WRITE` bytes. A payload that holds the delimiter is refused, and so
/// is one whose envelope does not fit the buffer. Nothing is written here:
/// the caller hands the result to the transport only when it is `Ok`.
pub fn frame(payload: &[u8]) -> (r: Result<Vec<u8>, ProtocolError>)
    ensures
        !delimiter_clean(payload@) ==> r == Err::<Vec<u8>, ProtocolError>(
            ProtocolError::DelimiterInPayload,
        ),
        delimiter_clean(payload@) && payload@.len() + 2 > MAX_WRITE ==> r == Err::<
            Vec<u8>,
            ProtocolError,
        >(ProtocolError::Oversized),
        delimiter_clean(payload@) && payload@.len() + 2 <= MAX_WRITE ==> (r matches Ok(v)
            && v@ == envelope_of(payload@)),
{
    let mut i: usize = 0;
    while i < payload.len()
        invariant
            i <= payload@.len(),
            delimiter_clean(payload@.subrange(0, i as int)),
        decreases payload@.len() - i,
    {
        if payload[i] == DELIM {
            return Err(ProtocolError::DelimiterInPayload);
        }
        assert(payload@.subrange(0, i + 1) =~= payload@.subrange(0, i as int).push(payload@[i as int]));
        i = i + 1;
    }
    assert(payload@.subrange(0, i as int) =~= payload@);
    let mut out = write_buffer_new();
    if !write_buffer_try_push(&mut out, DELIM) {
        return Err(ProtocolError::Oversized);
    }
    let mut j: usize = 0;
    while j < payload.len()
        invariant
            j <= payload@.len(),
            delimiter_clean(payload@),
            write_buffer_bytes(out) == seq![DELIM] + payload@.subrange(0, j as int),
        decreases payload@.len() - j,
    {
        if !write_buffer_try_push(&mut out, payload[j]) {
            return Err(ProtocolError::Oversized);
        }
        j = j + 1;
        assert(write_buffer_bytes(out) =~= seq![DELIM] + payload@.subrange(0, j as int));
    }
    if !write_buffer_try_push(&mut out, DELIM) {
        return Err(ProtocolError::Oversized);
    }
    assert(payload@.subrange(0, j as int) =~= payload@);
    assert(write_buffer_bytes(out) =~= envelope_of(payload@));
    Ok(write_buffer_to_vec(&out))
}

/// How far the bytes received so far go.
#[derive(Clone, Copy, Debug, PartialEq, Eq, Structural)]
pub enum Scan {
    /// No complete envelope yet; more bytes are needed.
    Incomplete,
    /// The bytes do not open with the delimiter.
    Malformed,
    /// A complete envelope occupies the first `end` bytes.
    Complete { end: usize },
}

/// Looks for a complete envelope at the start of `buf`. The payload is
/// delimiter-clean, so the first delimiter after the opening one closes it.
pub fn scan_reply(buf: &[u8]) -> (r: Scan)
    ensures
        r == Scan::Incomplete <==> awaits_more(buf@),
        r == Scan::Malformed <==> opens_wrong(buf@),
        r matches Scan::Complete { end } ==> closes_at(buf@, end as int),
        forall|end: int| closes_at(buf@, end) ==> r == (Scan::Complete { end: end as usize }),
{
    if buf.len() == 0 {
        return Scan::Incomplete;
    }
    if buf[0] != DELIM {
        return Scan::Malformed;
    }
    let mut k: usize = 1;
    while k < buf.len()
        invariant
            1 <= k <= buf@.len(),
            buf@[0] == DELIM,
            delimiter_clean(buf@.subrange(1, k as int)),
        decreases buf@.len() - k,
    {
        if buf[k] == DELIM {
            let end = k + 1;
            assert(buf@.subrange(1, end - 1) =~= buf@.subrange(1, k as int));
            proof {
                lemma_close_unique(buf@, end as int);
            }
            return Scan::Complete { end };
        }
        assert(buf@.subrange(1, k + 1) =~= buf@.subrange(1, k as int).push(buf@[k as int]));
        k = k + 1;
    }
    proof {
        assert forall|end: int| !closes_at(buf@, end) by {
            if closes_at(buf@, end) {
                assert(buf@.subrange(1, k as int)[end - 2] == buf@[end - 1]);
            }
        }
    }
    Scan::Incomplete
}

proof fn lemma_close_unique(buf: Seq<u8>, end: int)
    requires
        closes_at(buf, end),
    ensures
        forall|e: int| closes_at(buf, e) ==> e == end,
        !awaits_more(buf),
{
    assert forall|e: int| closes_at(buf, e) implies e == end by {
        if e < end {
            assert(buf.subrange(1, end - 1)[e - 2] == buf[e - 1]);
        } else if e > end {
            assert(buf.subrange(1, e - 1)[end - 2] == buf[end - 1]);
        }
    }
    if buf.len() > 0 && buf[0] == DELIM && delimiter_clean(buf.subrange(1, buf.len() as int)) {
        assert(buf.subrange(1, buf.len() as int)[end - 2] == buf[end - 1]);
    }
}

/// Copies `buf[from..to]` into a new vector.
fn copy_range(buf: &[u8], from: usize, to: usize) -> (r: Vec<u8>)
    requires
        from <= to <= buf@.len(),
    ensures
        r@ == buf@.subrange(from as int, to as int),
{
    let mut out: Vec<u8> = Vec::new();
    let mut i: usize = from;
    while i < to
        invariant
            from <= i <= to <= buf@.len(),
            out@ == buf@.subrange(from as int, i as int),
        decreases to - i,
    {
        out.push(buf[i]);
        i = i + 1;
        assert(out@ =~= buf@.subrange(from as int, i as int));
    }
    out
}

/// What the reader makes of the bytes received so far.
#[derive(Clone, Debug, PartialEq, Eq)]
pub enum ReplyStep {
    /// The envelope has not closed yet.
    NeedMore,
    /// The envelope closed; this is its payload.
    Payload(Vec<u8>),
    /// The bytes do not open with the delimiter.
    Malformed,
}

/// Accumulates the bytes of one reply, read in chunks of any size, until its
/// envelope closes.
pub struct ReplyReader {
    bytes: Vec<u8>,
}

impl ReplyReader {
    /// The bytes received so far.
    pub closed spec fn received(&self) -> Seq<u8> {
        self.bytes@
    }

    pub fn new() -> (r: ReplyReader)
        ensures
            r.received() == Seq::<u8>::empty(),
    {
        ReplyReader { bytes: Vec::new() }
    }

    /// A reader that starts from bytes already received, such as those that
    /// followed the previous reply's envelope.
    pub fn with_received(bytes: Vec<u8>) -> (r: ReplyReader)
        ensures
            r.received() == bytes@,
    {
        ReplyReader { bytes }
    }

    pub fn received_len(&self) -> (r: usize)
        ensures
            r == self.received().len(),
    {
        self.bytes.len()
    }

    /// The bytes received from position `from` on.
    pub fn tail(&self, from: usize) -> (r: Vec<u8>)
        requires
            from <= self.received().len(),
        ensures
            r@ == self.received().subrange(from as int, self.received().len() as int),
    {
        copy_range(self.bytes.as_slice(), from, self.bytes.len())
    }

    /// Appends `chunk` to what was received and looks for a closed envelope.
    pub fn feed(&mut self, chunk: &[u8]) -> (r: ReplyStep)
        ensures
            final(self).received() == old(self).received() + chunk@,
            r is NeedMore <==> awaits_more(final(self).received()),
            r is Malformed <==> opens_wrong(final(self).received()),
            r matches ReplyStep::Payload(p) ==> exists|end: int|
                closes_at(final(self).received(), end) && p@ == final(self).received().subrange(
                    1,
                    end - 1,
                ),
            forall|end: int|
                closes_at(final(self).received(), end) ==> (r matches ReplyStep::Payload(p)
                    && p@ == final(self).received().subrange(1, end - 1)),
    {
        let ghost before = self.bytes@;
        let mut i: usize = 0;
        while i < chunk.len()
            invariant
                i <= chunk@.len(),
                self.bytes@ == before + chunk@.subrange(0, i as int),
            decreases chunk@.len() - i,
        {
            self.bytes.push(chunk[i]);
            i = i + 1;
            assert(self.bytes@ =~= before + chunk@.subrange(0, i as int));
        }
        assert(chunk@.subrange(0, i as int) =~= chunk@);
        match scan_reply(self.bytes.as_slice()) {
            Scan::Incomplete => ReplyStep::NeedMore,
            Scan::Malformed => ReplyStep::Malformed,
            Scan::Complete { end } => {
                let p = copy_range(self.bytes.as_slice(), 1, end - 1);
                proof {
                    lemma_close_unique(self.bytes@, end as int);
                }
                ReplyStep::Payload(p)
            },
        }
    }
}

/// Stripping the two delimiters of an envelope gives back its payload: in any
/// stream that begins with the envelope of a delimiter-clean payload, the
/// envelope closes exactly after that payload, and what lies between the
/// delimiters is the payload.
pub proof fn law_envelope_round_trip(p: Seq<u8>, rest: Seq<u8>)
    requires
        delimiter_clean(p),
    ensures
        closes_at(envelope_of(p) + rest, p.len() + 2 as int),
        (envelope_of(p) + rest).subrange(1, p.len() + 1 as int) == p,
        forall|end: int| closes_at(envelope_of(p) + rest, end) ==> end == p.len() + 2 as int,
{
    let s = envelope_of(p) + rest;
    assert(s.subrange(1, p.len() + 1 as int) =~= p);
    lemma_close_unique(s, p.len() + 2 as int);
}

/// A reply cut short anywhere inside its envelope, trailing delimiter
/// included, never counts as complete: the reader keeps waiting for bytes.
pub proof fn law_truncated_envelope_incomplete(p: Seq<u8>, k: int)
    requires
        delimiter_clean(p),
        0 <= k < p.len() + 2,
    ensures
        awaits_more(envelope_of(p).subrange(0, k)),
        forall|end: int| !closes_at(envelope_of(p).subrange(0, k), end),
{
    let s = envelope_of(p).subrange(0, k);
    if k > 0 {
        assert(s.subrange(1, k) =~= p.subrange(0, k - 1));
    }
    assert forall|end: int| !closes_at(s, end) by {
        if closes_at(s, end) {
            assert(s[end - 1] == p[end - 2]);
        }
    }
}

/// A stream whose first byte is not the delimiter is malformed, whatever
/// follows.
pub proof fn law_missing_leading_delimiter(s: Seq<u8>)
    requires
        s.len() > 0,
        s[0] != DELIM,
    ensures
        opens_wrong(s),
        !awaits_more(s),
        forall|end: int| !closes_at(s, end),
{
}

} // verus!
