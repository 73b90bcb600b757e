//! Framing of messages on a QUIC stream: a little-endian `u32` length
//! prefix followed by the encoded message, for `Hello`, control and media
//! messages alike.
//!
//! Writing is `encode_frame`. Reading is the `FrameReader` state machine:
//! the caller performs the exact-length reads it asks for and hands back
//! what they yielded.
use vstd::prelude::*;

use crate::protocol::MAX_MESSAGE_SIZE;

verus! {

// ── Little-endian length prefix ─────────────────────────────────────────────

/// The four little-endian bytes of `n`.
pub open spec fn le_bytes(n: u32) -> Seq<u8> {
    seq![
        (n % 256) as u8,
        ((n / 256) % 256) as u8,
        ((n / 65536) % 256) as u8,
        (n / 16777216) as u8,
    ]
}

/// The number that the first four bytes of `b` hold, little-endian.
pub open spec fn le_value(b: Seq<u8>) -> int
    recommends
        b.len() >= 4,
{
    b[0] + 256 * b[1] + 65536 * b[2] + 16777216 * b[3]
}

/// Reading back the four bytes of `n` gives `n`.
pub proof fn lemma_le_roundtrip(n: u32)
    ensures
        le_bytes(n).len() == 4,
        le_value(le_bytes(n)) == n,
{
    let b = le_bytes(n);
    assert(b[0] == n % 256);
    assert(b[1] == (n / 256) % 256);
    assert(b[2] == (n / 65536) % 256);
    assert(b[3] == n / 16777216);
    assert(n % 256 + 256 * ((n / 256) % 256) + 65536 * ((n / 65536) % 256) + 16777216 * (n
        / 16777216) == n) by (nonlinear_arith);
}

/// Four bytes always hold a value that fits in a `u32`.
pub proof fn lemma_le_value_bounds(b: Seq<u8>)
    requires
        b.len() >= 4,
    ensures
        0 <= le_value(b) <= u32::MAX,
{
}

// ── Writing ─────────────────────────────────────────────────────────────────

/// Why a message could not be framed or read.
#[derive(Debug, Clone, Copy, PartialEq, Eq, Structural)]
pub enum FrameError {
    /// An outgoing message of this many bytes exceeds `MAX_MESSAGE_SIZE`.
    OutgoingTooLarge(usize),
    /// The stream failed, or ended in the middle of a length prefix.
    HeaderUnreadable,
    /// A peer announced an incoming message of this many bytes, more than `MAX_MESSAGE_SIZE`.
    IncomingTooLarge(u32),
    /// The stream failed or ended in the middle of a message body.
    BodyUnreadable,
}

/// The bytes written on the stream for one message: its length, then the message.
pub open spec fn frame_bytes(payload: Seq<u8>) -> Seq<u8> {
    le_bytes(payload.len() as u32) + payload
}

/// Frames an encoded message for the wire. Messages larger than
/// `MAX_MESSAGE_SIZE` are refused.
pub fn encode_frame(payload: &[u8]) -> (r: Result<Vec<u8>, FrameError>)
    ensures
        match r {
            Ok(framed) => payload@.len() <= MAX_MESSAGE_SIZE && framed@ == frame_bytes(payload@),
            Err(e) => payload@.len() > MAX_MESSAGE_SIZE && e == FrameError::OutgoingTooLarge(
                payload@.len() as usize,
            ),
        },
{
    let len = payload.len();
    if len > MAX_MESSAGE_SIZE as usize {
        return Err(FrameError::OutgoingTooLarge(len));
    }
    let n = len as u32;
    let mut out: Vec<u8> = Vec::new();
    out.push((n % 256) as u8);
    out.push(((n / 256) % 256) as u8);
    out.push(((n / 65536) % 256) as u8);
    out.push((n / 16777216) as u8);
    assert(out@ == le_bytes(n));
    let mut i: usize = 0;
    while i < len
        invariant
            i <= len,
            len == payload@.len(),
            out@ == le_bytes(n) + payload@.take(i as int),
        decreases len - i,
    {
        out.push(payload[i]);
        i = i + 1;
        assert(payload@.take(i as int) == payload@.take(i - 1).push(payload@[i - 1]));
    }
    assert(payload@.take(len as int) == payload@);
    Ok(out)
}

// ── Reading, as a byte stream sees it ───────────────────────────────────────

/// What reading one message from the front of a byte stream yields.
pub enum StreamRead {
    /// Nothing remains: the peer finished the stream at a message boundary.
    End,
    /// The stream ends inside a length prefix.
    HeaderTruncated,
    /// The length prefix announces more than `MAX_MESSAGE_SIZE` bytes.
    TooLarge(u32),
    /// The stream ends before the announced body does.
    Truncated,
    /// A whole message, and the rest of the stream after it.
    Message(Seq<u8>, Seq<u8>),
}

/// Reads one message from the front of the byte stream `s`.
pub open spec fn read_frame(s: Seq<u8>) -> StreamRead {
    if s.len() == 0 {
        StreamRead::End
    } else if s.len() < 4 {
        StreamRead::HeaderTruncated
    } else {
        let n = le_value(s);
        if n > MAX_MESSAGE_SIZE {
            StreamRead::TooLarge(n as u32)
        } else if s.len() < 4 + n {
            StreamRead::Truncated
        } else {
            StreamRead::Message(s.subrange(4, 4 + n), s.skip(4 + n))
        }
    }
}

/// The messages read one after another from `s`, up to the first read that
/// does not yield a whole message.
pub open spec fn read_all(s: Seq<u8>) -> Seq<Seq<u8>>
    decreases s.len(),
{
    match read_frame(s) {
        StreamRead::Message(p, rest) => {
            if rest.len() < s.len() {
                seq![p].add(read_all(rest))
            } else {
                seq![p]
            }
        },
        _ => Seq::empty(),
    }
}

/// The bytes written for a sequence of messages, one frame after another.
pub open spec fn frames_bytes(ps: Seq<Seq<u8>>) -> Seq<u8>
    decreases ps.len(),
{
    if ps.len() == 0 {
        Seq::empty()
    } else {
        frame_bytes(ps[0]) + frames_bytes(ps.drop_first())
    }
}

/// Reading a written frame gives back the message, and leaves the stream
/// just after it.
pub proof fn lemma_read_written_frame(p: Seq<u8>, rest: Seq<u8>)
    requires
        p.len() <= MAX_MESSAGE_SIZE,
    ensures
        read_frame(frame_bytes(p) + rest) == StreamRead::Message(p, rest),
{
    let s = frame_bytes(p) + rest;
    lemma_le_roundtrip(p.len() as u32);
    assert(s.take(4) == le_bytes(p.len() as u32));
    assert(le_value(s) == le_value(le_bytes(p.len() as u32)));
    assert(s.subrange(4, 4 + p.len() as int) == p);
    assert(s.skip(4 + p.len() as int) == rest);
}

/// Messages written one after another are read back intact and in order.
pub proof fn lemma_read_all_written(ps: Seq<Seq<u8>>)
    requires
        forall|i: int| 0 <= i < ps.len() ==> (#[trigger] ps[i]).len() <= MAX_MESSAGE_SIZE,
    ensures
        read_all(frames_bytes(ps)) == ps,
    decreases ps.len(),
{
    if ps.len() == 0 {
        assert(read_frame(Seq::<u8>::empty()) == StreamRead::End);
    } else {
        let tail = ps.drop_first();
        assert forall|i: int| 0 <= i < tail.len() implies (#[trigger] tail[i]).len()
            <= MAX_MESSAGE_SIZE by {
            assert(tail[i] == ps[i + 1]);
        }
        lemma_read_all_written(tail);
        let s = frames_bytes(ps);
        assert(ps[0].len() <= MAX_MESSAGE_SIZE);
        lemma_read_written_frame(ps[0], frames_bytes(tail));
        lemma_le_roundtrip(ps[0].len() as u32);
        assert(s.len() == 4 + ps[0].len() + frames_bytes(tail).len());
        assert(seq![ps[0]].add(tail) == ps);
    }
}

/// A frame that `encode_frame` writes is never refused as too large when
/// read, and a frame is read as too large exactly when its announced
/// length exceeds the cap.
pub proof fn lemma_size_cap_agrees(p: Seq<u8>, s: Seq<u8>)
    requires
        p.len() <= MAX_MESSAGE_SIZE,
    ensures
        !(read_frame(frame_bytes(p) + s) is TooLarge),
        s.len() >= 4 ==> ((read_frame(s) is TooLarge) <==> le_value(s) > MAX_MESSAGE_SIZE),
{
    lemma_read_written_frame(p, s);
}

// ── Reading, as a state machine over exact-length reads ─────────────────────

/// Where a reader stands in reading one message.
#[derive(Debug, Clone, Copy, PartialEq, Eq, Structural)]
pub enum FrameReader {
    /// Waiting for the four-byte length prefix.
    Header,
    /// Waiting for a body of this many bytes.
    Body(u32),
}

/// What the exact-length read that the reader asked for yielded.
pub enum ReadEvent {
    /// Exactly the requested bytes.
    Filled(Vec<u8>),
    /// The peer finished the stream cleanly before any byte of the read.
    Finished,
    /// The read failed, or the stream finished after only part of the bytes.
    Failed,
}

/// The mathematical counterpart of a `ReadEvent`.
pub enum ReadOutcome {
    Filled(Seq<u8>),
    Finished,
    Failed,
}

impl View for ReadEvent {
    type V = ReadOutcome;

    open spec fn view(&self) -> ReadOutcome {
        match self {
            ReadEvent::Filled(b) => ReadOutcome::Filled(b@),
            ReadEvent::Finished => ReadOutcome::Finished,
            ReadEvent::Failed => ReadOutcome::Failed,
        }
    }
}

/// What the reader asks its caller to do next.
pub enum ReaderAction {
    /// Read exactly this many bytes from the stream and report them.
    ReadExact(usize),
    /// A whole message body was read.
    Message(Vec<u8>),
    /// The peer finished the stream at a message boundary.
    End,
    /// The stream carries a message that cannot be read.
    Fail(FrameError),
}

/// The mathematical counterpart of a `ReaderAction`.
pub enum ReaderStep {
    ReadExact(nat),
    Message(Seq<u8>),
    End,
    Fail(FrameError),
}

impl View for ReaderAction {
    type V = ReaderStep;

    open spec fn view(&self) -> ReaderStep {
        match self {
            ReaderAction::ReadExact(n) => ReaderStep::ReadExact(*n as nat),
            ReaderAction::Message(b) => ReaderStep::Message(b@),
            ReaderAction::End => ReaderStep::End,
            ReaderAction::Fail(e) => ReaderStep::Fail(*e),
        }
    }
}

/// How many bytes a reader in state `r` asked for.
pub open spec fn expected_len(r: FrameReader) -> nat {
    match r {
        FrameReader::Header => 4,
        FrameReader::Body(n) => n as nat,
    }
}

/// One step of the reader: a clean finish before a length prefix is the
/// end of the stream, any other failure to read the prefix is an error, an
/// announced length above the cap is refused, a failed body read is an
/// error, and a body read completes the message. Every outcome but a body
/// request leaves the reader ready for the next message.
pub open spec fn reader_next(r: FrameReader, ev: ReadOutcome) -> (FrameReader, ReaderStep) {
    match r {
        FrameReader::Header => match ev {
            ReadOutcome::Finished => (FrameReader::Header, ReaderStep::End),
            ReadOutcome::Failed => (
                FrameReader::Header,
                ReaderStep::Fail(FrameError::HeaderUnreadable),
            ),
            ReadOutcome::Filled(b) => {
                let n = le_value(b);
                if n > MAX_MESSAGE_SIZE {
                    (FrameReader::Header, ReaderStep::Fail(FrameError::IncomingTooLarge(n as u32)))
                } else {
                    (FrameReader::Body(n as u32), ReaderStep::ReadExact(n as nat))
                }
            },
        },
        FrameReader::Body(_) => match ev {
            ReadOutcome::Filled(b) => (FrameReader::Header, ReaderStep::Message(b)),
            _ => (FrameReader::Header, ReaderStep::Fail(FrameError::BodyUnreadable)),
        },
    }
}

impl FrameReader {
    /// A reader at the start of a message, and its first request: the length prefix.
    pub fn new() -> (r: (FrameReader, ReaderAction))
        ensures
            r.0 == FrameReader::Header,
            r.1@ == ReaderStep::ReadExact(4),
    {
        (FrameReader::Header, ReaderAction::ReadExact(4))
    }

    /// Advances the reader with the outcome of the read it asked for.
    pub fn step(self, ev: ReadEvent) -> (r: (FrameReader, ReaderAction))
        requires
            ev matches ReadEvent::Filled(b) ==> b@.len() == expected_len(self),
        ensures
            (r.0, r.1@) == reader_next(self, ev@),
    {
        match self {
            FrameReader::Header => match ev {
                ReadEvent::Finished => (FrameReader::Header, ReaderAction::End),
                ReadEvent::Failed => (
                    FrameReader::Header,
                    ReaderAction::Fail(FrameError::HeaderUnreadable),
                ),
                ReadEvent::Filled(b) => {
                    let n: u32 = b[0] as u32 + 256 * (b[1] as u32) + 65536 * (b[2] as u32)
                        + 16777216 * (b[3] as u32);
                    if n > MAX_MESSAGE_SIZE {
                        (FrameReader::Header, ReaderAction::Fail(FrameError::IncomingTooLarge(n)))
                    } else {
                        (FrameReader::Body(n), ReaderAction::ReadExact(n as usize))
                    }
                },
            },
            FrameReader::Body(_) => match ev {
                ReadEvent::Filled(b) => (FrameReader::Header, ReaderAction::Message(b)),
                _ => (FrameReader::Header, ReaderAction::Fail(FrameError::BodyUnreadable)),
            },
        }
    }
}

/// What an exact read of `n` bytes at offset `at` of the finite stream `s`
/// yields: the bytes; a clean finish when nothing is left; a failure when
/// the stream finishes after only part of them.
pub open spec fn read_exact_at(s: Seq<u8>, at: int, n: nat) -> ReadOutcome {
    if at + n <= s.len() {
        ReadOutcome::Filled(s.subrange(at, at + n))
    } else if at == s.len() {
        ReadOutcome::Finished
    } else {
        ReadOutcome::Failed
    }
}

/// The final outcome of a reader that starts at the front of the stream `s`
/// and is given exactly what its reads yield there.
pub open spec fn reader_on_stream(s: Seq<u8>) -> ReaderStep {
    let (r1, a1) = reader_next(FrameReader::Header, read_exact_at(s, 0, 4));
    match a1 {
        ReaderStep::ReadExact(n) => reader_next(r1, read_exact_at(s, 4, n)).1,
        _ => a1,
    }
}

/// The reader reads a byte stream as `read_frame` does: the end of the
/// stream, a truncated length prefix, a refused length, a truncated body,
/// or the next message.
pub proof fn lemma_reader_reads_stream(s: Seq<u8>)
    ensures
        match read_frame(s) {
            StreamRead::End => reader_on_stream(s) == ReaderStep::End,
            StreamRead::HeaderTruncated => reader_on_stream(s) == ReaderStep::Fail(
                FrameError::HeaderUnreadable,
            ),
            StreamRead::TooLarge(n) => reader_on_stream(s) == ReaderStep::Fail(
                FrameError::IncomingTooLarge(n),
            ),
            StreamRead::Truncated => reader_on_stream(s) == ReaderStep::Fail(
                FrameError::BodyUnreadable,
            ),
            StreamRead::Message(p, _) => reader_on_stream(s) == ReaderStep::Message(p),
        },
{
    if s.len() >= 4 {
        let h = s.subrange(0, 4);
        assert(le_value(h) == le_value(s));
        lemma_le_value_bounds(s);
    }
}

/// A message written with `encode_frame` is what the reader delivers.
pub proof fn lemma_reader_reads_written(p: Seq<u8>, rest: Seq<u8>)
    requires
        p.len() <= MAX_MESSAGE_SIZE,
    ensures
        reader_on_stream(frame_bytes(p) + rest) == ReaderStep::Message(p),
{
    lemma_read_written_frame(p, rest);
    lemma_reader_reads_stream(frame_bytes(p) + rest);
}

/// The reader never asks to read more than `MAX_MESSAGE_SIZE` bytes at
/// once, whatever length a peer announces: an oversized message is refused
/// from its length prefix alone.
pub proof fn lemma_reader_reads_at_most_cap(r: FrameReader, ev: ReadOutcome)
    ensures
        reader_next(r, ev).1 matches ReaderStep::ReadExact(n) ==> n <= MAX_MESSAGE_SIZE,
{
}

/// The layout of a frame: four bytes holding the payload's length, least
/// significant byte first, then the payload itself.
pub proof fn lemma_frame_layout(p: Seq<u8>)
    requires
        p.len() <= MAX_MESSAGE_SIZE,
    ensures
        frame_bytes(p).len() == p.len() + 4,
        frame_bytes(p)[0] == p.len() % 256,
        frame_bytes(p)[1] == (p.len() / 256) % 256,
        frame_bytes(p)[2] == (p.len() / 65536) % 256,
        frame_bytes(p)[3] == p.len() / 16777216,
        frame_bytes(p).subrange(4, p.len() + 4int) == p,
        frame_bytes(p)[0] + 256 * frame_bytes(p)[1] + 65536 * frame_bytes(p)[2] + 16777216
            * frame_bytes(p)[3] == p.len(),
{
    lemma_le_roundtrip(p.len() as u32);
    assert(frame_bytes(p).subrange(4, p.len() + 4int) =~= p);
}

/// What each reader step can yield, for every state and read: the end of
/// the stream only on a clean finish before a length prefix; a message only
/// from a completed body read, and then exactly the bytes read; a refused
/// length only for an announced length above the cap, and a body request
/// only for one within it, of exactly that many bytes; every other failure
/// is an error naming the part of the frame that could not be read.
pub proof fn lemma_reader_outcomes(r: FrameReader, ev: ReadOutcome)
    ensures
        (reader_next(r, ev).1 is End) <==> (r == FrameReader::Header && ev is Finished),
        reader_next(r, ev).1 matches ReaderStep::Message(b) ==> (r is Body && ev
            == ReadOutcome::Filled(b)),
        forall|b: Seq<u8>|
            r is Body && ev == ReadOutcome::Filled(b) ==> #[trigger] reader_next(
                r,
                ReadOutcome::Filled(b),
            ).1 == ReaderStep::Message(b),
        r is Body && !(ev is Filled) ==> reader_next(r, ev).1 == ReaderStep::Fail(
            FrameError::BodyUnreadable,
        ),
        r == FrameReader::Header && ev is Failed ==> reader_next(r, ev).1 == ReaderStep::Fail(
            FrameError::HeaderUnreadable,
        ),
        r == FrameReader::Header && ev is Filled && ev->Filled_0.len() == 4 ==> ({
            let b = ev->Filled_0;
            let n = b[0] + 256 * b[1] + 65536 * b[2] + 16777216 * b[3];
            &&& n > 2097152 ==> reader_next(r, ev) == (
                FrameReader::Header,
                ReaderStep::Fail(FrameError::IncomingTooLarge(n as u32)),
            )
            &&& n <= 2097152 ==> reader_next(r, ev) == (
                FrameReader::Body(n as u32),
                ReaderStep::ReadExact(n as nat),
            )
        }),
        !(reader_next(r, ev).1 is ReadExact) ==> reader_next(r, ev).0 == FrameReader::Header,
{
}

} // verus!
