//! Length-prefixed framing of pipe messages: every frame is a
//! little-endian `u32` payload length followed by that many payload bytes.
//!
//! The byte-level decisions of the pipe reader and writer live here; the
//! blocking or non-blocking reads and writes themselves are performed by the
//! caller, which hands each outcome back to the reader.

use crate::error::{PipeError, WireError};
use vstd::prelude::*;

verus! {

/// Number of bytes of a frame header.
pub const HEADER_LEN: usize = 4;

/// The value of four little-endian bytes.
pub open spec fn le_value(b: Seq<u8>) -> int
    recommends
        b.len() == 4,
{
    b[0] + 256 * b[1] + 65536 * b[2] + 16777216 * b[3]
}

/// The four little-endian bytes of `n`.
pub open spec fn le_bytes(n: u32) -> Seq<u8> {
    seq![(n & 0xff) as u8, ((n >> 8) & 0xff) as u8, ((n >> 16) & 0xff) as u8, ((n >> 24) & 0xff) as u8]
}

/// The frame that carries `payload`: its length, truncated to 32 bits as the
/// writer does, followed by the payload.
pub open spec fn frame_of(payload: Seq<u8>) -> Seq<u8> {
    le_bytes(payload.len() as u32) + payload
}

/// The payload length announced by the header at the front of `buffer`.
pub open spec fn announced_len(buffer: Seq<u8>) -> int
    recommends
        buffer.len() >= 4,
{
    le_value(buffer.subrange(0, 4))
}

/// What a buffer holds at its front, for a codec that accepts at most `max`
/// payload bytes: nothing complete yet (`Ok(None)`), a complete frame whose
/// payload has the given length, or a header that no frame may carry.
pub open spec fn front_frame(buffer: Seq<u8>, max: usize) -> Result<Option<int>, PipeError> {
    if buffer.len() < 4 {
        Ok(None)
    } else if announced_len(buffer) == 0 {
        Err(PipeError::Wire(WireError::InvalidFrameLength))
    } else if announced_len(buffer) > max {
        Err(PipeError::Wire(WireError::SizeExceeded { actual: announced_len(buffer) as usize, max }))
    } else if buffer.len() < 4 + announced_len(buffer) {
        Ok(None)
    } else {
        Ok(Some(announced_len(buffer)))
    }
}

/// What end of stream means for the bytes still buffered: a clean end when
/// nothing is pending, otherwise a truncated header or payload.
pub open spec fn end_of_stream(buffer: Seq<u8>) -> Result<(), PipeError> {
    if buffer.len() == 0 {
        Ok(())
    } else if buffer.len() < 4 {
        Err(PipeError::TruncatedHeader { available: buffer.len() as usize })
    } else {
        Err(
            PipeError::TruncatedPayload {
                expected: announced_len(buffer) as usize,
                available: (buffer.len() - 4) as usize,
            },
        )
    }
}

proof fn lemma_le_roundtrip(n: u32)
    ensures
        le_value(le_bytes(n)) == n,
        le_bytes(n).len() == 4,
{
    let b0 = (n & 0xff) as u8;
    let b1 = ((n >> 8) & 0xff) as u8;
    let b2 = ((n >> 16) & 0xff) as u8;
    let b3 = ((n >> 24) & 0xff) as u8;
    assert(n & 0xff < 256 && (n >> 8) & 0xff < 256 && (n >> 16) & 0xff < 256 && (n >> 24) & 0xff
        < 256) by (bit_vector);
    assert(n == (n & 0xff) + 256 * ((n >> 8) & 0xff) + 65536 * ((n >> 16) & 0xff) + 16777216 * ((n
        >> 24) & 0xff)) by (bit_vector);
    assert(le_bytes(n)[0] == b0 && le_bytes(n)[1] == b1 && le_bytes(n)[2] == b2 && le_bytes(n)[3]
        == b3);
}

/// Decode a four-byte little-endian header.
pub fn header_value(b0: u8, b1: u8, b2: u8, b3: u8) -> (n: u32)
    ensures
        n == le_value(seq![b0, b1, b2, b3]),
{
    b0 as u32 + 256 * (b1 as u32) + 65536 * (b2 as u32) + 16777216 * (b3 as u32)
}

/// Build the frame that carries `payload`: a little-endian `u32` length
/// followed by the payload.
pub fn encode_frame(payload: &[u8]) -> (frame: Vec<u8>)
    ensures
        frame@ == frame_of(payload@),
{
    let n = payload.len() as u32;
    let mut frame: Vec<u8> = Vec::new();
    frame.push((n & 0xff) as u8);
    frame.push(((n >> 8) & 0xff) as u8);
    frame.push(((n >> 16) & 0xff) as u8);
    frame.push(((n >> 24) & 0xff) as u8);
    let mut i: usize = 0;
    while i < payload.len()
        invariant
            i <= payload@.len(),
            frame@ == le_bytes(n) + payload@.subrange(0, i as int),
            n == payload@.len() as u32,
        decreases payload@.len() - i,
    {
        frame.push(payload[i]);
        i = i + 1;
        assert(payload@.subrange(0, i as int) == payload@.subrange(0, i - 1).push(payload@[i - 1]));
    }
    assert(payload@.subrange(0, payload@.len() as int) == payload@);
    frame
}

/// Check a header of a blocking read: `header_read` bytes of `header` arrived
/// before end of stream. A clean end before any byte gives `Ok(None)`;
/// otherwise the announced payload length, or why it is unacceptable.
pub fn check_header(header_read: usize, header: [u8; 4], max: usize) -> (r: Result<
    Option<usize>,
    PipeError,
>)
    requires
        header_read <= 4,
    ensures
        header_read == 0 ==> r == Ok::<Option<usize>, PipeError>(None),
        0 < header_read < 4 ==> r == Err::<Option<usize>, PipeError>(
            PipeError::TruncatedHeader { available: header_read },
        ),
        header_read == 4 ==> match front_frame(header@, max) {
            Err(e) => r == Err::<Option<usize>, PipeError>(e),
            Ok(_) => r == Ok::<Option<usize>, PipeError>(Some(le_value(header@) as usize)),
        },
{
    if header_read == 0 {
        return Ok(None);
    }
    if header_read != 4 {
        return Err(PipeError::TruncatedHeader { available: header_read });
    }
    let n = header_value(header[0], header[1], header[2], header[3]);
    proof {
        assert(header@.subrange(0, 4) == header@);
        assert(header@ == seq![header@[0], header@[1], header@[2], header@[3]]);
    }
    validate_length(n, max)
}

/// Reject a zero or oversize announced payload length.
fn validate_length(n: u32, max: usize) -> (r: Result<Option<usize>, PipeError>)
    ensures
        n == 0 ==> r == Err::<Option<usize>, PipeError>(PipeError::Wire(WireError::InvalidFrameLength)),
        n != 0 && n > max ==> r == Err::<Option<usize>, PipeError>(
            PipeError::Wire(WireError::SizeExceeded { actual: n as usize, max }),
        ),
        n != 0 && n <= max ==> r == Ok::<Option<usize>, PipeError>(Some(n as usize)),
{
    let payload_len = n as usize;
    if payload_len == 0 {
        return Err(PipeError::Wire(WireError::InvalidFrameLength));
    }
    if payload_len > max {
        return Err(PipeError::Wire(WireError::SizeExceeded { actual: payload_len, max }));
    }
    Ok(Some(payload_len))
}

/// Check the payload of a blocking read: `read` of `expected` bytes arrived.
pub fn check_payload(expected: usize, read: usize) -> (r: Result<(), PipeError>)
    ensures
        read == expected ==> r == Ok::<(), PipeError>(()),
        read != expected ==> r == Err::<(), PipeError>(
            PipeError::TruncatedPayload { expected, available: read },
        ),
{
    if read != expected {
        Err(PipeError::TruncatedPayload { expected, available: read })
    } else {
        Ok(())
    }
}

} // verus!

verus! {

/// The outcome of one read from the underlying pipe, as the caller saw it.
#[derive(Clone, Debug, PartialEq, Eq)]
pub enum ReadOutcome {
    /// The read returned these bytes (never empty).
    Data(Vec<u8>),
    /// The read returned zero bytes: the other end closed the pipe.
    EndOfStream,
    /// The read would have blocked.
    WouldBlock,
    /// The read was interrupted and may be retried.
    Interrupted,
    /// The read failed with this message.
    Failed(String),
}

/// How the caller waits for data.
#[derive(Clone, Copy, Debug, PartialEq, Eq)]
pub enum ReadMode {
    /// Return as soon as a read would block; a clean end of stream before any
    /// byte means the pipe disconnected.
    NonBlocking,
    /// Keep waiting until the deadline; `expired` tells whether it has passed.
    Deadline { expired: bool },
}

/// What the caller does after handing a read outcome to the reader.
#[derive(Clone, Debug, PartialEq, Eq)]
pub enum ReadStep {
    /// Look for a complete frame again, then read again.
    Again,
    /// Sleep briefly, then continue as for `Again`.
    Pause,
    /// Return "no message" to the caller.
    NoMessage,
    /// Return this error to the caller.
    Fail(PipeError),
}

/// The step that follows a read outcome, given the bytes buffered before it.
pub open spec fn spec_read_step(buffer: Seq<u8>, outcome: ReadOutcome, mode: ReadMode) -> ReadStep {
    match outcome {
        ReadOutcome::Data(_) => ReadStep::Again,
        ReadOutcome::Interrupted => ReadStep::Again,
        ReadOutcome::Failed(message) => ReadStep::Fail(PipeError::Io(message)),
        ReadOutcome::WouldBlock => match mode {
            ReadMode::NonBlocking => ReadStep::NoMessage,
            ReadMode::Deadline { expired } => if expired {
                ReadStep::Fail(PipeError::TimedOut)
            } else {
                ReadStep::Pause
            },
        },
        ReadOutcome::EndOfStream => if buffer.len() == 0 && mode == ReadMode::NonBlocking {
            ReadStep::Fail(PipeError::Disconnected)
        } else {
            match end_of_stream(buffer) {
                Ok(()) => ReadStep::NoMessage,
                Err(e) => ReadStep::Fail(e),
            }
        },
    }
}

/// The bytes that a read outcome adds to the buffer.
pub open spec fn outcome_bytes(outcome: ReadOutcome) -> Seq<u8> {
    match outcome {
        ReadOutcome::Data(bytes) => bytes@,
        _ => Seq::<u8>::empty(),
    }
}

/// Reads length-prefixed frames, keeping partial frames between calls.
pub struct PipeReader<R> {
    inner: R,
    buffer: Vec<u8>,
}

impl<R> PipeReader<R> {
    /// The bytes received but not yet consumed as frames.
    pub closed spec fn pending(&self) -> Seq<u8> {
        self.buffer@
    }

    /// The underlying pipe.
    pub closed spec fn pipe(&self) -> R {
        self.inner
    }

    pub fn new(inner: R) -> (reader: Self)
        ensures
            reader.pending() == Seq::<u8>::empty(),
            reader.pipe() == inner,
    {
        PipeReader { inner, buffer: Vec::new() }
    }

    pub fn get_ref(&self) -> (inner: &R)
        ensures
            *inner == self.pipe(),
    {
        &self.inner
    }

    /// Mutable access to the underlying pipe, for the caller's reads.
    pub fn get_mut(&mut self) -> (inner: &mut R)
        ensures
            *inner == old(self).pipe(),
            final(self).pipe() == *final(inner),
            final(self).pending() == old(self).pending(),
    {
        &mut self.inner
    }

    /// The complete frame at the front of the pending bytes, if any: its
    /// payload, without consuming it. The caller decodes the payload and, when
    /// decoding succeeds, consumes the frame with `consume_frame`.
    pub fn peek_frame(&self, max: usize) -> (r: Result<Option<Vec<u8>>, PipeError>)
        ensures
            match front_frame(self.pending(), max) {
                Err(e) => r == Err::<Option<Vec<u8>>, PipeError>(e),
                Ok(None) => r matches Ok(None),
                Ok(Some(n)) => r matches Ok(Some(payload)) && payload@ == self.pending().subrange(4, 4 + n),
            },
    {
        if self.buffer.len() < HEADER_LEN {
            return Ok(None);
        }
        let n = header_value(self.buffer[0], self.buffer[1], self.buffer[2], self.buffer[3]);
        proof {
            let b = self.buffer@;
            assert(b.subrange(0, 4) == seq![b[0], b[1], b[2], b[3]]);
        }
        let payload_len = match validate_length(n, max) {
            Err(e) => return Err(e),
            Ok(None) => return Ok(None),
            Ok(Some(len)) => len,
        };
        if self.buffer.len() - HEADER_LEN < payload_len {
            return Ok(None);
        }
        let end = HEADER_LEN + payload_len;
        let mut payload: Vec<u8> = Vec::new();
        let mut i: usize = HEADER_LEN;
        while i < end
            invariant
                HEADER_LEN <= i <= end,
                end <= self.buffer@.len(),
                payload@ == self.buffer@.subrange(4, i as int),
            decreases end - i,
        {
            payload.push(self.buffer[i]);
            i = i + 1;
            assert(self.buffer@.subrange(4, i as int) == self.buffer@.subrange(4, i - 1).push(
                self.buffer@[i - 1],
            ));
        }
        Ok(Some(payload))
    }

    /// Drop the complete frame at the front of the pending bytes.
    pub fn consume_frame(&mut self)
        requires
            old(self).pending().len() >= 4,
            4 + announced_len(old(self).pending()) <= old(self).pending().len(),
        ensures
            final(self).pending() == old(self).pending().subrange(
                4 + announced_len(old(self).pending()),
                old(self).pending().len() as int,
            ),
            final(self).pipe() == old(self).pipe(),
    {
        let n = header_value(self.buffer[0], self.buffer[1], self.buffer[2], self.buffer[3]);
        proof {
            let b = self.buffer@;
            assert(b.subrange(0, 4) == seq![b[0], b[1], b[2], b[3]]);
            assert(n == announced_len(b));
        }
        let pending = self.buffer.len();
        assert(HEADER_LEN + n <= pending);
        let end = HEADER_LEN + n as usize;
        let rest = self.buffer.split_off(end);
        self.buffer = rest;
    }

    /// What end of stream means for the pending bytes.
    pub fn eof_result(&self) -> (r: Result<(), PipeError>)
        ensures
            r == end_of_stream(self.pending()),
    {
        let available = self.buffer.len();
        if available == 0 {
            Ok(())
        } else if available < HEADER_LEN {
            Err(PipeError::TruncatedHeader { available })
        } else {
            let n = header_value(self.buffer[0], self.buffer[1], self.buffer[2], self.buffer[3]);
            proof {
                let b = self.buffer@;
                assert(b.subrange(0, 4) == seq![b[0], b[1], b[2], b[3]]);
            }
            Err(PipeError::TruncatedPayload { expected: n as usize, available: available - HEADER_LEN })
        }
    }

    /// Take in the outcome of one read and decide what the caller does next.
    /// Received bytes are appended to the pending bytes.
    pub fn absorb(&mut self, outcome: ReadOutcome, mode: ReadMode) -> (step: ReadStep)
        ensures
            final(self).pending() == old(self).pending() + outcome_bytes(outcome),
            final(self).pipe() == old(self).pipe(),
            step == spec_read_step(old(self).pending(), outcome, mode),
    {
        match outcome {
            ReadOutcome::Data(bytes) => {
                let ghost before = self.buffer@;
                let mut i: usize = 0;
                while i < bytes.len()
                    invariant
                        i <= bytes@.len(),
                        self.buffer@ == before + bytes@.subrange(0, i as int),
                        self.inner == old(self).inner,
                    decreases bytes@.len() - i,
                {
                    self.buffer.push(bytes[i]);
                    i = i + 1;
                    assert(bytes@.subrange(0, i as int) == bytes@.subrange(0, i - 1).push(
                        bytes@[i - 1],
                    ));
                }
                assert(bytes@.subrange(0, bytes@.len() as int) == bytes@);
                ReadStep::Again
            },
            ReadOutcome::Interrupted => ReadStep::Again,
            ReadOutcome::Failed(message) => ReadStep::Fail(PipeError::Io(message)),
            ReadOutcome::WouldBlock => match mode {
                ReadMode::NonBlocking => ReadStep::NoMessage,
                ReadMode::Deadline { expired } => if expired {
                    ReadStep::Fail(PipeError::TimedOut)
                } else {
                    ReadStep::Pause
                },
            },
            ReadOutcome::EndOfStream => {
                let nonblocking = match mode {
                    ReadMode::NonBlocking => true,
                    ReadMode::Deadline { .. } => false,
                };
                if self.buffer.len() == 0 && nonblocking {
                    ReadStep::Fail(PipeError::Disconnected)
                } else {
                    match self.eof_result() {
                        Ok(()) => ReadStep::NoMessage,
                        Err(e) => ReadStep::Fail(e),
                    }
                }
            },
        }
    }
}

/// Writes length-prefixed frames to the underlying pipe.
pub struct PipeWriter<W> {
    inner: W,
}

impl<W> PipeWriter<W> {
    /// The underlying pipe.
    pub closed spec fn pipe(&self) -> W {
        self.inner
    }

    pub fn new(inner: W) -> (writer: Self)
        ensures
            writer.pipe() == inner,
    {
        PipeWriter { inner }
    }

    pub fn get_ref(&self) -> (inner: &W)
        ensures
            *inner == self.pipe(),
    {
        &self.inner
    }

    /// Mutable access to the underlying pipe, for the caller's writes.
    pub fn get_mut(&mut self) -> (inner: &mut W)
        ensures
            *inner == old(self).pipe(),
            final(self).pipe() == *final(inner),
    {
        &mut self.inner
    }

    /// The frame to write for an encoded message.
    pub fn frame(&self, payload: &[u8]) -> (frame: Vec<u8>)
        ensures
            frame@ == frame_of(payload@),
    {
        encode_frame(payload)
    }
}

} // verus!

verus! {

/// A frame written for a payload is read back as exactly that payload, and
/// whatever follows it stays pending: frames written one after another are
/// read back one after another, in order.
pub proof fn lemma_frame_roundtrip(payload: Seq<u8>, rest: Seq<u8>, max: usize)
    requires
        1 <= payload.len() <= max,
        payload.len() <= u32::MAX,
    ensures
        front_frame(frame_of(payload) + rest, max) == Ok::<Option<int>, PipeError>(
            Some(payload.len() as int),
        ),
        announced_len(frame_of(payload) + rest) == payload.len(),
        (frame_of(payload) + rest).subrange(4, 4 + payload.len() as int) == payload,
        (frame_of(payload) + rest).subrange(
            4 + payload.len() as int,
            (frame_of(payload) + rest).len() as int,
        ) == rest,
{
    let n = payload.len() as u32;
    lemma_le_roundtrip(n);
    let all = frame_of(payload) + rest;
    assert(all.subrange(0, 4) == le_bytes(n));
    assert(all.subrange(4, 4 + payload.len() as int) == payload);
    assert(all.subrange(4 + payload.len() as int, all.len() as int) == rest);
}

/// No strict prefix of a well-formed frame is mistaken for a frame: a
/// partially written frame is not visible to the reader.
pub proof fn lemma_partial_frame_invisible(payload: Seq<u8>, k: int, max: usize)
    requires
        1 <= payload.len() <= max,
        payload.len() <= u32::MAX,
        0 <= k < frame_of(payload).len(),
    ensures
        front_frame(frame_of(payload).subrange(0, k), max) == Ok::<Option<int>, PipeError>(None),
{
    let n = payload.len() as u32;
    lemma_le_roundtrip(n);
    let part = frame_of(payload).subrange(0, k);
    if k >= 4 {
        assert(part.subrange(0, 4) == le_bytes(n));
    }
}

/// A frame is four header bytes longer than its payload.
pub proof fn lemma_frame_len(payload: Seq<u8>)
    ensures
        frame_of(payload).len() == 4 + payload.len(),
{
    lemma_le_roundtrip(payload.len() as u32);
}

/// The frames of the payloads, one after another.
pub open spec fn frames_of(ps: Seq<Seq<u8>>) -> Seq<u8>
    decreases ps.len(),
{
    if ps.len() == 0 {
        Seq::empty()
    } else {
        frame_of(ps[0]) + frames_of(ps.subrange(1, ps.len() as int))
    }
}

/// Payloads that frames may carry for a codec that accepts at most `max`
/// payload bytes.
pub open spec fn payloads_fit(ps: Seq<Seq<u8>>, max: usize) -> bool {
    forall|i: int| 0 <= i < ps.len() ==> 1 <= (#[trigger] ps[i]).len() <= max && ps[i].len() <= u32::MAX
}

/// What a reader takes out of `buffer` by looking at the front frame and
/// consuming it until no complete frame is left: the payloads, in order,
/// and the bytes that stay pending.
pub open spec fn frames_read(buffer: Seq<u8>, max: usize) -> (Seq<Seq<u8>>, Seq<u8>)
    decreases buffer.len(),
{
    match front_frame(buffer, max) {
        Ok(Some(n)) => if 1 <= n && 4 + n <= buffer.len() {
            let rest = frames_read(buffer.subrange(4 + n, buffer.len() as int), max);
            (seq![buffer.subrange(4, 4 + n)] + rest.0, rest.1)
        } else {
            (Seq::empty(), buffer)
        },
        _ => (Seq::empty(), buffer),
    }
}

proof fn lemma_frames_of_take(ps: Seq<Seq<u8>>, j: int)
    requires
        1 <= j <= ps.len(),
    ensures
        frames_of(ps.take(j)) == frame_of(ps[0]) + frames_of(ps.subrange(1, ps.len() as int).take(
            j - 1,
        )),
{
    assert(ps.take(j)[0] == ps[0]);
    assert(ps.take(j).subrange(1, j) == ps.subrange(1, ps.len() as int).take(j - 1));
}

/// Whatever part of a stream of frames has arrived, in whatever pieces,
/// the reader takes out exactly the frames that arrived whole, in the order
/// they were written, and keeps the rest pending; once the whole stream has
/// arrived it takes out every payload and nothing stays pending. So a
/// partial frame followed later by its remainder gives that frame's payload.
pub proof fn lemma_frames_read_back(ps: Seq<Seq<u8>>, j: int, m: int, max: usize)
    requires
        payloads_fit(ps, max),
        0 <= j <= ps.len(),
        frames_of(ps.take(j)).len() <= m <= frames_of(ps).len(),
        j < ps.len() ==> m < frames_of(ps.take(j + 1)).len(),
        j == ps.len() ==> m == frames_of(ps).len(),
    ensures
        frames_read(frames_of(ps).take(m), max) == (
            ps.take(j),
            frames_of(ps).subrange(frames_of(ps.take(j)).len() as int, m),
        ),
    decreases ps.len(),
{
    let all = frames_of(ps);
    if ps.len() == 0 {
        assert(ps.take(0) =~= ps);
        assert(all.take(m) =~= all.subrange(0, m));
        assert(front_frame(all.take(m), max) == Ok::<Option<int>, PipeError>(None));
        return;
    }
    let p0 = ps[0];
    let tail = ps.subrange(1, ps.len() as int);
    let f0 = frame_of(p0);
    lemma_frame_len(p0);
    assert(all == f0 + frames_of(tail));
    assert(payloads_fit(tail, max)) by {
        assert forall|i: int| 0 <= i < tail.len() implies 1 <= (#[trigger] tail[i]).len() <= max
            && tail[i].len() <= u32::MAX by {
            assert(tail[i] == ps[i + 1]);
        }
    }
    if j == 0 {
        lemma_frames_of_take(ps, 1);
        assert(tail.take(0) =~= Seq::<Seq<u8>>::empty());
        assert(frames_of(ps.take(1)) =~= f0);
        assert(ps.take(0) =~= Seq::<Seq<u8>>::empty());
        assert(all.take(m) =~= f0.subrange(0, m));
        lemma_partial_frame_invisible(p0, m, max);
        assert(frames_of(ps.take(0)) =~= Seq::<u8>::empty());
        assert(all.subrange(0, m) =~= all.take(m));
    } else {
        lemma_frames_of_take(ps, j);
        let rest = frames_of(tail).take(m - f0.len());
        assert(all.take(m) =~= f0 + rest);
        lemma_frame_roundtrip(p0, rest, max);
        assert((f0 + rest).subrange(4 + p0.len() as int, (f0 + rest).len() as int) =~= rest);
        if j < ps.len() {
            lemma_frames_of_take(ps, j + 1);
            assert(tail.take(j) =~= tail.take(j - 1 + 1));
        } else {
            assert(tail.take(j - 1) =~= tail);
            assert(ps.take(j) =~= ps);
        }
        lemma_frames_read_back(tail, j - 1, m - f0.len(), max);
        assert(ps.take(j) =~= seq![p0] + tail.take(j - 1));
        assert(all.subrange(frames_of(ps.take(j)).len() as int, m) =~= frames_of(tail).subrange(
            frames_of(tail.take(j - 1)).len() as int,
            m - f0.len(),
        ));
    }
}

} // verus!
