use cheime_tip::error::{PipeError, WireError};
use cheime_tip::framing::{
    check_header, check_payload, encode_frame, header_value, PipeReader, PipeWriter, ReadMode,
    ReadOutcome, ReadStep,
};

fn reader_with(bytes: &[u8]) -> PipeReader<()> {
    let mut reader = PipeReader::new(());
    if !bytes.is_empty() {
        assert_eq!(
            reader.absorb(ReadOutcome::Data(bytes.to_vec()), ReadMode::NonBlocking),
            ReadStep::Again
        );
    }
    reader
}

#[test]
fn write_then_read_single_message() {
    let frame = PipeWriter::new(()).frame(b"hello");
    assert_eq!(frame, vec![5, 0, 0, 0, b'h', b'e', b'l', b'l', b'o']);
    let mut reader = reader_with(&frame);
    assert_eq!(reader.peek_frame(1024), Ok(Some(b"hello".to_vec())));
    reader.consume_frame();
    assert_eq!(reader.peek_frame(1024), Ok(None));
}

#[test]
fn read_multiple_messages_from_backlog() {
    let mut bytes = encode_frame(b"one");
    bytes.extend(encode_frame(b"two"));
    let mut reader = reader_with(&bytes);
    assert_eq!(reader.peek_frame(1024), Ok(Some(b"one".to_vec())));
    reader.consume_frame();
    assert_eq!(reader.peek_frame(1024), Ok(Some(b"two".to_vec())));
    reader.consume_frame();
    assert_eq!(reader.peek_frame(1024), Ok(None));
}

#[test]
fn empty_buffer_returns_none() {
    let mut reader = reader_with(&[]);
    assert_eq!(reader.peek_frame(1024), Ok(None));
    assert_eq!(reader.absorb(ReadOutcome::WouldBlock, ReadMode::NonBlocking), ReadStep::NoMessage);
}

#[test]
fn disconnection_detected() {
    let mut reader = reader_with(&[]);
    assert_eq!(
        reader.absorb(ReadOutcome::EndOfStream, ReadMode::NonBlocking),
        ReadStep::Fail(PipeError::Disconnected)
    );
}

#[test]
fn partial_write_not_visible_to_reader() {
    let frame = encode_frame(b"hello");
    let mut reader = reader_with(&frame[..6]);
    assert_eq!(reader.peek_frame(1024), Ok(None));
    reader.absorb(ReadOutcome::Data(frame[6..].to_vec()), ReadMode::NonBlocking);
    assert_eq!(reader.peek_frame(1024), Ok(Some(b"hello".to_vec())));
}

#[test]
fn blocking_read_distinguishes_clean_eof_from_truncated_header() {
    assert_eq!(check_header(0, [0; 4], 16), Ok(None));
    assert_eq!(
        check_header(2, [1, 0, 0, 0], 16),
        Err(PipeError::TruncatedHeader { available: 2 })
    );
    assert_eq!(check_header(4, [3, 0, 0, 0], 16), Ok(Some(3)));
}

#[test]
fn blocking_read_rejects_truncated_payload() {
    assert_eq!(
        check_payload(10, 3),
        Err(PipeError::TruncatedPayload { expected: 10, available: 3 })
    );
    assert_eq!(check_payload(10, 10), Ok(()));
}

#[test]
fn blocking_read_rejects_zero_and_oversize_before_payload_read() {
    assert_eq!(
        check_header(4, [0, 0, 0, 0], 16),
        Err(PipeError::Wire(WireError::InvalidFrameLength))
    );
    assert_eq!(
        check_header(4, [17, 0, 0, 0], 16),
        Err(PipeError::Wire(WireError::SizeExceeded { actual: 17, max: 16 }))
    );
    let reader = reader_with(&[0, 0, 0, 0]);
    assert_eq!(
        reader.peek_frame(16),
        Err(PipeError::Wire(WireError::InvalidFrameLength))
    );
}

#[test]
fn deadline_read_is_bounded_and_preserves_partial_header() {
    let mut reader = reader_with(&[5, 0]);
    assert_eq!(
        reader.absorb(ReadOutcome::WouldBlock, ReadMode::Deadline { expired: false }),
        ReadStep::Pause
    );
    assert_eq!(
        reader.absorb(ReadOutcome::WouldBlock, ReadMode::Deadline { expired: true }),
        ReadStep::Fail(PipeError::TimedOut)
    );
    reader.absorb(ReadOutcome::Data(vec![0, 0, b'a', b'b', b'c', b'd', b'e']), ReadMode::NonBlocking);
    assert_eq!(reader.peek_frame(16), Ok(Some(b"abcde".to_vec())));
}

#[test]
fn buffered_reader_reports_truncated_eof() {
    let mut reader = reader_with(&[5, 0, 0]);
    assert_eq!(
        reader.absorb(ReadOutcome::EndOfStream, ReadMode::Deadline { expired: false }),
        ReadStep::Fail(PipeError::TruncatedHeader { available: 3 })
    );
    let mut reader = reader_with(&[5, 0, 0, 0, 1]);
    assert_eq!(reader.eof_result(), Err(PipeError::TruncatedPayload { expected: 5, available: 1 }));
    assert_eq!(
        reader.absorb(ReadOutcome::EndOfStream, ReadMode::NonBlocking),
        ReadStep::Fail(PipeError::TruncatedPayload { expected: 5, available: 1 })
    );
}

#[test]
fn io_failures_and_interruptions() {
    let mut reader = reader_with(&[]);
    assert_eq!(reader.absorb(ReadOutcome::Interrupted, ReadMode::NonBlocking), ReadStep::Again);
    assert_eq!(
        reader.absorb(ReadOutcome::Failed("boom".into()), ReadMode::NonBlocking),
        ReadStep::Fail(PipeError::Io("boom".into()))
    );
    assert_eq!(
        reader.absorb(ReadOutcome::EndOfStream, ReadMode::Deadline { expired: false }),
        ReadStep::NoMessage
    );
}

#[test]
fn headers_are_little_endian() {
    assert_eq!(header_value(0x78, 0x56, 0x34, 0x12), 0x1234_5678);
    assert_eq!(encode_frame(&[9; 300])[..4], [44, 1, 0, 0]);
}

#[test]
fn blocking_read_accepts_chunked_header_and_byte_payload() {
    let frame = encode_frame(b"ni hao");
    let mut chunks: Vec<&[u8]> = vec![&frame[..1], &frame[1..2], &frame[2..4]];
    for i in 4..frame.len() {
        chunks.push(&frame[i..i + 1]);
    }
    let mut reader = PipeReader::new(());
    let mut got = None;
    for chunk in chunks {
        assert_eq!(reader.peek_frame(1024), Ok(None));
        let step = reader.absorb(ReadOutcome::Data(chunk.to_vec()), ReadMode::Deadline { expired: false });
        assert_eq!(step, ReadStep::Again);
        if let Ok(Some(payload)) = reader.peek_frame(1024) {
            got = Some(payload);
        }
    }
    assert_eq!(got, Some(b"ni hao".to_vec()));
}

#[test]
fn blocking_read_preserves_multiple_frames() {
    let mut bytes = encode_frame(b"first");
    bytes.extend(encode_frame(b"second"));
    let mut reader = reader_with(&bytes);
    assert_eq!(reader.peek_frame(1024), Ok(Some(b"first".to_vec())));
    reader.consume_frame();
    assert_eq!(reader.peek_frame(1024), Ok(Some(b"second".to_vec())));
    reader.consume_frame();
    assert_eq!(reader.peek_frame(1024), Ok(None));
    assert_eq!(
        reader.absorb(ReadOutcome::EndOfStream, ReadMode::Deadline { expired: false }),
        ReadStep::NoMessage
    );
}

#[test]
fn deadline_timeout_preserves_partial_frame_for_next_call() {
    let frame = encode_frame(b"q");
    let mut reader = PipeReader::new(());
    reader.absorb(ReadOutcome::Data(frame[..2].to_vec()), ReadMode::Deadline { expired: true });
    assert_eq!(reader.peek_frame(1024), Ok(None));
    assert_eq!(
        reader.absorb(ReadOutcome::WouldBlock, ReadMode::Deadline { expired: true }),
        ReadStep::Fail(PipeError::TimedOut)
    );
    reader.absorb(ReadOutcome::Data(frame[2..4].to_vec()), ReadMode::Deadline { expired: false });
    reader.absorb(ReadOutcome::Data(frame[4..].to_vec()), ReadMode::Deadline { expired: false });
    assert_eq!(reader.peek_frame(1024), Ok(Some(b"q".to_vec())));
}
