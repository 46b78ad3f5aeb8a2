//! Errors of the pipe framing layer, with the messages they display.

use crate::row_text::decimal;
use crate::text::append_decimal;
use vstd::prelude::*;
use vstd::string::StringExecFns;

verus! {

/// Errors detected by the length-prefixed wire framing.
#[derive(Clone, Debug, PartialEq, Eq)]
pub enum WireError {
    /// A frame announced a payload of zero bytes.
    InvalidFrameLength,
    /// A frame announced more payload bytes than the codec accepts.
    SizeExceeded { actual: usize, max: usize },
    /// The payload codec rejected the bytes of a frame.
    Malformed(String),
}

/// Errors of the pipe reader and writer.
#[derive(Clone, Debug, PartialEq, Eq)]
pub enum PipeError {
    Io(String),
    Wire(WireError),
    Disconnected,
    TimedOut,
    TruncatedHeader { available: usize },
    TruncatedPayload { expected: usize, available: usize },
    BufferTooSmall { needed: usize, have: usize },
}

pub open spec fn wire_error_message(e: WireError) -> Seq<char> {
    match e {
        WireError::InvalidFrameLength => "invalid frame length"@,
        WireError::SizeExceeded { actual, max } => "frame of "@ + decimal(actual as nat) + " bytes exceeds the limit of "@
            + decimal(max as nat),
        WireError::Malformed(detail) => "malformed message: "@ + detail@,
    }
}

pub open spec fn pipe_error_message(e: PipeError) -> Seq<char> {
    match e {
        PipeError::Io(detail) => "I/O error: "@ + detail@,
        PipeError::Wire(w) => "wire error: "@ + wire_error_message(w),
        PipeError::Disconnected => "pipe disconnected"@,
        PipeError::TimedOut => "pipe read timed out"@,
        PipeError::TruncatedHeader { available } => "truncated frame header: read "@ + decimal(available as nat)
            + " of 4 bytes"@,
        PipeError::TruncatedPayload { expected, available } => "truncated frame payload: expected "@ + decimal(
            expected as nat,
        ) + " bytes, read "@ + decimal(available as nat),
        PipeError::BufferTooSmall { needed, have } => "buffer too small: need "@ + decimal(needed as nat)
            + ", have "@ + decimal(have as nat),
    }
}

impl WireError {
    /// The message this error displays.
    pub fn message(&self) -> (m: String)
        ensures
            m@ == wire_error_message(*self),
    {
        match self {
            WireError::InvalidFrameLength => String::from_str("invalid frame length"),
            WireError::SizeExceeded { actual, max } => {
                let mut m = String::from_str("frame of ");
                append_decimal(&mut m, *actual as u64);
                m.append(" bytes exceeds the limit of ");
                append_decimal(&mut m, *max as u64);
                m
            },
            WireError::Malformed(detail) => {
                let mut m = String::from_str("malformed message: ");
                m.append(detail.as_str());
                m
            },
        }
    }
}

impl PipeError {
    /// The message this error displays.
    pub fn message(&self) -> (m: String)
        ensures
            m@ == pipe_error_message(*self),
    {
        match self {
            PipeError::Io(detail) => {
                let mut m = String::from_str("I/O error: ");
                m.append(detail.as_str());
                m
            },
            PipeError::Wire(w) => {
                let mut m = String::from_str("wire error: ");
                let inner = w.message();
                m.append(inner.as_str());
                m
            },
            PipeError::Disconnected => String::from_str("pipe disconnected"),
            PipeError::TimedOut => String::from_str("pipe read timed out"),
            PipeError::TruncatedHeader { available } => {
                let mut m = String::from_str("truncated frame header: read ");
                append_decimal(&mut m, *available as u64);
                m.append(" of 4 bytes");
                m
            },
            PipeError::TruncatedPayload { expected, available } => {
                let mut m = String::from_str("truncated frame payload: expected ");
                append_decimal(&mut m, *expected as u64);
                m.append(" bytes, read ");
                append_decimal(&mut m, *available as u64);
                m
            },
            PipeError::BufferTooSmall { needed, have } => {
                let mut m = String::from_str("buffer too small: need ");
                append_decimal(&mut m, *needed as u64);
                m.append(", have ");
                append_decimal(&mut m, *have as u64);
                m
            },
        }
    }
}

} // verus!
