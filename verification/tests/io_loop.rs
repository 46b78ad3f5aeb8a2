use cheime_tip::error::PipeError;
use cheime_tip::io_loop::{
    after_handshake, after_read, after_write_failure, ConnectionStatus, EngineMessageKind,
    IoAction, ReadResult, DISCONNECT_PAUSE_MS, HANDSHAKE_RETRY_MS,
};
use cheime_tip::model::MessageHeader;
use cheime_tip::session::{AcknowledgedState, FrontendSession, CORE_PROTOCOL_VERSION};

fn session() -> FrontendSession {
    FrontendSession::new(AcknowledgedState {
        client: 42,
        session: 7,
        epoch: 8,
        revision: 9,
        deployment: 6,
    })
}

fn header(revision: u64) -> MessageHeader {
    MessageHeader {
        protocol_version: CORE_PROTOCOL_VERSION,
        client: 42,
        session: 7,
        epoch: 8,
        sequence: 3,
        revision,
        deployment: 6,
    }
}

#[test]
fn accepted_messages_are_dispatched_by_kind() {
    let mut s = session();
    let snapshot = ReadResult::Message { kind: EngineMessageKind::CandidateSnapshot, header: Some(header(10)) };
    assert_eq!(after_read(&mut s, snapshot), IoAction::PostSnapshot);
    let action = ReadResult::Message { kind: EngineMessageKind::PlatformAction, header: Some(header(10)) };
    assert_eq!(after_read(&mut s, action), IoAction::PostAction);
    let other = ReadResult::Message { kind: EngineMessageKind::Other, header: Some(header(11)) };
    assert_eq!(after_read(&mut s, other), IoAction::KeepReading);
    assert_eq!(s.prepare().revision, 11);
}

#[test]
fn foreign_or_stale_messages_drop_the_connection() {
    let mut s = session();
    let stale = ReadResult::Message { kind: EngineMessageKind::CandidateSnapshot, header: Some(header(8)) };
    assert_eq!(after_read(&mut s, stale), IoAction::Reconnect { pause_ms: 0, status: None });
    let rejected = ReadResult::Message { kind: EngineMessageKind::Other, header: None };
    assert_eq!(after_read(&mut s, rejected), IoAction::Reconnect { pause_ms: 0, status: None });
    assert_eq!(s.prepare().revision, 9);
}

#[test]
fn timeouts_keep_reading_and_disconnects_report() {
    let mut s = session();
    assert_eq!(after_read(&mut s, ReadResult::Failed(PipeError::TimedOut)), IoAction::KeepReading);
    let gone = IoAction::Reconnect {
        pause_ms: DISCONNECT_PAUSE_MS,
        status: Some(ConnectionStatus::EngineDisconnected),
    };
    assert_eq!(after_read(&mut s, ReadResult::EndOfStream), gone);
    assert_eq!(after_read(&mut s, ReadResult::Failed(PipeError::Disconnected)), gone);
    assert_eq!(
        after_read(&mut s, ReadResult::Failed(PipeError::TruncatedHeader { available: 1 })),
        IoAction::Reconnect { pause_ms: 0, status: None }
    );
}

#[test]
fn write_and_handshake_outcomes() {
    assert_eq!(
        after_write_failure(),
        IoAction::Reconnect { pause_ms: 0, status: Some(ConnectionStatus::WriteError) }
    );
    assert_eq!(after_handshake(true), Ok(ConnectionStatus::Connected));
    assert_eq!(
        after_handshake(false),
        Err(IoAction::Reconnect { pause_ms: HANDSHAKE_RETRY_MS, status: None })
    );
    assert_eq!(ConnectionStatus::Connected.report(), (true, "connected"));
    assert_eq!(ConnectionStatus::WriteError.report(), (false, "write error"));
    assert_eq!(ConnectionStatus::EngineDisconnected.report(), (false, "engine disconnected"));
}
