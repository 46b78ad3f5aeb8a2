use cheime_tip::error::{PipeError, WireError};
use cheime_tip::model::MessageHeader;
use cheime_tip::session::{
    client_instance_id, connection_identity, handshake_read_error, judge_client_hello,
    validate_handshake, ClientHelloVerdict, FrontendSession, HelloAck, RunnerError, ServerError,
    ServerHello, CORE_PROTOCOL_VERSION,
};

fn hello(deployment: u64) -> ServerHello {
    ServerHello {
        protocol_version: CORE_PROTOCOL_VERSION,
        engine_version: "test".into(),
        deployment_generation: deployment,
    }
}

fn ack(client: u64, deployment: u64) -> HelloAck {
    HelloAck {
        client_instance_id: client,
        session_id: 7,
        session_epoch: 8,
        initial_revision: 9,
        deployment_generation: deployment,
        session_id_base: 7,
    }
}

#[test]
fn matching_ack_installs_negotiated_identity() {
    let state = validate_handshake(&hello(6), 42, &ack(42, 6)).unwrap();
    assert_eq!(state.client, 42);
    assert_eq!(state.session, 7);
    assert_eq!(state.epoch, 8);
    assert_eq!(state.revision, 9);
    assert_eq!(state.deployment, 6);
}

#[test]
fn validation_rejects_wrong_protocol_client_deployment_and_zero_identity() {
    let mut wrong_protocol = hello(6);
    wrong_protocol.protocol_version += 1;
    assert!(validate_handshake(&wrong_protocol, 42, &ack(42, 6)).is_err());
    assert!(validate_handshake(&hello(6), 42, &ack(43, 6)).is_err());
    assert!(validate_handshake(&hello(6), 42, &ack(42, 5)).is_err());
    let mut zero = ack(42, 6);
    zero.session_epoch = 0;
    assert!(validate_handshake(&hello(6), 42, &zero).is_err());
}

#[test]
fn handshake_refusals_name_their_reason() {
    let mut wrong_protocol = hello(6);
    wrong_protocol.protocol_version += 1;
    assert_eq!(
        validate_handshake(&wrong_protocol, 42, &ack(42, 6)).unwrap_err(),
        "protocol mismatch"
    );
    assert_eq!(
        validate_handshake(&hello(6), 0, &ack(0, 6)).unwrap_err(),
        "client identity mismatch"
    );
    let mut zero = ack(42, 6);
    zero.session_id = 0;
    assert_eq!(
        validate_handshake(&hello(6), 42, &zero).unwrap_err(),
        "zero session identity"
    );
    assert_eq!(
        validate_handshake(&hello(0), 42, &ack(42, 0)).unwrap_err(),
        "deployment mismatch"
    );
}

#[test]
fn generated_client_identity_is_nonzero_and_fresh() {
    let first = client_instance_id(1234, 1);
    let second = client_instance_id(1234, 2);
    assert_ne!(first, 0);
    assert_ne!(second, 0);
    assert_ne!(first, second);
    assert_eq!(first, (1234u64 << 32) | 1);
    assert_eq!(client_instance_id(0, 0), 1);
}

fn engine_header(revision: u64) -> MessageHeader {
    MessageHeader {
        protocol_version: CORE_PROTOCOL_VERSION,
        client: 42,
        session: 7,
        epoch: 8,
        sequence: 1,
        revision,
        deployment: 6,
    }
}

#[test]
fn frontend_session_rewrites_outbound_header_with_acknowledged_state() {
    let state = validate_handshake(&hello(6), 42, &ack(42, 6)).unwrap();
    let mut session = FrontendSession::new(state);
    let header = session.prepare();
    assert_eq!(header.protocol_version, CORE_PROTOCOL_VERSION);
    assert_eq!(header.client, 42);
    assert_eq!(header.session, 7);
    assert_eq!(header.epoch, 8);
    assert_eq!(header.sequence, 1);
    assert_eq!(header.revision, 9);
    assert_eq!(header.deployment, 6);
    assert_eq!(session.prepare().sequence, 2);
}

#[test]
fn frontend_session_observes_engine_revision_and_rejects_wrong_identity() {
    let state = validate_handshake(&hello(6), 42, &ack(42, 6)).unwrap();
    let mut session = FrontendSession::new(state);
    session.observe_engine(Some(engine_header(12))).unwrap();
    let outbound = session.prepare();
    assert_eq!(outbound.revision, 12);
    assert_eq!(outbound.sequence, 1);

    let mut wrong = engine_header(12);
    wrong.session = 99;
    assert_eq!(
        session.observe_engine(Some(wrong)).unwrap_err(),
        "engine identity mismatch"
    );
    assert_eq!(
        session.observe_engine(Some(engine_header(11))).unwrap_err(),
        "stale engine revision"
    );
    assert_eq!(session.observe_engine(None).unwrap_err(), "protocol rejected");
}

#[test]
fn connection_identity_allocates_unique_sessions() {
    let id1 = connection_identity(100, 1, 1);
    let id2 = connection_identity(100, 1, 2);
    assert_eq!(id1.session, 2);
    assert_eq!(id2.session, 4);
    assert!(id1.session != id2.session);
    assert_eq!(id1.epoch, 3);
    assert_eq!(id1.client, 100);
    assert_eq!(id1.protocol_version, CORE_PROTOCOL_VERSION);
    assert_eq!(connection_identity(100, 1, 0).session, 1);
    assert_eq!(connection_identity(100, 1, u64::MAX).session, u64::MAX);
    assert_eq!(connection_identity(100, 1, u64::MAX).epoch, u64::MAX);
}

#[test]
fn client_greetings_are_judged_by_version_then_identity() {
    assert_eq!(
        judge_client_hello(CORE_PROTOCOL_VERSION + 1, 5),
        ClientHelloVerdict::VersionMismatch {
            client: CORE_PROTOCOL_VERSION + 1,
            server: CORE_PROTOCOL_VERSION
        }
    );
    assert_eq!(
        judge_client_hello(CORE_PROTOCOL_VERSION, 0),
        ClientHelloVerdict::InvalidClientIdentity
    );
    assert_eq!(judge_client_hello(CORE_PROTOCOL_VERSION, 5), ClientHelloVerdict::Accept);
}

#[test]
fn refusals_explain_themselves_to_the_client() {
    let (reason, error) = judge_client_hello(1, 5).rejection().unwrap();
    assert_eq!(reason, "version mismatch: engine=2, tip=1");
    assert_eq!(error, ServerError::VersionMismatch { client: 1, server: 2 });
    assert_eq!(error.message(), "version mismatch: client=1, server=2");
    let (reason, error) = judge_client_hello(2, 0).rejection().unwrap();
    assert_eq!(reason, "invalid client identity");
    assert_eq!(error, ServerError::Pipe("invalid client identity".into()));
    assert!(judge_client_hello(2, 5).rejection().is_none());
}

#[test]
fn handshake_read_errors_map_timeouts_and_pipe_failures() {
    assert_eq!(handshake_read_error(PipeError::TimedOut), ServerError::HandshakeTimeout);
    assert_eq!(
        handshake_read_error(PipeError::Disconnected),
        ServerError::Pipe("pipe disconnected".into())
    );
    assert_eq!(
        ServerError::from_wire(&WireError::InvalidFrameLength),
        ServerError::Pipe("invalid frame length".into())
    );
}

#[test]
fn error_messages_match_their_display_text() {
    assert_eq!(
        PipeError::TruncatedHeader { available: 2 }.message(),
        "truncated frame header: read 2 of 4 bytes"
    );
    assert_eq!(
        PipeError::TruncatedPayload { expected: 10, available: 3 }.message(),
        "truncated frame payload: expected 10 bytes, read 3"
    );
    assert_eq!(
        PipeError::BufferTooSmall { needed: 128, have: 64 }.message(),
        "buffer too small: need 128, have 64"
    );
    assert_eq!(PipeError::Io("boom".into()).message(), "I/O error: boom");
    assert_eq!(
        PipeError::Wire(WireError::SizeExceeded { actual: 9, max: 4 }).message(),
        "wire error: frame of 9 bytes exceeds the limit of 4"
    );
    assert_eq!(ServerError::HandshakeTimeout.message(), "handshake timeout");
    assert_eq!(
        RunnerError::Pipe(PipeError::Disconnected).message(),
        "pipe error: pipe disconnected"
    );
    assert_eq!(
        RunnerError::Session("bad".into()).message(),
        "session error: bad"
    );
}
