//! The decisions of the frontend's I/O thread. The thread connects to the
//! engine's pipe, runs the handshake, then alternates sending queued
//! messages and reading one engine message at a time; after each outside
//! step it asks this module what comes next.

use crate::error::PipeError;
use crate::model::MessageHeader;
use crate::session::{engine_refusal, AcknowledgedState, FrontendSession, FrontendSessionView};
use vstd::prelude::*;

verus! {

/// Pause before retrying a failed connection, in milliseconds.
pub const CONNECT_RETRY_MS: u64 = 200;
/// Pause before reconnecting after a failed handshake.
pub const HANDSHAKE_RETRY_MS: u64 = 500;
/// Pause before reconnecting after the engine went away.
pub const DISCONNECT_PAUSE_MS: u64 = 100;
/// How long one read waits, so that outbound work and shutdown stay responsive.
pub const READ_SLICE_MS: u64 = 25;

/// What the thread tells the candidate window about the connection.
#[derive(Clone, Copy, Debug, PartialEq, Eq, Structural)]
pub enum ConnectionStatus {
    Connected,
    WriteError,
    EngineDisconnected,
}

impl ConnectionStatus {
    /// Whether the engine is reachable, and the detail shown with it.
    pub fn report(&self) -> (r: (bool, &'static str))
        ensures
            r.0 == (*self is Connected),
    {
        match self {
            ConnectionStatus::Connected => (true, "connected"),
            ConnectionStatus::WriteError => (false, "write error"),
            ConnectionStatus::EngineDisconnected => (false, "engine disconnected"),
        }
    }
}

/// The kind of an engine message, as far as the thread cares.
#[derive(Clone, Copy, Debug, PartialEq, Eq, Structural)]
pub enum EngineMessageKind {
    CandidateSnapshot,
    PlatformAction,
    Other,
}

/// How one bounded read went.
#[derive(Clone, Debug, PartialEq, Eq)]
pub enum ReadResult {
    /// A whole message, with its header (`None` for a protocol rejection).
    Message { kind: EngineMessageKind, header: Option<MessageHeader> },
    /// The engine closed the pipe between messages.
    EndOfStream,
    Failed(PipeError),
}

/// What the thread does next.
#[derive(Clone, Copy, Debug, PartialEq, Eq, Structural)]
pub enum IoAction {
    /// Hand the snapshot to the candidate window, then read on.
    PostSnapshot,
    /// Hand the platform action to the candidate window, then read on.
    PostAction,
    /// Read on.
    KeepReading,
    /// Report `status` if any, wait `pause_ms`, and connect again.
    Reconnect { pause_ms: u64, status: Option<ConnectionStatus> },
}

/// The action after a read, for a session in state `v`.
pub open spec fn spec_after_read(v: FrontendSessionView, result: ReadResult) -> IoAction {
    match result {
        ReadResult::Message { kind, header } => if engine_refusal(v, header) is Some {
            IoAction::Reconnect { pause_ms: 0, status: None }
        } else {
            match kind {
                EngineMessageKind::CandidateSnapshot => IoAction::PostSnapshot,
                EngineMessageKind::PlatformAction => IoAction::PostAction,
                EngineMessageKind::Other => IoAction::KeepReading,
            }
        },
        ReadResult::EndOfStream => IoAction::Reconnect {
            pause_ms: DISCONNECT_PAUSE_MS,
            status: Some(ConnectionStatus::EngineDisconnected),
        },
        ReadResult::Failed(e) => match e {
            PipeError::TimedOut => IoAction::KeepReading,
            PipeError::Disconnected => IoAction::Reconnect {
                pause_ms: DISCONNECT_PAUSE_MS,
                status: Some(ConnectionStatus::EngineDisconnected),
            },
            _ => IoAction::Reconnect { pause_ms: 0, status: None },
        },
    }
}

/// Decide after a read. A message of another identity, or an older
/// revision, drops the connection; an accepted one advances the session's
/// revision.
pub fn after_read(session: &mut FrontendSession, result: ReadResult) -> (a: IoAction)
    ensures
        a == spec_after_read(old(session)@, result),
        result matches ReadResult::Message { header, .. } ==> (engine_refusal(old(session)@, header) is None
            ==> final(session)@.state == (AcknowledgedState {
            revision: header->0.revision,
            ..old(session)@.state
        }) && final(session)@.next_sequence == old(session)@.next_sequence),
        !(result matches ReadResult::Message { header, .. } && engine_refusal(old(session)@, header) is None)
            ==> final(session)@ == old(session)@,
{
    match result {
        ReadResult::Message { kind, header } => {
            match session.observe_engine(header) {
                Err(_) => IoAction::Reconnect { pause_ms: 0, status: None },
                Ok(()) => match kind {
                    EngineMessageKind::CandidateSnapshot => IoAction::PostSnapshot,
                    EngineMessageKind::PlatformAction => IoAction::PostAction,
                    EngineMessageKind::Other => IoAction::KeepReading,
                },
            }
        },
        ReadResult::EndOfStream => IoAction::Reconnect {
            pause_ms: DISCONNECT_PAUSE_MS,
            status: Some(ConnectionStatus::EngineDisconnected),
        },
        ReadResult::Failed(e) => match e {
            PipeError::TimedOut => IoAction::KeepReading,
            PipeError::Disconnected => IoAction::Reconnect {
                pause_ms: DISCONNECT_PAUSE_MS,
                status: Some(ConnectionStatus::EngineDisconnected),
            },
            _ => IoAction::Reconnect { pause_ms: 0, status: None },
        },
    }
}

/// After a failed write: report it and connect again at once.
pub fn after_write_failure() -> (a: IoAction)
    ensures
        a == (IoAction::Reconnect { pause_ms: 0, status: Some(ConnectionStatus::WriteError) }),
{
    IoAction::Reconnect { pause_ms: 0, status: Some(ConnectionStatus::WriteError) }
}

/// After the handshake: report the connection, or wait and connect again.
pub fn after_handshake(succeeded: bool) -> (r: Result<ConnectionStatus, IoAction>)
    ensures
        succeeded ==> r == Ok::<ConnectionStatus, IoAction>(ConnectionStatus::Connected),
        !succeeded ==> r == Err::<ConnectionStatus, IoAction>(
            IoAction::Reconnect { pause_ms: HANDSHAKE_RETRY_MS, status: None },
        ),
{
    if succeeded {
        Ok(ConnectionStatus::Connected)
    } else {
        Err(IoAction::Reconnect { pause_ms: HANDSHAKE_RETRY_MS, status: None })
    }
}

/// Only a read timeout or a whole message of the session's identity keeps
/// the connection; everything else reconnects.
pub proof fn lemma_connection_kept_only_for_accepted_messages(v: FrontendSessionView, result: ReadResult)
    ensures
        !(spec_after_read(v, result) is Reconnect) <==> (result == ReadResult::Failed(PipeError::TimedOut) || (
        result matches ReadResult::Message { header, .. } && engine_refusal(v, header) is None)),
{
}

} // verus!
