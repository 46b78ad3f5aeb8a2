//! The frontend side of the engine session: validating the handshake,
//! stamping outbound headers with the acknowledged identity, and accepting
//! only engine messages of that identity; and the engine side's choice of a
//! session identity per connection.

use crate::error::{pipe_error_message, wire_error_message, PipeError, WireError};
use crate::model::MessageHeader;
use crate::row_text::decimal;
use crate::text::append_decimal;
use vstd::prelude::*;
use vstd::string::StringExecFns;

verus! {

/// The protocol version this frontend speaks.
pub const CORE_PROTOCOL_VERSION: u16 = 2;

/// The engine's greeting.
#[derive(Clone, Debug, PartialEq, Eq)]
pub struct ServerHello {
    pub protocol_version: u16,
    pub engine_version: String,
    pub deployment_generation: u64,
}

/// The engine's acknowledgement of a client greeting.
#[derive(Clone, Copy, Debug, PartialEq, Eq, Structural)]
pub struct HelloAck {
    pub client_instance_id: u64,
    pub session_id: u64,
    pub session_epoch: u64,
    pub initial_revision: u64,
    pub deployment_generation: u64,
    pub session_id_base: u64,
}

/// The identity negotiated by the handshake.
#[derive(Clone, Copy, Debug, PartialEq, Eq, Structural)]
pub struct AcknowledgedState {
    pub client: u64,
    pub session: u64,
    pub epoch: u64,
    pub revision: u64,
    pub deployment: u64,
}

/// Why a handshake is refused, or `None` when it is accepted.
pub open spec fn handshake_refusal(server: ServerHello, requested_client: u64, ack: HelloAck) -> Option<Seq<char>> {
    if server.protocol_version != CORE_PROTOCOL_VERSION {
        Some("protocol mismatch"@)
    } else if requested_client == 0 || ack.client_instance_id != requested_client {
        Some("client identity mismatch"@)
    } else if ack.session_id == 0 || ack.session_epoch == 0 {
        Some("zero session identity"@)
    } else if server.deployment_generation == 0 || ack.deployment_generation
        != server.deployment_generation {
        Some("deployment mismatch"@)
    } else {
        None
    }
}

/// Check the engine's greeting and acknowledgement against the client id we
/// requested, and derive the negotiated identity.
pub fn validate_handshake(server: &ServerHello, requested_client: u64, ack: &HelloAck) -> (r: Result<
    AcknowledgedState,
    String,
>)
    ensures
        handshake_refusal(*server, requested_client, *ack) is Some ==> r is Err && r->Err_0@
            == handshake_refusal(*server, requested_client, *ack)->0,
        handshake_refusal(*server, requested_client, *ack) is None ==> r == Ok::<
            AcknowledgedState,
            String,
        >(
            AcknowledgedState {
                client: ack.client_instance_id,
                session: ack.session_id,
                epoch: ack.session_epoch,
                revision: ack.initial_revision,
                deployment: ack.deployment_generation,
            },
        ),
{
    if server.protocol_version != CORE_PROTOCOL_VERSION {
        return Err(String::from_str("protocol mismatch"));
    }
    if requested_client == 0 || ack.client_instance_id != requested_client {
        return Err(String::from_str("client identity mismatch"));
    }
    if ack.session_id == 0 || ack.session_epoch == 0 {
        return Err(String::from_str("zero session identity"));
    }
    if server.deployment_generation == 0 || ack.deployment_generation != server.deployment_generation {
        return Err(String::from_str("deployment mismatch"));
    }
    Ok(
        AcknowledgedState {
            client: ack.client_instance_id,
            session: ack.session_id,
            epoch: ack.session_epoch,
            revision: ack.initial_revision,
            deployment: ack.deployment_generation,
        },
    )
}

/// The frontend's view of an open session: the acknowledged identity, the
/// latest engine revision seen, and the next outbound sequence number.
pub struct FrontendSession {
    state: AcknowledgedState,
    next_sequence: u64,
}

pub struct FrontendSessionView {
    pub state: AcknowledgedState,
    pub next_sequence: u64,
}

impl View for FrontendSession {
    type V = FrontendSessionView;

    closed spec fn view(&self) -> FrontendSessionView {
        FrontendSessionView { state: self.state, next_sequence: self.next_sequence }
    }
}

/// The header stamped on an outbound message in session view `v`.
pub open spec fn outbound_header(v: FrontendSessionView) -> MessageHeader {
    MessageHeader {
        protocol_version: CORE_PROTOCOL_VERSION,
        client: v.state.client,
        session: v.state.session,
        epoch: v.state.epoch,
        sequence: v.next_sequence,
        revision: v.state.revision,
        deployment: v.state.deployment,
    }
}

/// Why an engine header is refused in session view `v`, or `None`.
pub open spec fn engine_refusal(v: FrontendSessionView, header: Option<MessageHeader>) -> Option<Seq<char>> {
    match header {
        None => Some("protocol rejected"@),
        Some(h) => if h.protocol_version != CORE_PROTOCOL_VERSION || h.client != v.state.client
            || h.session != v.state.session || h.epoch != v.state.epoch || h.deployment
            != v.state.deployment {
            Some("engine identity mismatch"@)
        } else if h.revision < v.state.revision {
            Some("stale engine revision"@)
        } else {
            None
        },
    }
}

impl FrontendSession {
    pub fn new(state: AcknowledgedState) -> (s: Self)
        ensures
            s@.state == state,
            s@.next_sequence == 1,
    {
        FrontendSession { state, next_sequence: 1 }
    }

    /// Accept the header of an engine message (`None` for a protocol
    /// rejection) if it carries the acknowledged identity and no older
    /// revision; an accepted header's revision becomes the current one.
    pub fn observe_engine(&mut self, header: Option<MessageHeader>) -> (r: Result<(), String>)
        ensures
            engine_refusal(old(self)@, header) is Some ==> r is Err && r->Err_0@ == engine_refusal(
                old(self)@,
                header,
            )->0 && final(self)@ == old(self)@,
            engine_refusal(old(self)@, header) is None ==> r is Ok,
            engine_refusal(old(self)@, header) is None ==> final(self)@.state == (AcknowledgedState {
                revision: header->0.revision,
                ..old(self)@.state
            }),
            engine_refusal(old(self)@, header) is None ==> final(self)@.next_sequence == old(
                self,
            )@.next_sequence,
    {
        let h = match header {
            None => return Err(String::from_str("protocol rejected")),
            Some(h) => h,
        };
        if h.protocol_version != CORE_PROTOCOL_VERSION || h.client != self.state.client || h.session
            != self.state.session || h.epoch != self.state.epoch || h.deployment
            != self.state.deployment {
            return Err(String::from_str("engine identity mismatch"));
        }
        if h.revision < self.state.revision {
            return Err(String::from_str("stale engine revision"));
        }
        self.state.revision = h.revision;
        Ok(())
    }

    /// The header for the next outbound message; advances the sequence,
    /// saturating at the end of the range.
    pub fn prepare(&mut self) -> (header: MessageHeader)
        ensures
            header == outbound_header(old(self)@),
            final(self)@.state == old(self)@.state,
            final(self)@.next_sequence == (if old(self)@.next_sequence == u64::MAX {
                u64::MAX
            } else {
                (old(self)@.next_sequence + 1) as u64
            }),
    {
        let header = MessageHeader {
            protocol_version: CORE_PROTOCOL_VERSION,
            client: self.state.client,
            session: self.state.session,
            epoch: self.state.epoch,
            sequence: self.next_sequence,
            revision: self.state.revision,
            deployment: self.state.deployment,
        };
        self.next_sequence = self.next_sequence.saturating_add(1);
        header
    }
}

/// A fresh client instance id from the process id and a per-process counter:
/// the process id in the high half, the counter in the low half, never zero.
pub open spec fn spec_client_instance_id(process_id: u32, counter: u64) -> u64 {
    let v = ((process_id as u64) << 32u64) | counter;
    if v == 0 {
        1
    } else {
        v
    }
}

pub fn client_instance_id(process_id: u32, counter: u64) -> (id: u64)
    ensures
        id == spec_client_instance_id(process_id, counter),
        id != 0,
{
    let v = ((process_id as u64) << 32u64) | counter;
    if v == 0 {
        1
    } else {
        v
    }
}

/// The engine's session identity for connection number `connection_id`:
/// session `2 * connection_id` (at least 1, saturating), epoch one more.
pub open spec fn spec_connection_session(connection_id: u64) -> u64 {
    let doubled = if connection_id * 2 > u64::MAX {
        u64::MAX
    } else {
        (connection_id * 2) as u64
    };
    if doubled < 1 {
        1
    } else {
        doubled
    }
}

pub fn connection_identity(client_id: u64, deployment: u64, connection_id: u64) -> (h: MessageHeader)
    ensures
        h == (MessageHeader {
            protocol_version: CORE_PROTOCOL_VERSION,
            client: client_id,
            session: spec_connection_session(connection_id),
            epoch: if spec_connection_session(connection_id) == u64::MAX {
                u64::MAX
            } else {
                (spec_connection_session(connection_id) + 1) as u64
            },
            sequence: 0,
            revision: 0,
            deployment,
        }),
{
    let doubled = if connection_id > u64::MAX / 2 {
        u64::MAX
    } else {
        connection_id * 2
    };
    let session = if doubled < 1 {
        1
    } else {
        doubled
    };
    let epoch = session.saturating_add(1);
    MessageHeader {
        protocol_version: CORE_PROTOCOL_VERSION,
        client: client_id,
        session,
        epoch,
        sequence: 0,
        revision: 0,
        deployment,
    }
}

/// The engine's answer to a client greeting.
#[derive(Clone, Copy, Debug, PartialEq, Eq, Structural)]
pub enum ClientHelloVerdict {
    /// Reject: the protocol versions differ.
    VersionMismatch { client: u16, server: u16 },
    /// Reject: the client did not identify itself.
    InvalidClientIdentity,
    /// Accept and open a session.
    Accept,
}

pub fn judge_client_hello(protocol_version: u16, client_instance_id: u64) -> (v: ClientHelloVerdict)
    ensures
        protocol_version != CORE_PROTOCOL_VERSION ==> v == (ClientHelloVerdict::VersionMismatch {
            client: protocol_version,
            server: CORE_PROTOCOL_VERSION,
        }),
        protocol_version == CORE_PROTOCOL_VERSION && client_instance_id == 0 ==> v
            == ClientHelloVerdict::InvalidClientIdentity,
        protocol_version == CORE_PROTOCOL_VERSION && client_instance_id != 0 ==> v
            == ClientHelloVerdict::Accept,
{
    if protocol_version != CORE_PROTOCOL_VERSION {
        ClientHelloVerdict::VersionMismatch { client: protocol_version, server: CORE_PROTOCOL_VERSION }
    } else if client_instance_id == 0 {
        ClientHelloVerdict::InvalidClientIdentity
    } else {
        ClientHelloVerdict::Accept
    }
}


/// Errors of the engine's server and handshake.
#[derive(Clone, Debug, PartialEq, Eq)]
pub enum ServerError {
    Io(String),
    HandshakeTimeout,
    VersionMismatch { client: u16, server: u16 },
    Pipe(String),
}

/// Errors of one client's message loop.
#[derive(Clone, Debug, PartialEq, Eq)]
pub enum RunnerError {
    Pipe(PipeError),
    Session(String),
}

pub open spec fn server_error_message(e: ServerError) -> Seq<char> {
    match e {
        ServerError::Io(detail) => "I/O error: "@ + detail@,
        ServerError::HandshakeTimeout => "handshake timeout"@,
        ServerError::VersionMismatch { client, server } => "version mismatch: client="@ + decimal(client as nat)
            + ", server="@ + decimal(server as nat),
        ServerError::Pipe(detail) => "pipe error: "@ + detail@,
    }
}

impl ServerError {
    /// The message this error displays.
    pub fn message(&self) -> (m: String)
        ensures
            m@ == server_error_message(*self),
    {
        match self {
            ServerError::Io(detail) => {
                let mut m = String::from_str("I/O error: ");
                m.append(detail.as_str());
                m
            },
            ServerError::HandshakeTimeout => String::from_str("handshake timeout"),
            ServerError::VersionMismatch { client, server } => {
                let mut m = String::from_str("version mismatch: client=");
                append_decimal(&mut m, *client as u64);
                m.append(", server=");
                append_decimal(&mut m, *server as u64);
                m
            },
            ServerError::Pipe(detail) => {
                let mut m = String::from_str("pipe error: ");
                m.append(detail.as_str());
                m
            },
        }
    }
}

impl RunnerError {
    /// The message this error displays.
    pub fn message(&self) -> (m: String)
        ensures
            m@ == match *self {
                RunnerError::Pipe(e) => "pipe error: "@ + pipe_error_message(e),
                RunnerError::Session(detail) => "session error: "@ + detail@,
            },
    {
        match self {
            RunnerError::Pipe(e) => {
                let mut m = String::from_str("pipe error: ");
                let inner = e.message();
                m.append(inner.as_str());
                m
            },
            RunnerError::Session(detail) => {
                let mut m = String::from_str("session error: ");
                m.append(detail.as_str());
                m
            },
        }
    }
}

impl ServerError {
    /// A pipe failure as a server error carrying its message.
    pub fn from_pipe(e: &PipeError) -> (r: ServerError)
        ensures
            r is Pipe,
            r->Pipe_0@ == pipe_error_message(*e),
    {
        ServerError::Pipe(e.message())
    }

    /// A wire failure as a server error carrying its message.
    pub fn from_wire(e: &WireError) -> (r: ServerError)
        ensures
            r is Pipe,
            r->Pipe_0@ == wire_error_message(*e),
    {
        ServerError::Pipe(e.message())
    }
}

/// A pipe failure while waiting for the client's greeting: a timeout is a
/// handshake timeout, anything else a pipe error with the failure's message.
pub fn handshake_read_error(e: PipeError) -> (r: ServerError)
    ensures
        e is TimedOut ==> r == ServerError::HandshakeTimeout,
        !(e is TimedOut) ==> r is Pipe && r->Pipe_0@ == pipe_error_message(e),
{
    match e {
        PipeError::TimedOut => ServerError::HandshakeTimeout,
        other => ServerError::from_pipe(&other),
    }
}

impl ClientHelloVerdict {
    /// What a refusal says to the client, and the error it ends with.
    pub fn rejection(&self) -> (r: Option<(String, ServerError)>)
        ensures
            match *self {
                ClientHelloVerdict::VersionMismatch { client, server } => r matches Some((reason, err)) && reason@
                    == "version mismatch: engine="@ + decimal(server as nat) + ", tip="@ + decimal(client as nat)
                    && err == (ServerError::VersionMismatch { client, server }),
                ClientHelloVerdict::InvalidClientIdentity => r matches Some((reason, err)) && reason@
                    == "invalid client identity"@ && err is Pipe && err->Pipe_0@ == "invalid client identity"@,
                ClientHelloVerdict::Accept => r is None,
            },
    {
        match self {
            ClientHelloVerdict::VersionMismatch { client, server } => {
                let mut reason = String::from_str("version mismatch: engine=");
                append_decimal(&mut reason, *server as u64);
                reason.append(", tip=");
                append_decimal(&mut reason, *client as u64);
                Some((reason, ServerError::VersionMismatch { client: *client, server: *server }))
            },
            ClientHelloVerdict::InvalidClientIdentity => Some(
                (
                    String::from_str("invalid client identity"),
                    ServerError::Pipe(String::from_str("invalid client identity")),
                ),
            ),
            ClientHelloVerdict::Accept => None,
        }
    }
}

} // verus!

verus! {

/// An accepted engine header never lowers the revision, and every later
/// outbound header carries the acknowledged identity and that revision.
pub proof fn lemma_accepted_revision_is_stamped(v: FrontendSessionView, h: MessageHeader)
    requires
        engine_refusal(v, Some(h)) is None,
    ensures
        h.revision >= v.state.revision,
        outbound_header(
            FrontendSessionView {
                state: AcknowledgedState { revision: h.revision, ..v.state },
                next_sequence: v.next_sequence,
            },
        ).revision == h.revision,
        outbound_header(
            FrontendSessionView {
                state: AcknowledgedState { revision: h.revision, ..v.state },
                next_sequence: v.next_sequence,
            },
        ).session == h.session,
{
}

/// The engine's messages are accepted only from the negotiated session: an
/// accepted header carries the core protocol version and the acknowledged
/// client, session, epoch and deployment, and no older revision; a header
/// that differs in any of those identity fields is refused as an identity
/// mismatch, and one of an older revision as stale.
pub proof fn lemma_engine_identity_enforced(v: FrontendSessionView, h: MessageHeader)
    ensures
        engine_refusal(v, Some(h)) is None ==> h.protocol_version == CORE_PROTOCOL_VERSION
            && h.client == v.state.client && h.session == v.state.session && h.epoch
            == v.state.epoch && h.deployment == v.state.deployment && h.revision >= v.state.revision,
        (h.protocol_version != CORE_PROTOCOL_VERSION || h.client != v.state.client || h.session
            != v.state.session || h.epoch != v.state.epoch || h.deployment != v.state.deployment)
            ==> engine_refusal(v, Some(h)) == Some("engine identity mismatch"@),
        h.protocol_version == CORE_PROTOCOL_VERSION && h.client == v.state.client && h.session
            == v.state.session && h.epoch == v.state.epoch && h.deployment == v.state.deployment
            ==> engine_refusal(v, Some(h)) == (if h.revision < v.state.revision {
            Some("stale engine revision"@)
        } else {
            None
        }),
        engine_refusal(v, None) == Some("protocol rejected"@),
{
}

/// Distinct connections below the saturation bound get distinct sessions,
/// and every session identity is nonzero.
pub proof fn lemma_connection_sessions_unique(c1: u64, c2: u64)
    requires
        c1 != c2,
        c1 <= u64::MAX / 2,
        c2 <= u64::MAX / 2,
        c1 >= 1,
        c2 >= 1,
    ensures
        spec_connection_session(c1) != spec_connection_session(c2),
        spec_connection_session(c1) >= 1,
{
}

} // verus!
