use vstd::prelude::*;
use crate::errors::ProxyError;
use crate::messages::{spec_lookup, BeMessage, CancelKeyData, StartupParams};

verus! {

/// Where a session stands on its way from the finished handshake to the
/// byte relay.
#[derive(Clone, Copy, Debug, PartialEq, Eq, Structural)]
pub enum SessionPhase {
    /// Waiting for the authentication backend's verdict.
    AwaitingAuth,
    /// Authenticated; waiting for the compute-node connection.
    AwaitingConnect,
    /// Connected; waiting for the startup response to reach the client.
    AwaitingResponseSent,
    /// The relay is running.
    Relaying,
    /// The relay ended; the session is over.
    Finished,
    /// The session failed with this error and is over.
    Failed(ProxyError),
}

/// What the driver reports back to the session pipeline: the result of
/// the one step the last action asked for.
#[derive(Clone, Debug, PartialEq)]
pub enum SessionEvent {
    /// The authentication backend accepted the client;
    /// `reported_auth_ok` says whether it already acknowledged success
    /// to the client inline.
    AuthSucceeded { reported_auth_ok: bool },
    /// The authentication backend rejected the client.
    AuthFailed,
    /// The compute-node connection stands; the node advertised this
    /// server version, and the session's cancel key is registered.
    ConnectSucceeded { version: String, cancel_key: CancelKeyData },
    /// The compute-node connection could not be established.
    ConnectFailed,
    /// The startup response was written and flushed to the client.
    ResponseSent,
    /// Writing the startup response failed.
    ResponseWriteFailed,
    /// The bidirectional copy ended (end-of-stream or error on either
    /// side).
    RelayEnded,
}

/// What the driver must do next for this session.
#[derive(Clone, Debug, PartialEq)]
pub enum SessionAction {
    /// Connect to the compute node named by the authentication result,
    /// with the session's startup parameters; then register the cancel
    /// handle and report back.
    ConnectToNode,
    /// Write these messages to the client, flushing once after the last.
    SendResponse(Vec<BeMessage>),
    /// Report this error to the client, best effort, then close.
    ReportErrorAndClose(ProxyError),
    /// Start the bidirectional byte relay.
    StartRelay,
    /// Close the connection; nothing more is owed to the client.
    Close,
}

/// The startup response owed to the client once the compute-node
/// connection stands: authentication acknowledgement (unless the backend
/// already sent one inline), the baseline parameter status, the node's
/// server version, the cancel key, and the ready-for-query mark, in that
/// order.
pub open spec fn spec_startup_response(
    reported_auth_ok: bool,
    version: String,
    cancel_key: CancelKeyData,
) -> Seq<BeMessage> {
    let tail = seq![
        BeMessage::ParameterStatusServerVersion(version),
        BeMessage::BackendKeyData(cancel_key),
        BeMessage::ReadyForQuery,
    ];
    if reported_auth_ok {
        tail
    } else {
        seq![BeMessage::AuthenticationOk, BeMessage::ParameterStatusEncoding] + tail
    }
}

/// Build the startup response in the order the protocol owes it.
pub fn startup_response(reported_auth_ok: bool, version: String, cancel_key: CancelKeyData) -> (r:
    Vec<BeMessage>)
    ensures
        r@ == spec_startup_response(reported_auth_ok, version, cancel_key),
{
    let ghost v = version;
    let mut msgs: Vec<BeMessage> = Vec::new();
    if !reported_auth_ok {
        msgs.push(BeMessage::AuthenticationOk);
        msgs.push(BeMessage::ParameterStatusEncoding);
    }
    msgs.push(BeMessage::ParameterStatusServerVersion(version));
    msgs.push(BeMessage::BackendKeyData(cancel_key));
    msgs.push(BeMessage::ReadyForQuery);
    proof {
        assert(msgs@ =~= spec_startup_response(reported_auth_ok, v, cancel_key));
    }
    msgs
}

/// The orchestrator of one client session after its handshake: it keeps
/// the connection parameters and the session identifier, remembers how
/// far the pipeline has come, and decides the next action for every
/// event the driver reports.
pub struct SessionState {
    pub phase: SessionPhase,
    /// Whether the authentication backend already acknowledged success
    /// to the client inline; meaningful from `AwaitingConnect` on.
    pub reported_auth_ok: bool,
    /// The startup parameters of this session, read-only after the
    /// handshake.
    pub params: StartupParams,
    /// The connection's identifier, minted by the accept loop.
    pub session_id: u128,
}

/// Which events a phase can answer: exactly the result of the one step
/// the phase is waiting for.
pub open spec fn spec_event_fits(phase: SessionPhase, ev: SessionEvent) -> bool {
    match ev {
        SessionEvent::AuthSucceeded { .. } => phase == SessionPhase::AwaitingAuth,
        SessionEvent::AuthFailed => phase == SessionPhase::AwaitingAuth,
        SessionEvent::ConnectSucceeded { .. } => phase == SessionPhase::AwaitingConnect,
        SessionEvent::ConnectFailed => phase == SessionPhase::AwaitingConnect,
        SessionEvent::ResponseSent => phase == SessionPhase::AwaitingResponseSent,
        SessionEvent::ResponseWriteFailed => phase == SessionPhase::AwaitingResponseSent,
        SessionEvent::RelayEnded => phase == SessionPhase::Relaying,
    }
}

/// The phase a session moves to on an event, and what it remembers of
/// the authentication acknowledgement. The parameters and the session
/// identifier never change.
pub open spec fn spec_session_next(s: SessionState, ev: SessionEvent) -> SessionState {
    match ev {
        SessionEvent::AuthSucceeded { reported_auth_ok } => SessionState {
            phase: SessionPhase::AwaitingConnect,
            reported_auth_ok,
            ..s
        },
        SessionEvent::AuthFailed => SessionState {
            phase: SessionPhase::Failed(ProxyError::AuthenticationFailure),
            ..s
        },
        SessionEvent::ConnectSucceeded { .. } => SessionState {
            phase: SessionPhase::AwaitingResponseSent,
            ..s
        },
        SessionEvent::ConnectFailed => SessionState {
            phase: SessionPhase::Failed(ProxyError::ComputeConnectFailure),
            ..s
        },
        SessionEvent::ResponseSent => SessionState { phase: SessionPhase::Relaying, ..s },
        SessionEvent::ResponseWriteFailed => SessionState {
            phase: SessionPhase::Failed(ProxyError::TransportFailure),
            ..s
        },
        SessionEvent::RelayEnded => SessionState { phase: SessionPhase::Finished, ..s },
    }
}

impl SessionState {
    /// A session fresh out of the handshake, about to authenticate.
    pub fn new(params: StartupParams, session_id: u128) -> (s: Self)
        ensures
            s.phase == SessionPhase::AwaitingAuth,
            s.reported_auth_ok == false,
            s.params == params,
            s.session_id == session_id,
    {
        SessionState {
            phase: SessionPhase::AwaitingAuth,
            reported_auth_ok: false,
            params,
            session_id,
        }
    }

    /// The application name the authentication backend is handed along
    /// with the session identifier, straight from the startup
    /// parameters.
    pub fn application_name(&self) -> (r: Option<&String>)
        ensures
            match r {
                Some(v) => spec_lookup(self.params@, "application_name"@) == Some(v@),
                None => spec_lookup(self.params@, "application_name"@) is None,
            },
    {
        let key: String = String::from_str("application_name");
        proof {
            reveal_strlit("application_name");
        }
        self.params.get(&key)
    }

    /// Answer one event of the session pipeline.
    ///
    /// - An accepted authentication moves on to the compute-node
    ///   connection; a rejected one is reported to the client and ends
    ///   the session.
    /// - A standing compute-node connection owes the client the startup
    ///   response, built from the node's version and the session's
    ///   cancel key; a failed connection is reported and ends the
    ///   session.
    /// - Once the response is flushed the relay starts; a failed write
    ///   ends the session silently, since the client is gone.
    /// - The end of the relay ends the session; nothing more is owed.
    pub fn step(&mut self, ev: SessionEvent) -> (a: SessionAction)
        requires
            spec_event_fits(old(self).phase, ev),
        ensures
            *final(self) == spec_session_next(*old(self), ev),
            match ev {
                SessionEvent::AuthSucceeded { .. } => a == SessionAction::ConnectToNode,
                SessionEvent::AuthFailed => a == SessionAction::ReportErrorAndClose(
                    ProxyError::AuthenticationFailure,
                ),
                SessionEvent::ConnectSucceeded { version, cancel_key } => (a matches
                    SessionAction::SendResponse(msgs) && msgs@ == spec_startup_response(
                    old(self).reported_auth_ok,
                    version,
                    cancel_key,
                )),
                SessionEvent::ConnectFailed => a == SessionAction::ReportErrorAndClose(
                    ProxyError::ComputeConnectFailure,
                ),
                SessionEvent::ResponseSent => a == SessionAction::StartRelay,
                SessionEvent::ResponseWriteFailed => a == SessionAction::Close,
                SessionEvent::RelayEnded => a == SessionAction::Close,
            },
    {
        match ev {
            SessionEvent::AuthSucceeded { reported_auth_ok } => {
                self.phase = SessionPhase::AwaitingConnect;
                self.reported_auth_ok = reported_auth_ok;
                SessionAction::ConnectToNode
            },
            SessionEvent::AuthFailed => {
                self.phase = SessionPhase::Failed(ProxyError::AuthenticationFailure);
                SessionAction::ReportErrorAndClose(ProxyError::AuthenticationFailure)
            },
            SessionEvent::ConnectSucceeded { version, cancel_key } => {
                self.phase = SessionPhase::AwaitingResponseSent;
                SessionAction::SendResponse(
                    startup_response(self.reported_auth_ok, version, cancel_key),
                )
            },
            SessionEvent::ConnectFailed => {
                self.phase = SessionPhase::Failed(ProxyError::ComputeConnectFailure);
                SessionAction::ReportErrorAndClose(ProxyError::ComputeConnectFailure)
            },
            SessionEvent::ResponseSent => {
                self.phase = SessionPhase::Relaying;
                SessionAction::StartRelay
            },
            SessionEvent::ResponseWriteFailed => {
                self.phase = SessionPhase::Failed(ProxyError::TransportFailure);
                SessionAction::Close
            },
            SessionEvent::RelayEnded => {
                self.phase = SessionPhase::Finished;
                SessionAction::Close
            },
        }
    }
}

} // verus!
