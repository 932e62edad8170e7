use proxy::errors::ProxyError;
use proxy::handshake::{run_handshake, HandshakeOutcome};
use proxy::messages::{BeMessage, CancelKeyData, FeStartupMessage, StartupParams};
use proxy::session::{
    startup_response, SessionAction, SessionEvent, SessionPhase, SessionState,
};

fn params(pairs: &[(&str, &str)]) -> StartupParams {
    let mut p = StartupParams::new();
    for (k, v) in pairs {
        p.push(String::from(*k), String::from(*v));
    }
    p
}

#[test]
fn params_lookup_takes_the_first_entry() {
    let p = params(&[("user", "alice"), ("user", "mallory"), ("database", "db1")]);
    assert_eq!(p.get(&String::from("user")), Some(&String::from("alice")));
    assert_eq!(p.get(&String::from("database")), Some(&String::from("db1")));
    assert_eq!(p.get(&String::from("options")), None);
}

#[test]
fn application_name_comes_from_the_params() {
    let session = SessionState::new(params(&[("application_name", "psql")]), 1);
    assert_eq!(session.application_name(), Some(&String::from("psql")));
    let bare = SessionState::new(params(&[("user", "alice")]), 2);
    assert_eq!(bare.application_name(), None);
}

#[test]
fn startup_response_order_without_inline_auth_ok() {
    let key = CancelKeyData { backend_pid: 42, cancel_key: 4242 };
    let msgs = startup_response(false, String::from("15.3"), key);
    assert_eq!(
        msgs,
        vec![
            BeMessage::AuthenticationOk,
            BeMessage::ParameterStatusEncoding,
            BeMessage::ParameterStatusServerVersion(String::from("15.3")),
            BeMessage::BackendKeyData(key),
            BeMessage::ReadyForQuery,
        ]
    );
}

#[test]
fn startup_response_order_with_inline_auth_ok() {
    let key = CancelKeyData { backend_pid: 1, cancel_key: 2 };
    let msgs = startup_response(true, String::from("14.9"), key);
    assert_eq!(
        msgs,
        vec![
            BeMessage::ParameterStatusServerVersion(String::from("14.9")),
            BeMessage::BackendKeyData(key),
            BeMessage::ReadyForQuery,
        ]
    );
}

#[test]
fn full_session_from_ssl_probe_to_relay() {
    // client connects with no TLS configured, probes with an SSL request,
    // then sends its startup message
    let msgs = vec![
        FeStartupMessage::SslRequest,
        FeStartupMessage::StartupMessage { params: params(&[("user", "alice"), ("database", "db1")]) },
    ];
    let (replies, outcome) = run_handshake(false, msgs);
    assert_eq!(replies, vec![BeMessage::EncryptionResponse(false)]);
    let established = match outcome {
        HandshakeOutcome::Established(p) => p,
        other => panic!("expected an established session, got {:?}", other),
    };

    let mut session = SessionState::new(established, 7);
    assert_eq!(session.phase, SessionPhase::AwaitingAuth);

    let a1 = session.step(SessionEvent::AuthSucceeded { reported_auth_ok: false });
    assert_eq!(a1, SessionAction::ConnectToNode);
    assert_eq!(session.phase, SessionPhase::AwaitingConnect);

    let key = CancelKeyData { backend_pid: 42, cancel_key: 4242 };
    let a2 = session.step(SessionEvent::ConnectSucceeded {
        version: String::from("15.3"),
        cancel_key: key,
    });
    match a2 {
        SessionAction::SendResponse(msgs) => {
            assert_eq!(
                msgs,
                vec![
                    BeMessage::AuthenticationOk,
                    BeMessage::ParameterStatusEncoding,
                    BeMessage::ParameterStatusServerVersion(String::from("15.3")),
                    BeMessage::BackendKeyData(key),
                    BeMessage::ReadyForQuery,
                ]
            );
        },
        other => panic!("expected the startup response, got {:?}", other),
    }

    let a3 = session.step(SessionEvent::ResponseSent);
    assert_eq!(a3, SessionAction::StartRelay);
    assert_eq!(session.phase, SessionPhase::Relaying);

    let a4 = session.step(SessionEvent::RelayEnded);
    assert_eq!(a4, SessionAction::Close);
    assert_eq!(session.phase, SessionPhase::Finished);
}

#[test]
fn inline_auth_ok_skips_the_acknowledgement() {
    let mut session = SessionState::new(params(&[("user", "alice")]), 3);
    session.step(SessionEvent::AuthSucceeded { reported_auth_ok: true });
    let key = CancelKeyData { backend_pid: 5, cancel_key: 6 };
    let action = session.step(SessionEvent::ConnectSucceeded {
        version: String::from("16.0"),
        cancel_key: key,
    });
    match action {
        SessionAction::SendResponse(msgs) => {
            assert_eq!(msgs.len(), 3);
            assert_eq!(msgs[0], BeMessage::ParameterStatusServerVersion(String::from("16.0")));
        },
        other => panic!("expected the startup response, got {:?}", other),
    }
}

#[test]
fn auth_failure_is_reported_and_terminal() {
    let mut session = SessionState::new(params(&[("user", "alice")]), 4);
    let action = session.step(SessionEvent::AuthFailed);
    assert_eq!(action, SessionAction::ReportErrorAndClose(ProxyError::AuthenticationFailure));
    assert_eq!(session.phase, SessionPhase::Failed(ProxyError::AuthenticationFailure));
}

#[test]
fn connect_failure_is_reported_and_terminal() {
    let mut session = SessionState::new(params(&[("user", "alice")]), 5);
    session.step(SessionEvent::AuthSucceeded { reported_auth_ok: false });
    let action = session.step(SessionEvent::ConnectFailed);
    assert_eq!(action, SessionAction::ReportErrorAndClose(ProxyError::ComputeConnectFailure));
    assert_eq!(session.phase, SessionPhase::Failed(ProxyError::ComputeConnectFailure));
}

#[test]
fn response_write_failure_closes_silently() {
    let mut session = SessionState::new(params(&[("user", "alice")]), 6);
    session.step(SessionEvent::AuthSucceeded { reported_auth_ok: true });
    session.step(SessionEvent::ConnectSucceeded {
        version: String::from("15.0"),
        cancel_key: CancelKeyData { backend_pid: 1, cancel_key: 1 },
    });
    let action = session.step(SessionEvent::ResponseWriteFailed);
    assert_eq!(action, SessionAction::Close);
    assert_eq!(session.phase, SessionPhase::Failed(ProxyError::TransportFailure));
}

#[test]
fn error_texts_name_their_cause() {
    assert_eq!(ProxyError::ProtocolViolation.message(), "protocol violation");
    assert_eq!(
        ProxyError::InsecureConnection.message(),
        "connection is insecure (try using `sslmode=require`)"
    );
    assert_eq!(ProxyError::AuthenticationFailure.message(), "authentication failed");
    assert_eq!(ProxyError::ComputeConnectFailure.message(), "could not connect to the compute node");
    assert_eq!(ProxyError::TransportFailure.message(), "connection lost");
}
