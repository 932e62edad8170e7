use proxy::errors::ProxyError;
use proxy::handshake::{run_handshake, ChannelState, HandshakeOutcome, HandshakeState};
use proxy::messages::{BeMessage, CancelKeyData, FeStartupMessage, StartupParams};

fn startup(pairs: &[(&str, &str)]) -> FeStartupMessage {
    let mut params = StartupParams::new();
    for (k, v) in pairs {
        params.push(String::from(*k), String::from(*v));
    }
    FeStartupMessage::StartupMessage { params }
}

#[test]
fn no_tls_startup_accepted_directly() {
    let (replies, outcome) = run_handshake(false, vec![startup(&[("user", "alice")])]);
    assert!(replies.is_empty());
    match outcome {
        HandshakeOutcome::Established(params) => {
            assert_eq!(params.get(&String::from("user")), Some(&String::from("alice")));
        },
        other => panic!("expected an established session, got {:?}", other),
    }
}

#[test]
fn ssl_probe_declined_without_tls_config() {
    let msgs = vec![FeStartupMessage::SslRequest, startup(&[("user", "alice")])];
    let (replies, outcome) = run_handshake(false, msgs);
    assert_eq!(replies, vec![BeMessage::EncryptionResponse(false)]);
    assert!(matches!(outcome, HandshakeOutcome::Established(_)));
}

#[test]
fn ssl_request_upgrades_when_tls_configured() {
    let mut state = HandshakeState::new(true);
    let step = state.step(FeStartupMessage::SslRequest);
    assert_eq!(step.reply, Some(BeMessage::EncryptionResponse(true)));
    assert!(step.upgrade_to_tls);
    assert_eq!(state.channel, ChannelState::Tls);
    assert!(!state.tls_available);

    let msgs = vec![FeStartupMessage::SslRequest, startup(&[("user", "alice")])];
    let (replies, outcome) = run_handshake(true, msgs);
    assert_eq!(replies, vec![BeMessage::EncryptionResponse(true)]);
    assert!(matches!(outcome, HandshakeOutcome::Established(_)));
}

#[test]
fn plaintext_startup_rejected_when_tls_configured() {
    let (replies, outcome) = run_handshake(true, vec![startup(&[("user", "alice")])]);
    assert_eq!(replies, vec![BeMessage::ErrorResponse(ProxyError::InsecureConnection)]);
    assert!(matches!(outcome, HandshakeOutcome::Failed(ProxyError::InsecureConnection)));
}

#[test]
fn second_ssl_request_rejected_after_upgrade() {
    let msgs = vec![FeStartupMessage::SslRequest, FeStartupMessage::SslRequest];
    let (replies, outcome) = run_handshake(true, msgs);
    assert_eq!(replies, vec![BeMessage::EncryptionResponse(true)]);
    assert!(matches!(outcome, HandshakeOutcome::Failed(ProxyError::ProtocolViolation)));
}

#[test]
fn second_ssl_request_rejected_after_decline() {
    let msgs = vec![FeStartupMessage::SslRequest, FeStartupMessage::SslRequest];
    let (replies, outcome) = run_handshake(false, msgs);
    assert_eq!(replies, vec![BeMessage::EncryptionResponse(false)]);
    assert!(matches!(outcome, HandshakeOutcome::Failed(ProxyError::ProtocolViolation)));
}

#[test]
fn second_gss_request_rejected() {
    let msgs = vec![FeStartupMessage::GssEncRequest, FeStartupMessage::GssEncRequest];
    let (replies, outcome) = run_handshake(false, msgs);
    assert_eq!(replies, vec![BeMessage::EncryptionResponse(false)]);
    assert!(matches!(outcome, HandshakeOutcome::Failed(ProxyError::ProtocolViolation)));
}

#[test]
fn gss_request_after_tls_upgrade_rejected() {
    let msgs = vec![FeStartupMessage::SslRequest, FeStartupMessage::GssEncRequest];
    let (replies, outcome) = run_handshake(true, msgs);
    assert_eq!(replies, vec![BeMessage::EncryptionResponse(true)]);
    assert!(matches!(outcome, HandshakeOutcome::Failed(ProxyError::ProtocolViolation)));
}

#[test]
fn gss_then_ssl_then_startup_accepted() {
    let msgs = vec![
        FeStartupMessage::GssEncRequest,
        FeStartupMessage::SslRequest,
        startup(&[("user", "bob"), ("database", "db2")]),
    ];
    let (replies, outcome) = run_handshake(true, msgs);
    assert_eq!(
        replies,
        vec![BeMessage::EncryptionResponse(false), BeMessage::EncryptionResponse(true)]
    );
    assert!(matches!(outcome, HandshakeOutcome::Established(_)));
}

#[test]
fn cancel_request_ends_handshake_with_no_session() {
    let key = CancelKeyData { backend_pid: 17, cancel_key: 9000 };
    let (replies, outcome) = run_handshake(false, vec![FeStartupMessage::CancelRequest(key)]);
    assert!(replies.is_empty());
    match outcome {
        HandshakeOutcome::CancelSession(k) => assert_eq!(k, key),
        other => panic!("expected a cancel outcome, got {:?}", other),
    }
}

#[test]
fn empty_message_sequence_keeps_waiting() {
    let (replies, outcome) = run_handshake(true, Vec::new());
    assert!(replies.is_empty());
    assert!(matches!(outcome, HandshakeOutcome::Continue));
}
