use vstd::prelude::*;
use crate::errors::ProxyError;
use crate::messages::{BeMessage, CancelKeyData, FeStartupMessage, StartupParams};

verus! {

/// Whether the channel to the client is still the raw transport or has
/// been upgraded to TLS. The upgrade is one-directional and happens at
/// most once.
#[derive(Clone, Copy, Debug, PartialEq, Eq, Structural)]
pub enum ChannelState {
    Raw,
    Tls,
}

/// The state of the startup negotiation for one connection.
///
/// `tls_available` means a TLS configuration is present and has not been
/// consumed by an upgrade yet; it starts at "TLS configured" and is
/// cleared by the first SSL request, so a second upgrade can never happen.
#[derive(Clone, Copy, Debug, PartialEq, Eq, Structural)]
pub struct HandshakeState {
    pub channel: ChannelState,
    pub tried_ssl: bool,
    pub tried_gss: bool,
    pub tls_available: bool,
}

/// How one handshake step ends.
#[derive(Clone, Debug, PartialEq)]
pub enum HandshakeOutcome {
    /// Keep reading startup-phase messages.
    Continue,
    /// Normal session: hand these parameters to the session pipeline.
    Established(StartupParams),
    /// The message was a cancel request for this key; after it is handed
    /// to the cancellation table the connection closes with no session.
    CancelSession(CancelKeyData),
    /// The handshake failed; the connection closes.
    Failed(ProxyError),
}

/// What the driver must do for one consumed startup-phase message:
/// send `reply` to the client if there is one, then perform the TLS
/// upgrade if `upgrade_to_tls` is set, then act on `outcome`.
#[derive(Clone, Debug, PartialEq)]
pub struct HandshakeStep {
    pub reply: Option<BeMessage>,
    pub upgrade_to_tls: bool,
    pub outcome: HandshakeOutcome,
}

/// The handshake state of a fresh connection: raw channel, nothing tried,
/// TLS present exactly when the proxy was configured with it.
pub open spec fn spec_init(tls_configured: bool) -> HandshakeState {
    HandshakeState {
        channel: ChannelState::Raw,
        tried_ssl: false,
        tried_gss: false,
        tls_available: tls_configured,
    }
}

/// The transition relation of the handshake: one startup-phase message
/// in, the successor state and the step to perform out.
///
/// - An SSL request is honoured only on the raw channel and only once;
///   the reply says whether TLS is available, and if it is, the channel
///   upgrades and the configuration is consumed. Anything else is a
///   protocol violation.
/// - A GSS request is answered once, always in the negative; repeats and
///   requests after an upgrade are protocol violations.
/// - A startup message establishes the session unless TLS was configured
///   but never negotiated; then the client gets an explicit error and the
///   handshake fails as insecure.
/// - A cancel request ends the handshake with no session.
pub open spec fn spec_step(s: HandshakeState, msg: FeStartupMessage) -> (
    HandshakeState,
    HandshakeStep,
) {
    match msg {
        FeStartupMessage::SslRequest => {
            if s.channel == ChannelState::Raw && !s.tried_ssl {
                (
                    HandshakeState {
                        channel: if s.tls_available {
                            ChannelState::Tls
                        } else {
                            ChannelState::Raw
                        },
                        tried_ssl: true,
                        tls_available: false,
                        ..s
                    },
                    HandshakeStep {
                        reply: Some(BeMessage::EncryptionResponse(s.tls_available)),
                        upgrade_to_tls: s.tls_available,
                        outcome: HandshakeOutcome::Continue,
                    },
                )
            } else {
                (s, spec_violation_step())
            }
        },
        FeStartupMessage::GssEncRequest => {
            if s.channel == ChannelState::Raw && !s.tried_gss {
                (
                    HandshakeState { tried_gss: true, ..s },
                    HandshakeStep {
                        reply: Some(BeMessage::EncryptionResponse(false)),
                        upgrade_to_tls: false,
                        outcome: HandshakeOutcome::Continue,
                    },
                )
            } else {
                (s, spec_violation_step())
            }
        },
        FeStartupMessage::StartupMessage { params } => {
            if s.tls_available {
                (
                    s,
                    HandshakeStep {
                        reply: Some(BeMessage::ErrorResponse(ProxyError::InsecureConnection)),
                        upgrade_to_tls: false,
                        outcome: HandshakeOutcome::Failed(ProxyError::InsecureConnection),
                    },
                )
            } else {
                (
                    s,
                    HandshakeStep {
                        reply: None,
                        upgrade_to_tls: false,
                        outcome: HandshakeOutcome::Established(params),
                    },
                )
            }
        },
        FeStartupMessage::CancelRequest(key) => {
            (
                s,
                HandshakeStep {
                    reply: None,
                    upgrade_to_tls: false,
                    outcome: HandshakeOutcome::CancelSession(key),
                },
            )
        },
    }
}

/// The step taken on every out-of-sequence message: no reply, no upgrade,
/// the connection fails with a protocol violation.
pub open spec fn spec_violation_step() -> HandshakeStep {
    HandshakeStep {
        reply: None,
        upgrade_to_tls: false,
        outcome: HandshakeOutcome::Failed(ProxyError::ProtocolViolation),
    }
}

impl HandshakeState {
    /// The state of a freshly accepted connection.
    pub fn new(tls_configured: bool) -> (s: Self)
        ensures
            s == spec_init(tls_configured),
    {
        HandshakeState {
            channel: ChannelState::Raw,
            tried_ssl: false,
            tried_gss: false,
            tls_available: tls_configured,
        }
    }

    /// Consume one startup-phase message and say what to do for it.
    pub fn step(&mut self, msg: FeStartupMessage) -> (r: HandshakeStep)
        ensures
            (*final(self), r) == spec_step(*old(self), msg),
    {
        match msg {
            FeStartupMessage::SslRequest => {
                if self.channel == ChannelState::Raw && !self.tried_ssl {
                    let enc = self.tls_available;
                    self.tried_ssl = true;
                    self.tls_available = false;
                    if enc {
                        self.channel = ChannelState::Tls;
                    }
                    HandshakeStep {
                        reply: Some(BeMessage::EncryptionResponse(enc)),
                        upgrade_to_tls: enc,
                        outcome: HandshakeOutcome::Continue,
                    }
                } else {
                    Self::violation()
                }
            },
            FeStartupMessage::GssEncRequest => {
                if self.channel == ChannelState::Raw && !self.tried_gss {
                    self.tried_gss = true;
                    HandshakeStep {
                        reply: Some(BeMessage::EncryptionResponse(false)),
                        upgrade_to_tls: false,
                        outcome: HandshakeOutcome::Continue,
                    }
                } else {
                    Self::violation()
                }
            },
            FeStartupMessage::StartupMessage { params } => {
                if self.tls_available {
                    HandshakeStep {
                        reply: Some(BeMessage::ErrorResponse(ProxyError::InsecureConnection)),
                        upgrade_to_tls: false,
                        outcome: HandshakeOutcome::Failed(ProxyError::InsecureConnection),
                    }
                } else {
                    HandshakeStep {
                        reply: None,
                        upgrade_to_tls: false,
                        outcome: HandshakeOutcome::Established(params),
                    }
                }
            },
            FeStartupMessage::CancelRequest(key) => {
                HandshakeStep {
                    reply: None,
                    upgrade_to_tls: false,
                    outcome: HandshakeOutcome::CancelSession(key),
                }
            },
        }
    }

    fn violation() -> (r: HandshakeStep)
        ensures
            r == spec_violation_step(),
    {
        HandshakeStep {
            reply: None,
            upgrade_to_tls: false,
            outcome: HandshakeOutcome::Failed(ProxyError::ProtocolViolation),
        }
    }
}

/// The replies one step owes the client, as a sequence.
pub open spec fn spec_step_replies(step: HandshakeStep) -> Seq<BeMessage> {
    match step.reply {
        Some(m) => seq![m],
        None => Seq::empty(),
    }
}

/// The whole startup negotiation on a sequence of client messages:
/// steps through them from the front until a step ends the handshake,
/// collecting the replies sent to the client along the way. If the
/// sequence runs out first, the outcome is still `Continue` (the
/// connection is waiting for its next message).
pub open spec fn spec_run(s: HandshakeState, msgs: Seq<FeStartupMessage>) -> (
    HandshakeState,
    Seq<BeMessage>,
    HandshakeOutcome,
)
    decreases msgs.len(),
{
    if msgs.len() == 0 {
        (s, Seq::empty(), HandshakeOutcome::Continue)
    } else {
        let (s2, step) = spec_step(s, msgs[0]);
        let replies = spec_step_replies(step);
        match step.outcome {
            HandshakeOutcome::Continue => {
                let (s3, rest, out) = spec_run(s2, msgs.drop_first());
                (s3, replies + rest, out)
            },
            out => (s2, replies, out),
        }
    }
}

/// Drive the handshake over a whole sequence of already-decoded client
/// messages, returning every reply owed to the client and the outcome.
/// This is the handshake loop with the transport taken out; a driver
/// that reads one message at a time uses `HandshakeState::step` instead.
#[verifier::loop_isolation(false)]
pub fn run_handshake(tls_configured: bool, msgs: Vec<FeStartupMessage>) -> (r: (
    Vec<BeMessage>,
    HandshakeOutcome,
))
    ensures
        ({
            let (_, replies, outcome) = spec_run(spec_init(tls_configured), msgs@);
            r.0@ == replies && r.1 == outcome
        }),
{
    let ghost all_msgs = msgs@;
    let mut msgs = msgs;
    let mut state = HandshakeState::new(tls_configured);
    let mut replies: Vec<BeMessage> = Vec::new();
    proof {
        assert(Seq::<BeMessage>::empty() + spec_run(state, msgs@).1 =~= spec_run(state, msgs@).1);
    }
    loop
        invariant
            ({
                let (fs, rs, out) = spec_run(state, msgs@);
                spec_run(spec_init(tls_configured), all_msgs) == (fs, replies@ + rs, out)
            }),
        decreases msgs@.len(),
    {
        if msgs.is_empty() {
            proof {
                assert(replies@ + Seq::<BeMessage>::empty() =~= replies@);
            }
            return (replies, HandshakeOutcome::Continue);
        }
        let ghost prev_msgs = msgs@;
        let ghost s0 = state;
        let msg = msgs.remove(0);
        proof {
            assert(msgs@ =~= prev_msgs.drop_first());
        }
        let step = state.step(msg);
        let ghost replies_before = replies@;
        if let Some(reply) = step.reply {
            replies.push(reply);
        }
        proof {
            assert(replies@ =~= replies_before + spec_step_replies(spec_step(s0, prev_msgs[0]).1));
        }
        match step.outcome {
            HandshakeOutcome::Continue => {
                proof {
                    let (fs, rs, out) = spec_run(state, msgs@);
                    assert(replies_before + spec_run(s0, prev_msgs).1 =~= replies@ + rs);
                }
            },
            outcome => {
                proof {
                    assert(replies_before + spec_run(s0, prev_msgs).1 =~= replies@);
                }
                return (replies, outcome);
            },
        }
    }
}

/// Law: when no TLS configuration is present, the handshake never fails
/// as insecure, on any message sequence, and a startup message is
/// accepted as it comes, with no SSL request required first.
pub proof fn lemma_no_tls_never_insecure(msgs: Seq<FeStartupMessage>, params: StartupParams)
    ensures
        spec_run(spec_init(false), msgs).2 != HandshakeOutcome::Failed(
            ProxyError::InsecureConnection,
        ),
        spec_step(spec_init(false), FeStartupMessage::StartupMessage { params }).1.outcome
            == HandshakeOutcome::Established(params),
{
    lemma_run_without_tls_never_insecure(spec_init(false), msgs);
}

/// Helper for the law above: from any state whose TLS configuration is
/// absent or already consumed, no run ever fails as insecure.
pub proof fn lemma_run_without_tls_never_insecure(s: HandshakeState, msgs: Seq<FeStartupMessage>)
    requires
        !s.tls_available,
    ensures
        !spec_run(s, msgs).0.tls_available,
        spec_run(s, msgs).2 != HandshakeOutcome::Failed(ProxyError::InsecureConnection),
    decreases msgs.len(),
{
    if msgs.len() > 0 {
        let (s2, step) = spec_step(s, msgs[0]);
        if step.outcome is Continue {
            lemma_run_without_tls_never_insecure(s2, msgs.drop_first());
        }
    }
}

/// The security invariant of a connection whose proxy has TLS configured:
/// while the channel is still raw, the TLS configuration is still
/// pending, so a plaintext startup message cannot slip through.
pub open spec fn spec_secure_inv(s: HandshakeState) -> bool {
    s.channel == ChannelState::Raw ==> s.tls_available
}

/// Law: under the security invariant, a startup message on a channel that
/// was never upgraded is always rejected as insecure — the client gets an
/// explicit error and no session is established.
pub proof fn lemma_startup_on_raw_rejected(s: HandshakeState, params: StartupParams)
    requires
        spec_secure_inv(s),
        s.channel == ChannelState::Raw,
    ensures
        ({
            let (s2, step) = spec_step(s, FeStartupMessage::StartupMessage { params });
            &&& s2 == s
            &&& step.reply == Some(BeMessage::ErrorResponse(ProxyError::InsecureConnection))
            &&& step.outcome == HandshakeOutcome::Failed(ProxyError::InsecureConnection)
        }),
{
}

/// Law: with TLS configured, every run that establishes a session ends on
/// an upgraded channel; a plaintext session can never be reached.
pub proof fn lemma_tls_required_session_is_tls(msgs: Seq<FeStartupMessage>)
    ensures
        spec_run(spec_init(true), msgs).2 matches HandshakeOutcome::Established(_) ==> spec_run(
            spec_init(true),
            msgs,
        ).0.channel == ChannelState::Tls,
{
    lemma_run_secure_inv(spec_init(true), msgs);
}

/// Helper for the law above: the security invariant is preserved by every
/// step, and an established outcome implies an upgraded channel.
pub proof fn lemma_run_secure_inv(s: HandshakeState, msgs: Seq<FeStartupMessage>)
    requires
        spec_secure_inv(s),
    ensures
        spec_secure_inv(spec_run(s, msgs).0),
        spec_run(s, msgs).2 matches HandshakeOutcome::Established(_) ==> spec_run(
            s,
            msgs,
        ).0.channel == ChannelState::Tls,
    decreases msgs.len(),
{
    if msgs.len() > 0 {
        let (s2, step) = spec_step(s, msgs[0]);
        if step.outcome is Continue {
            lemma_run_secure_inv(s2, msgs.drop_first());
        }
    }
}

/// Law: a second SSL request on the same connection, after the first has
/// been answered, always fails as a protocol violation and changes
/// nothing — whether or not the first request upgraded the channel.
pub proof fn lemma_second_ssl_rejected(s: HandshakeState)
    ensures
        s.tried_ssl ==> spec_step(s, FeStartupMessage::SslRequest) == (
            s,
            spec_violation_step(),
        ),
        ({
            let (s1, first) = spec_step(s, FeStartupMessage::SslRequest);
            first.outcome is Continue ==> spec_step(s1, FeStartupMessage::SslRequest) == (
                s1,
                spec_violation_step(),
            )
        }),
{
}

/// Law: a second GSS request on the same connection, after the first has
/// been answered, always fails as a protocol violation and changes
/// nothing.
pub proof fn lemma_second_gss_rejected(s: HandshakeState)
    ensures
        s.tried_gss && s.channel == ChannelState::Raw ==> spec_step(
            s,
            FeStartupMessage::GssEncRequest,
        ) == (s, spec_violation_step()),
        ({
            let (s1, first) = spec_step(s, FeStartupMessage::GssEncRequest);
            first.outcome is Continue ==> spec_step(s1, FeStartupMessage::GssEncRequest) == (
                s1,
                spec_violation_step(),
            )
        }),
{
}

} // verus!
