//! The server side of a session: check the client's version, exchange
//! certificate fingerprints, optionally ask an operator, secure the
//! transport, then send each event that the manager hands over.
//!
//! As on the client, the session decides and its caller does the work: each
//! call of [`ServerSession::step`] takes the outcome of the previous action
//! and returns the next one.

use vstd::prelude::*;

use crate::input_event::InputEvent;
use crate::pinning::{sha256_of, Pin, SingleCertVerifier};
use crate::protocol::{
    Certificate, ClientMessage, Fingerprint, HelloReply, HelloReplyError, ServerMessage,
    UpgradeTransportRequest,
};

verus! {

/// The server session's state as seen by the session manager.
#[derive(Clone, Copy, Debug, PartialEq, Eq, Structural)]
pub enum SessionState {
    Handshaking,
    Idle,
    RelayingEvent { event: InputEvent },
    Closed,
}

/// Whether a session in `state` is past its handshake and still running.
pub open spec fn connected(state: SessionState) -> bool {
    state is Idle || state is RelayingEvent
}

/// Whether a session in `state` is past its handshake and still running, and
/// so may be handed events.
pub fn is_connected(state: &SessionState) -> (r: bool)
    ensures
        r == connected(*state),
{
    match state {
        SessionState::Handshaking => false,
        SessionState::Idle => true,
        SessionState::RelayingEvent { .. } => true,
        SessionState::Closed => false,
    }
}

/// Where the server session stands.
#[derive(Clone, Copy, Debug, PartialEq, Eq)]
pub enum ServerPhase {
    /// Waiting for the client's hello.
    AwaitingHello,
    /// The versions differ; the rejection is being sent.
    RejectingVersion,
    /// The versions match; a certificate is being generated.
    GeneratingCertificate,
    /// The reply with the server's fingerprint is being sent.
    SendingHelloReply,
    /// Waiting for the client's fingerprint.
    AwaitingClientFingerprint,
    /// Waiting for the operator to accept or reject the client.
    AwaitingConfirmation { client_fingerprint: Fingerprint },
    /// The transport is being secured.
    Upgrading,
    /// Waiting for the next event from the manager.
    Idle,
    /// An event is being sent to the client.
    RelayingEvent { event: InputEvent },
    /// The session is over.
    Closed,
}

/// The outcome of the action last performed.
#[derive(Clone, Debug, PartialEq, Eq)]
pub enum ServerInput {
    /// The message was sent.
    Sent,
    /// A message arrived.
    Received(ClientMessage),
    /// A fresh certificate was generated; its key stays with the caller.
    CertificateGenerated(Certificate),
    /// The operator's answer: `true` to accept the client.
    Confirmed(bool),
    /// The transport is now secure.
    Upgraded,
    /// The next event from the manager, or `None` once the manager hung up.
    EventArrived(Option<InputEvent>),
}

/// Why a server session ended.
#[derive(Clone, Copy, Debug, PartialEq, Eq, Structural)]
pub enum SessionEnd {
    /// The client runs another version; it was told so.
    VersionMismatch,
    /// The operator rejected the client.
    OperatorRejected,
    /// The manager stopped handing over events.
    ManagerClosed,
    /// The client sent a message that does not fit the session's state.
    UnexpectedMessage,
    /// The session was handed an outcome of an action it did not ask for.
    UnexpectedInput,
}

/// What the caller performs next.
#[derive(Debug)]
pub enum ServerAction {
    /// Send the message.
    Send(ServerMessage),
    /// Wait for the next message.
    Receive,
    /// Generate a fresh self-signed certificate and key.
    GenerateCertificate,
    /// Show the client's fingerprint to the operator and ask for an answer.
    Confirm { fingerprint: Fingerprint },
    /// Secure the transport, presenting the generated certificate and
    /// trusting only what `verifier` accepts.
    Upgrade { verifier: SingleCertVerifier },
    /// Wait for the next event from the manager.
    NextEvent,
    /// End the session.
    Close(SessionEnd),
}

/// The state seen by the manager for a phase.
pub open spec fn server_state_of(phase: ServerPhase) -> SessionState {
    match phase {
        ServerPhase::Idle => SessionState::Idle,
        ServerPhase::RelayingEvent { event } => SessionState::RelayingEvent { event },
        ServerPhase::Closed => SessionState::Closed,
        _ => SessionState::Handshaking,
    }
}

/// Once the client's fingerprint is accepted: secure the transport trusting
/// only that fingerprint, or, with TLS disabled, go straight to relaying.
pub open spec fn after_acceptance(
    no_tls: bool,
    client_fingerprint: Fingerprint,
    post: ServerPhase,
    action: ServerAction,
) -> bool {
    if no_tls {
        post == ServerPhase::Idle && action == ServerAction::NextEvent
    } else {
        post == ServerPhase::Upgrading && (action matches ServerAction::Upgrade { verifier }
            && verifier@ == Pin::Fingerprint(client_fingerprint@))
    }
}

/// The end of a session on an outcome that its phase did not ask for.
pub open spec fn closed_by(post: ServerPhase, action: ServerAction, end: SessionEnd) -> bool {
    post == ServerPhase::Closed && action == ServerAction::Close(end)
}

/// One step of a server session of version `version`: from phase `pre`, on
/// `input`, the session moves to `post` and asks for `action`. With `confirm`
/// an operator must accept the client's fingerprint; with `no_tls` the
/// transport is never secured.
pub open spec fn server_next(
    version: Seq<char>,
    confirm: bool,
    no_tls: bool,
    pre: ServerPhase,
    input: ServerInput,
    post: ServerPhase,
    action: ServerAction,
) -> bool {
    match pre {
        ServerPhase::AwaitingHello => match input {
            ServerInput::Received(ClientMessage::Hello(hello)) => if hello.client_version@
                == version {
                post == ServerPhase::GeneratingCertificate && action
                    == ServerAction::GenerateCertificate
            } else {
                post == ServerPhase::RejectingVersion && action == ServerAction::Send(
                    ServerMessage::HelloReply(
                        HelloReply::Rejected(HelloReplyError::VersionMismatch),
                    ),
                )
            },
            ServerInput::Received(_) => closed_by(post, action, SessionEnd::UnexpectedMessage),
            _ => closed_by(post, action, SessionEnd::UnexpectedInput),
        },
        ServerPhase::RejectingVersion => match input {
            ServerInput::Sent => closed_by(post, action, SessionEnd::VersionMismatch),
            _ => closed_by(post, action, SessionEnd::UnexpectedInput),
        },
        ServerPhase::GeneratingCertificate => match input {
            ServerInput::CertificateGenerated(cert) => post == ServerPhase::SendingHelloReply && (
            action matches ServerAction::Send(
                ServerMessage::HelloReply(HelloReply::Accepted(request)),
            ) && request.server_tls_cert_hash@ == sha256_of(cert@)),
            _ => closed_by(post, action, SessionEnd::UnexpectedInput),
        },
        ServerPhase::SendingHelloReply => match input {
            ServerInput::Sent => post == ServerPhase::AwaitingClientFingerprint && action
                == ServerAction::Receive,
            _ => closed_by(post, action, SessionEnd::UnexpectedInput),
        },
        ServerPhase::AwaitingClientFingerprint => match input {
            ServerInput::Received(ClientMessage::UpgradeTransportResponse(response)) => if confirm {
                post == ServerPhase::AwaitingConfirmation {
                    client_fingerprint: response.client_tls_cert_hash,
                } && action == ServerAction::Confirm {
                    fingerprint: response.client_tls_cert_hash,
                }
            } else {
                after_acceptance(no_tls, response.client_tls_cert_hash, post, action)
            },
            ServerInput::Received(_) => closed_by(post, action, SessionEnd::UnexpectedMessage),
            _ => closed_by(post, action, SessionEnd::UnexpectedInput),
        },
        ServerPhase::AwaitingConfirmation { client_fingerprint } => match input {
            ServerInput::Confirmed(accepted) => if accepted {
                after_acceptance(no_tls, client_fingerprint, post, action)
            } else {
                closed_by(post, action, SessionEnd::OperatorRejected)
            },
            _ => closed_by(post, action, SessionEnd::UnexpectedInput),
        },
        ServerPhase::Upgrading => match input {
            ServerInput::Upgraded => post == ServerPhase::Idle && action == ServerAction::NextEvent,
            _ => closed_by(post, action, SessionEnd::UnexpectedInput),
        },
        ServerPhase::Idle => match input {
            ServerInput::EventArrived(Some(event)) => post == ServerPhase::RelayingEvent { event }
                && action == ServerAction::Send(ServerMessage::Event(event)),
            ServerInput::EventArrived(None) => closed_by(post, action, SessionEnd::ManagerClosed),
            _ => closed_by(post, action, SessionEnd::UnexpectedInput),
        },
        ServerPhase::RelayingEvent { .. } => match input {
            ServerInput::Sent => post == ServerPhase::Idle && action == ServerAction::NextEvent,
            _ => closed_by(post, action, SessionEnd::UnexpectedInput),
        },
        ServerPhase::Closed => closed_by(post, action, SessionEnd::UnexpectedInput),
    }
}

/// A server session.
pub struct ServerSession {
    phase: ServerPhase,
    version: String,
    confirm: bool,
    no_tls: bool,
}

impl ServerSession {
    /// Where the session stands.
    pub closed spec fn phase(&self) -> ServerPhase {
        self.phase
    }

    /// The server's version.
    pub closed spec fn version(&self) -> Seq<char> {
        self.version@
    }

    /// Whether an operator must accept each client.
    pub closed spec fn confirms(&self) -> bool {
        self.confirm
    }

    /// Whether the upgrade to a secure transport is skipped.
    pub closed spec fn tls_disabled(&self) -> bool {
        self.no_tls
    }

    /// A session of a server of version `server_version`, waiting for the
    /// client's hello. With `confirm` an operator must accept the client's
    /// fingerprint; with `no_tls` the transport is never secured.
    pub fn new(server_version: String, confirm: bool, no_tls: bool) -> (r: ServerSession)
        ensures
            r.phase() == ServerPhase::AwaitingHello,
            r.version() == server_version@,
            r.confirms() == confirm,
            r.tls_disabled() == no_tls,
    {
        ServerSession { phase: ServerPhase::AwaitingHello, version: server_version, confirm, no_tls }
    }

    /// The state seen by the manager.
    pub fn state(&self) -> (r: SessionState)
        ensures
            r == server_state_of(self.phase()),
    {
        match self.phase {
            ServerPhase::Idle => SessionState::Idle,
            ServerPhase::RelayingEvent { event } => SessionState::RelayingEvent { event },
            ServerPhase::Closed => SessionState::Closed,
            _ => SessionState::Handshaking,
        }
    }

    fn accept_client(&self, client_fingerprint: Fingerprint) -> (r: (ServerPhase, ServerAction))
        ensures
            after_acceptance(self.no_tls, client_fingerprint, r.0, r.1),
    {
        if self.no_tls {
            (ServerPhase::Idle, ServerAction::NextEvent)
        } else {
            let verifier = SingleCertVerifier::from_fingerprint(client_fingerprint);
            (ServerPhase::Upgrading, ServerAction::Upgrade { verifier })
        }
    }

    /// Takes the outcome of the last action and returns the next one.
    pub fn step(&mut self, input: ServerInput) -> (r: ServerAction)
        ensures
            final(self).version() == old(self).version(),
            final(self).confirms() == old(self).confirms(),
            final(self).tls_disabled() == old(self).tls_disabled(),
            server_next(
                old(self).version(),
                old(self).confirms(),
                old(self).tls_disabled(),
                old(self).phase(),
                input,
                final(self).phase(),
                r,
            ),
    {
        let unexpected = (ServerPhase::Closed, ServerAction::Close(SessionEnd::UnexpectedInput));
        let (next, action) = match self.phase {
            ServerPhase::AwaitingHello => match input {
                ServerInput::Received(ClientMessage::Hello(hello)) => {
                    if hello.client_version == self.version {
                        (ServerPhase::GeneratingCertificate, ServerAction::GenerateCertificate)
                    } else {
                        let reply = HelloReply::Rejected(HelloReplyError::VersionMismatch);
                        (
                            ServerPhase::RejectingVersion,
                            ServerAction::Send(ServerMessage::HelloReply(reply)),
                        )
                    }
                },
                ServerInput::Received(_) => (
                    ServerPhase::Closed,
                    ServerAction::Close(SessionEnd::UnexpectedMessage),
                ),
                _ => unexpected,
            },
            ServerPhase::RejectingVersion => match input {
                ServerInput::Sent => (
                    ServerPhase::Closed,
                    ServerAction::Close(SessionEnd::VersionMismatch),
                ),
                _ => unexpected,
            },
            ServerPhase::GeneratingCertificate => match input {
                ServerInput::CertificateGenerated(cert) => {
                    let request = UpgradeTransportRequest {
                        server_tls_cert_hash: cert.fingerprint(),
                    };
                    (
                        ServerPhase::SendingHelloReply,
                        ServerAction::Send(ServerMessage::HelloReply(HelloReply::Accepted(request))),
                    )
                },
                _ => unexpected,
            },
            ServerPhase::SendingHelloReply => match input {
                ServerInput::Sent => (ServerPhase::AwaitingClientFingerprint, ServerAction::Receive),
                _ => unexpected,
            },
            ServerPhase::AwaitingClientFingerprint => match input {
                ServerInput::Received(ClientMessage::UpgradeTransportResponse(response)) => {
                    let client_fingerprint = response.client_tls_cert_hash;
                    if self.confirm {
                        (
                            ServerPhase::AwaitingConfirmation { client_fingerprint },
                            ServerAction::Confirm { fingerprint: client_fingerprint },
                        )
                    } else {
                        self.accept_client(client_fingerprint)
                    }
                },
                ServerInput::Received(_) => (
                    ServerPhase::Closed,
                    ServerAction::Close(SessionEnd::UnexpectedMessage),
                ),
                _ => unexpected,
            },
            ServerPhase::AwaitingConfirmation { client_fingerprint } => match input {
                ServerInput::Confirmed(accepted) => {
                    if accepted {
                        self.accept_client(client_fingerprint)
                    } else {
                        (ServerPhase::Closed, ServerAction::Close(SessionEnd::OperatorRejected))
                    }
                },
                _ => unexpected,
            },
            ServerPhase::Upgrading => match input {
                ServerInput::Upgraded => (ServerPhase::Idle, ServerAction::NextEvent),
                _ => unexpected,
            },
            ServerPhase::Idle => match input {
                ServerInput::EventArrived(Some(event)) => (
                    ServerPhase::RelayingEvent { event },
                    ServerAction::Send(ServerMessage::Event(event)),
                ),
                ServerInput::EventArrived(None) => (
                    ServerPhase::Closed,
                    ServerAction::Close(SessionEnd::ManagerClosed),
                ),
                _ => unexpected,
            },
            ServerPhase::RelayingEvent { .. } => match input {
                ServerInput::Sent => (ServerPhase::Idle, ServerAction::NextEvent),
                _ => unexpected,
            },
            ServerPhase::Closed => unexpected,
        };
        self.phase = next;
        action
    }
}

/// Starting from `Idle`, handing a session the events `events[0]`,
/// `events[1]`, ... one at a time, each followed by the completion of the send
/// it asked for, makes exactly one send per event, in the order given: before
/// the `i`-th send the session is `Idle`, during it the session is relaying
/// `events[i]` and sends it, and afterwards it is `Idle` again and waits for
/// the next event.
pub proof fn lemma_relay_in_order(
    version: Seq<char>,
    confirm: bool,
    no_tls: bool,
    idle: Seq<ServerPhase>,
    relaying: Seq<ServerPhase>,
    sends: Seq<ServerAction>,
    resumes: Seq<ServerAction>,
    events: Seq<InputEvent>,
)
    requires
        idle.len() == events.len() + 1,
        relaying.len() == events.len(),
        sends.len() == events.len(),
        resumes.len() == events.len(),
        idle[0] == ServerPhase::Idle,
        forall|i: int|
            0 <= i < events.len() ==> server_next(
                version,
                confirm,
                no_tls,
                #[trigger] idle[i],
                ServerInput::EventArrived(Some(events[i])),
                relaying[i],
                sends[i],
            ),
        forall|i: int|
            0 <= i < events.len() ==> server_next(
                version,
                confirm,
                no_tls,
                #[trigger] relaying[i],
                ServerInput::Sent,
                idle[i + 1],
                resumes[i],
            ),
    ensures
        forall|i: int| 0 <= i <= events.len() ==> #[trigger] idle[i] == ServerPhase::Idle,
        forall|i: int|
            0 <= i < events.len() ==> #[trigger] relaying[i] == (ServerPhase::RelayingEvent {
                event: events[i],
            }),
        forall|i: int|
            0 <= i < events.len() ==> #[trigger] sends[i] == ServerAction::Send(
                ServerMessage::Event(events[i]),
            ),
        forall|i: int| 0 <= i < events.len() ==> #[trigger] resumes[i] == ServerAction::NextEvent,
    decreases events.len(),
{
    if events.len() > 0 {
        let n = events.len() - 1;
        lemma_relay_in_order(
            version,
            confirm,
            no_tls,
            idle.subrange(0, n + 1),
            relaying.subrange(0, n),
            sends.subrange(0, n),
            resumes.subrange(0, n),
            events.subrange(0, n),
        );
        assert(forall|i: int| 0 <= i <= n ==> idle[i] == idle.subrange(0, n + 1)[i]);
        assert(forall|i: int| 0 <= i < n ==> relaying[i] == relaying.subrange(0, n)[i]);
        assert(forall|i: int| 0 <= i < n ==> sends[i] == sends.subrange(0, n)[i]);
        assert(forall|i: int| 0 <= i < n ==> resumes[i] == resumes.subrange(0, n)[i]);
        assert(idle[n] == ServerPhase::Idle);
        assert(server_next(
            version,
            confirm,
            no_tls,
            idle[n],
            ServerInput::EventArrived(Some(events[n])),
            relaying[n],
            sends[n],
        ));
        assert(server_next(version, confirm, no_tls, relaying[n], ServerInput::Sent, idle[n + 1], resumes[n]));
    }
}

/// A client of another version is told so and the session ends: no
/// certificate is generated and no upgrade is attempted.
pub proof fn lemma_version_mismatch(
    version: Seq<char>,
    confirm: bool,
    no_tls: bool,
    hello: crate::protocol::HelloMessage,
    rejecting: ServerPhase,
    reply: ServerAction,
    closed: ServerPhase,
    end: ServerAction,
)
    requires
        hello.client_version@ != version,
        server_next(
            version,
            confirm,
            no_tls,
            ServerPhase::AwaitingHello,
            ServerInput::Received(ClientMessage::Hello(hello)),
            rejecting,
            reply,
        ),
        server_next(version, confirm, no_tls, rejecting, ServerInput::Sent, closed, end),
    ensures
        reply == ServerAction::Send(
            ServerMessage::HelloReply(HelloReply::Rejected(HelloReplyError::VersionMismatch)),
        ),
        end == ServerAction::Close(SessionEnd::VersionMismatch),
        closed == ServerPhase::Closed,
{
}

} // verus!
