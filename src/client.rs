//! The client side of a session: hello, certificate exchange, upgrade to a
//! secure transport, then relaying every received event to the injector.
//!
//! The session decides; its caller does the work. Each call of
//! [`ClientSession::step`] takes the outcome of the previous action and
//! returns the next action to perform.

use vstd::prelude::*;

use crate::input_event::InputEvent;
use crate::pinning::{sha256_of, Pin, SingleCertVerifier};
use crate::protocol::{
    Certificate, ClientMessage, Fingerprint, HelloMessage, HelloReply, HelloReplyError,
    ServerMessage, UpgradeTransportResponse,
};

verus! {

/// The client session's state as seen from outside.
#[derive(Clone, Copy, Debug, PartialEq, Eq, Structural)]
pub enum State {
    Handshaking,
    Idle,
    ReceivedEvent { event: InputEvent },
    Closed,
}

/// Where the client session stands.
#[derive(Clone, Copy, Debug, PartialEq, Eq)]
pub enum ClientPhase {
    /// The hello is being sent.
    SendingHello,
    /// Waiting for the server's reply to the hello.
    AwaitingHelloReply,
    /// The server offered an upgrade; a certificate is being generated.
    GeneratingCertificate { server_fingerprint: Fingerprint },
    /// The client's fingerprint is being sent.
    SendingFingerprint { server_fingerprint: Fingerprint },
    /// The transport is being secured.
    Upgrading,
    /// Waiting for the next event.
    Idle,
    /// An event is being handed to the injector.
    ReceivedEvent { event: InputEvent },
    /// The session is over.
    Closed,
}

/// The outcome of the action last performed.
#[derive(Clone, Debug, PartialEq, Eq)]
pub enum ClientInput {
    /// The message was sent.
    Sent,
    /// A message arrived.
    Received(ServerMessage),
    /// A fresh certificate was generated; its key stays with the caller.
    CertificateGenerated(Certificate),
    /// The transport is now secure.
    Upgraded,
    /// The event was handed to the injector.
    Delivered,
}

/// Why a client session ended.
#[derive(Clone, Copy, Debug, PartialEq, Eq, Structural)]
pub enum ClientError {
    /// The server turned the client away.
    Rejected(HelloReplyError),
    /// The server sent a message that does not fit the session's state.
    UnexpectedMessage,
    /// The session was handed an outcome of an action it did not ask for.
    UnexpectedInput,
}

/// What the caller performs next.
#[derive(Debug)]
pub enum ClientAction {
    /// Send the message.
    Send(ClientMessage),
    /// Wait for the next message.
    Receive,
    /// Generate a fresh self-signed certificate and key.
    GenerateCertificate,
    /// Secure the transport, presenting the generated certificate and
    /// trusting only what `verifier` accepts.
    Upgrade { verifier: SingleCertVerifier },
    /// Hand the event to the injector.
    Deliver(InputEvent),
    /// End the session.
    Close(ClientError),
}

/// The state seen from outside for a phase.
pub open spec fn client_state_of(phase: ClientPhase) -> State {
    match phase {
        ClientPhase::Idle => State::Idle,
        ClientPhase::ReceivedEvent { event } => State::ReceivedEvent { event },
        ClientPhase::Closed => State::Closed,
        _ => State::Handshaking,
    }
}

/// The first message of a session: a hello with the client's version.
pub open spec fn is_hello(action: ClientAction, version: Seq<char>) -> bool {
    action matches ClientAction::Send(ClientMessage::Hello(hello)) && hello.client_version@
        == version
}

/// One step of a client session: from phase `pre`, on `input`, the session
/// moves to `post` and asks for `action`.
pub open spec fn client_next(
    no_tls: bool,
    pre: ClientPhase,
    input: ClientInput,
    post: ClientPhase,
    action: ClientAction,
) -> bool {
    match pre {
        ClientPhase::SendingHello => match input {
            ClientInput::Sent => post == ClientPhase::AwaitingHelloReply && action
                == ClientAction::Receive,
            _ => post == ClientPhase::Closed && action == ClientAction::Close(
                ClientError::UnexpectedInput,
            ),
        },
        ClientPhase::AwaitingHelloReply => match input {
            ClientInput::Received(ServerMessage::HelloReply(HelloReply::Accepted(request))) => post
                == ClientPhase::GeneratingCertificate {
                server_fingerprint: request.server_tls_cert_hash,
            } && action == ClientAction::GenerateCertificate,
            ClientInput::Received(ServerMessage::HelloReply(HelloReply::Rejected(reason))) => post
                == ClientPhase::Closed && action == ClientAction::Close(
                ClientError::Rejected(reason),
            ),
            ClientInput::Received(_) => post == ClientPhase::Closed && action
                == ClientAction::Close(ClientError::UnexpectedMessage),
            _ => post == ClientPhase::Closed && action == ClientAction::Close(
                ClientError::UnexpectedInput,
            ),
        },
        ClientPhase::GeneratingCertificate { server_fingerprint } => match input {
            ClientInput::CertificateGenerated(cert) => post == ClientPhase::SendingFingerprint {
                server_fingerprint,
            } && (action matches ClientAction::Send(
                ClientMessage::UpgradeTransportResponse(response),
            ) && response.client_tls_cert_hash@ == sha256_of(cert@)),
            _ => post == ClientPhase::Closed && action == ClientAction::Close(
                ClientError::UnexpectedInput,
            ),
        },
        ClientPhase::SendingFingerprint { server_fingerprint } => match input {
            ClientInput::Sent => if no_tls {
                post == ClientPhase::Idle && action == ClientAction::Receive
            } else {
                post == ClientPhase::Upgrading && (action matches ClientAction::Upgrade {
                    verifier,
                } && verifier@ == Pin::Fingerprint(server_fingerprint@))
            },
            _ => post == ClientPhase::Closed && action == ClientAction::Close(
                ClientError::UnexpectedInput,
            ),
        },
        ClientPhase::Upgrading => match input {
            ClientInput::Upgraded => post == ClientPhase::Idle && action == ClientAction::Receive,
            _ => post == ClientPhase::Closed && action == ClientAction::Close(
                ClientError::UnexpectedInput,
            ),
        },
        ClientPhase::Idle => match input {
            ClientInput::Received(ServerMessage::Event(event)) => post
                == ClientPhase::ReceivedEvent { event } && action == ClientAction::Deliver(event),
            ClientInput::Received(_) => post == ClientPhase::Closed && action
                == ClientAction::Close(ClientError::UnexpectedMessage),
            _ => post == ClientPhase::Closed && action == ClientAction::Close(
                ClientError::UnexpectedInput,
            ),
        },
        ClientPhase::ReceivedEvent { .. } => match input {
            ClientInput::Delivered => post == ClientPhase::Idle && action == ClientAction::Receive,
            _ => post == ClientPhase::Closed && action == ClientAction::Close(
                ClientError::UnexpectedInput,
            ),
        },
        ClientPhase::Closed => post == ClientPhase::Closed && action == ClientAction::Close(
            ClientError::UnexpectedInput,
        ),
    }
}

/// A client session.
pub struct ClientSession {
    phase: ClientPhase,
    no_tls: bool,
}

impl ClientSession {
    /// Where the session stands.
    pub closed spec fn phase(&self) -> ClientPhase {
        self.phase
    }

    /// Whether the upgrade to a secure transport is skipped.
    pub closed spec fn tls_disabled(&self) -> bool {
        self.no_tls
    }

    /// A session that starts by sending a hello with `client_version`; with
    /// `no_tls` it never secures the transport. Returns the session and its
    /// first action.
    pub fn new(client_version: String, no_tls: bool) -> (r: (ClientSession, ClientAction))
        ensures
            r.0.phase() == ClientPhase::SendingHello,
            r.0.tls_disabled() == no_tls,
            is_hello(r.1, client_version@),
    {
        let hello = ClientMessage::Hello(HelloMessage { client_version });
        (ClientSession { phase: ClientPhase::SendingHello, no_tls }, ClientAction::Send(hello))
    }

    /// The state seen from outside.
    pub fn state(&self) -> (r: State)
        ensures
            r == client_state_of(self.phase()),
    {
        match self.phase {
            ClientPhase::Idle => State::Idle,
            ClientPhase::ReceivedEvent { event } => State::ReceivedEvent { event },
            ClientPhase::Closed => State::Closed,
            _ => State::Handshaking,
        }
    }

    /// Takes the outcome of the last action and returns the next one.
    pub fn step(&mut self, input: ClientInput) -> (r: ClientAction)
        ensures
            final(self).tls_disabled() == old(self).tls_disabled(),
            client_next(old(self).tls_disabled(), old(self).phase(), input, final(self).phase(), r),
    {
        let unexpected = ClientAction::Close(ClientError::UnexpectedInput);
        let (next, action) = match self.phase {
            ClientPhase::SendingHello => match input {
                ClientInput::Sent => (ClientPhase::AwaitingHelloReply, ClientAction::Receive),
                _ => (ClientPhase::Closed, unexpected),
            },
            ClientPhase::AwaitingHelloReply => match input {
                ClientInput::Received(ServerMessage::HelloReply(HelloReply::Accepted(request))) => (
                    ClientPhase::GeneratingCertificate {
                        server_fingerprint: request.server_tls_cert_hash,
                    },
                    ClientAction::GenerateCertificate,
                ),
                ClientInput::Received(ServerMessage::HelloReply(HelloReply::Rejected(reason))) => (
                    ClientPhase::Closed,
                    ClientAction::Close(ClientError::Rejected(reason)),
                ),
                ClientInput::Received(_) => (
                    ClientPhase::Closed,
                    ClientAction::Close(ClientError::UnexpectedMessage),
                ),
                _ => (ClientPhase::Closed, unexpected),
            },
            ClientPhase::GeneratingCertificate { server_fingerprint } => match input {
                ClientInput::CertificateGenerated(cert) => {
                    let response = UpgradeTransportResponse {
                        client_tls_cert_hash: cert.fingerprint(),
                    };
                    (
                        ClientPhase::SendingFingerprint { server_fingerprint },
                        ClientAction::Send(ClientMessage::UpgradeTransportResponse(response)),
                    )
                },
                _ => (ClientPhase::Closed, unexpected),
            },
            ClientPhase::SendingFingerprint { server_fingerprint } => match input {
                ClientInput::Sent => if self.no_tls {
                    (ClientPhase::Idle, ClientAction::Receive)
                } else {
                    let verifier = SingleCertVerifier::from_fingerprint(server_fingerprint);
                    (ClientPhase::Upgrading, ClientAction::Upgrade { verifier })
                },
                _ => (ClientPhase::Closed, unexpected),
            },
            ClientPhase::Upgrading => match input {
                ClientInput::Upgraded => (ClientPhase::Idle, ClientAction::Receive),
                _ => (ClientPhase::Closed, unexpected),
            },
            ClientPhase::Idle => match input {
                ClientInput::Received(ServerMessage::Event(event)) => (
                    ClientPhase::ReceivedEvent { event },
                    ClientAction::Deliver(event),
                ),
                ClientInput::Received(_) => (
                    ClientPhase::Closed,
                    ClientAction::Close(ClientError::UnexpectedMessage),
                ),
                _ => (ClientPhase::Closed, unexpected),
            },
            ClientPhase::ReceivedEvent { .. } => match input {
                ClientInput::Delivered => (ClientPhase::Idle, ClientAction::Receive),
                _ => (ClientPhase::Closed, unexpected),
            },
            ClientPhase::Closed => (ClientPhase::Closed, unexpected),
        };
        self.phase = next;
        action
    }
}

/// A client that the server turns away stops at once with the server's
/// reason: it generates no certificate and attempts no upgrade.
pub proof fn lemma_client_stops_on_rejection(
    no_tls: bool,
    reason: HelloReplyError,
    post: ClientPhase,
    action: ClientAction,
)
    requires
        client_next(
            no_tls,
            ClientPhase::AwaitingHelloReply,
            ClientInput::Received(ServerMessage::HelloReply(HelloReply::Rejected(reason))),
            post,
            action,
        ),
    ensures
        post == ClientPhase::Closed,
        action == ClientAction::Close(ClientError::Rejected(reason)),
        forall|input: ClientInput, next: ClientPhase, later: ClientAction|
            #[trigger] client_next(no_tls, post, input, next, later) ==> next == ClientPhase::Closed
                && later is Close,
{
}

} // verus!
