use terong::{
    Certificate, ClientAction, ClientError, ClientInput, ClientMessage, ClientSession, Fingerprint,
    HelloReply, HelloReplyError, InputEvent, KeyCode, ServerMessage, State,
    UpgradeTransportRequest,
};

fn accepted(fingerprint: Fingerprint) -> ClientInput {
    ClientInput::Received(ServerMessage::HelloReply(HelloReply::Accepted(
        UpgradeTransportRequest { server_tls_cert_hash: fingerprint },
    )))
}

#[test]
fn client_starts_with_hello() {
    let (session, action) = ClientSession::new("1.0.0".to_string(), false);
    assert_eq!(session.state(), State::Handshaking);
    match action {
        ClientAction::Send(ClientMessage::Hello(hello)) => assert_eq!(hello.client_version, "1.0.0"),
        other => panic!("unexpected {:?}", other),
    }
}

#[test]
fn client_handshake_then_relay() {
    let server_cert = Certificate(b"server".to_vec());
    let client_cert = Certificate(b"client".to_vec());
    let (mut session, _) = ClientSession::new("1.0.0".to_string(), false);
    assert!(matches!(session.step(ClientInput::Sent), ClientAction::Receive));
    assert!(matches!(
        session.step(accepted(server_cert.fingerprint())),
        ClientAction::GenerateCertificate
    ));
    match session.step(ClientInput::CertificateGenerated(client_cert.clone())) {
        ClientAction::Send(ClientMessage::UpgradeTransportResponse(response)) => {
            assert_eq!(response.client_tls_cert_hash, client_cert.fingerprint())
        }
        other => panic!("unexpected {:?}", other),
    }
    match session.step(ClientInput::Sent) {
        ClientAction::Upgrade { verifier } => {
            assert!(verifier.verify_cert(&server_cert.0));
            assert!(!verifier.verify_cert(&client_cert.0));
        }
        other => panic!("unexpected {:?}", other),
    }
    assert_eq!(session.state(), State::Handshaking);
    assert!(matches!(session.step(ClientInput::Upgraded), ClientAction::Receive));
    assert_eq!(session.state(), State::Idle);
    let event = InputEvent::KeyDown { key: KeyCode::A };
    assert!(matches!(
        session.step(ClientInput::Received(ServerMessage::Event(event))),
        ClientAction::Deliver(e) if e == event
    ));
    assert_eq!(session.state(), State::ReceivedEvent { event });
    assert!(matches!(session.step(ClientInput::Delivered), ClientAction::Receive));
    assert_eq!(session.state(), State::Idle);
}

#[test]
fn client_without_tls_skips_upgrade() {
    let (mut session, _) = ClientSession::new("1.0.0".to_string(), true);
    session.step(ClientInput::Sent);
    session.step(accepted(Fingerprint([1; 32])));
    session.step(ClientInput::CertificateGenerated(Certificate(vec![1])));
    assert!(matches!(session.step(ClientInput::Sent), ClientAction::Receive));
    assert_eq!(session.state(), State::Idle);
}

#[test]
fn client_stops_on_version_mismatch() {
    let (mut session, _) = ClientSession::new("9.9.9".to_string(), false);
    session.step(ClientInput::Sent);
    let reply = ClientInput::Received(ServerMessage::HelloReply(HelloReply::Rejected(
        HelloReplyError::VersionMismatch,
    )));
    assert!(matches!(
        session.step(reply),
        ClientAction::Close(ClientError::Rejected(HelloReplyError::VersionMismatch))
    ));
    assert_eq!(session.state(), State::Closed);
    assert!(matches!(session.step(ClientInput::Upgraded), ClientAction::Close(_)));
}

#[test]
fn client_rejects_event_during_handshake() {
    let (mut session, _) = ClientSession::new("1.0.0".to_string(), false);
    session.step(ClientInput::Sent);
    let event = ServerMessage::Event(InputEvent::MouseMove { dx: 1, dy: 2 });
    assert!(matches!(
        session.step(ClientInput::Received(event)),
        ClientAction::Close(ClientError::UnexpectedMessage)
    ));
}

#[test]
fn client_rejects_hello_reply_when_idle() {
    let (mut session, _) = ClientSession::new("1.0.0".to_string(), true);
    session.step(ClientInput::Sent);
    session.step(accepted(Fingerprint([1; 32])));
    session.step(ClientInput::CertificateGenerated(Certificate(vec![1])));
    session.step(ClientInput::Sent);
    assert!(matches!(
        session.step(accepted(Fingerprint([2; 32]))),
        ClientAction::Close(ClientError::UnexpectedMessage)
    ));
}

#[test]
fn client_rejects_outcome_it_did_not_ask_for() {
    let (mut session, _) = ClientSession::new("1.0.0".to_string(), false);
    assert!(matches!(
        session.step(ClientInput::Delivered),
        ClientAction::Close(ClientError::UnexpectedInput)
    ));
}
