use terong::{
    Certificate, ClientAction, ClientError, ClientInput, ClientSession, HelloReplyError,
    InputEvent, KeyCode, ServerAction, ServerInput, ServerSession, SessionEnd, SessionState, State,
};

#[test]
fn version_mismatch_scenario() {
    let (mut client, hello) = ClientSession::new("9.9.9".to_string(), false);
    let mut server = ServerSession::new("1.0.0".to_string(), false, false);
    let hello = match hello {
        ClientAction::Send(msg) => msg,
        other => panic!("unexpected {:?}", other),
    };
    assert!(matches!(client.step(ClientInput::Sent), ClientAction::Receive));
    let reply = match server.step(ServerInput::Received(hello)) {
        ServerAction::Send(msg) => msg,
        other => panic!("unexpected {:?}", other),
    };
    assert!(matches!(server.step(ServerInput::Sent), ServerAction::Close(SessionEnd::VersionMismatch)));
    assert!(matches!(
        client.step(ClientInput::Received(reply)),
        ClientAction::Close(ClientError::Rejected(HelloReplyError::VersionMismatch))
    ));
    assert_eq!(client.state(), State::Closed);
    assert_eq!(server.state(), SessionState::Closed);
}

#[test]
fn client_and_server_complete_handshake_and_relay() {
    let client_cert = Certificate(b"client certificate".to_vec());
    let server_cert = Certificate(b"server certificate".to_vec());
    let (mut client, first) = ClientSession::new("1.0.0".to_string(), false);
    let mut server = ServerSession::new("1.0.0".to_string(), false, false);

    let mut client_action = first;
    let mut server_action = ServerAction::Receive;
    let mut client_upgraded = false;
    let mut server_upgraded = false;
    for _ in 0..20 {
        if client.state() == State::Idle && server.state() == SessionState::Idle {
            break;
        }
        client_action = match client_action {
            ClientAction::Send(msg) => {
                assert!(matches!(server_action, ServerAction::Receive));
                server_action = server.step(ServerInput::Received(msg));
                client.step(ClientInput::Sent)
            }
            ClientAction::GenerateCertificate => {
                client.step(ClientInput::CertificateGenerated(client_cert.clone()))
            }
            ClientAction::Upgrade { verifier } => {
                assert!(verifier.verify_cert(&server_cert.0));
                client_upgraded = true;
                client.step(ClientInput::Upgraded)
            }
            ClientAction::Receive => match server_action {
                ServerAction::Send(msg) => {
                    server_action = server.step(ServerInput::Sent);
                    client.step(ClientInput::Received(msg))
                }
                ServerAction::GenerateCertificate => {
                    server_action = server
                        .step(ServerInput::CertificateGenerated(server_cert.clone()));
                    ClientAction::Receive
                }
                ServerAction::Upgrade { verifier } => {
                    assert!(verifier.verify_cert(&client_cert.0));
                    server_upgraded = true;
                    server_action = server.step(ServerInput::Upgraded);
                    ClientAction::Receive
                }
                other => panic!("unexpected {:?}", other),
            },
            other => panic!("unexpected {:?}", other),
        };
    }
    assert!(client_upgraded && server_upgraded);
    assert_eq!(client.state(), State::Idle);
    assert_eq!(server.state(), SessionState::Idle);
    assert!(matches!(server_action, ServerAction::NextEvent));

    let event = InputEvent::KeyDown { key: KeyCode::Escape };
    let msg = match server.step(ServerInput::EventArrived(Some(event))) {
        ServerAction::Send(msg) => msg,
        other => panic!("unexpected {:?}", other),
    };
    assert!(matches!(
        client.step(ClientInput::Received(msg)),
        ClientAction::Deliver(e) if e == event
    ));
}
