use terong::{encode_frame, ClientMessage, ModeError, ServerMessage, Transport, Transporter};

type Plain = Transporter<&'static str, String, ServerMessage, ClientMessage>;

fn plain() -> Plain {
    Transporter::Plain(Transport::new("tcp"))
}

#[test]
fn plain_accessor_in_each_mode() {
    let mut t = plain();
    assert!(t.is_plain());
    assert_eq!(*t.plain().unwrap().stream_mut(), "tcp");
    assert_eq!(t.secure().err(), Some(ModeError::ExpectedSecure));
}

#[test]
fn upgrade_keeps_buffered_bytes() {
    let mut t = plain();
    let frame = encode_frame(&[1, 2, 3]).unwrap();
    t.receive(&frame[..3]);
    let (stream, upgrading) = t.upgrade().unwrap();
    assert_eq!(stream, "tcp");
    let mut secure: Plain = upgrading.finish("tls".to_string());
    assert!(!secure.is_plain());
    assert_eq!(secure.plain().err(), Some(ModeError::ExpectedPlain));
    assert_eq!(secure.secure().unwrap().stream_mut().as_str(), "tls");
    secure.receive(&frame[3..]);
    assert_eq!(secure.next_frame(), Some(vec![1, 2, 3]));
}

#[test]
fn secure_transport_cannot_upgrade_again() {
    let t = plain();
    let (_, upgrading) = t.upgrade().unwrap();
    let secure: Plain = upgrading.finish("tls".to_string());
    assert!(matches!(secure.upgrade(), Err(ModeError::ExpectedPlain)));
}

#[test]
fn stream_mut_writes_through() {
    let mut t: Transport<Vec<u8>, ServerMessage, ClientMessage> = Transport::new(Vec::new());
    t.stream_mut().push(9);
    t.receive(&encode_frame(&[4]).unwrap());
    assert_eq!(t.stream_mut().as_slice(), &[9]);
    assert_eq!(t.next_frame(), Some(vec![4]));
    assert_eq!(t.next_frame(), None);
}
