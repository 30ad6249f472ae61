use terong::{encode_frame, poke_frame, FrameError, MessageReader, MAX_FRAME_LEN};

#[test]
fn encode_frame_prefixes_big_endian_length() {
    let frame = encode_frame(&[7, 8, 9]).unwrap();
    assert_eq!(frame, vec![0, 3, 7, 8, 9]);
}

#[test]
fn encode_frame_length_above_one_byte() {
    let payload = vec![0xab; 300];
    let frame = encode_frame(&payload).unwrap();
    assert_eq!(&frame[..2], &[1, 44]);
    assert_eq!(frame.len(), 302);
    assert_eq!(&frame[2..], &payload[..]);
}

#[test]
fn encode_frame_rejects_empty_payload() {
    assert_eq!(encode_frame(&[]), Err(FrameError::EmptyPayload));
}

#[test]
fn encode_frame_rejects_oversized_payload() {
    let payload = vec![1u8; MAX_FRAME_LEN + 1];
    assert_eq!(encode_frame(&payload), Err(FrameError::TooLong));
}

#[test]
fn poke_is_two_zero_bytes() {
    assert_eq!(poke_frame(), vec![0, 0]);
}

#[test]
fn round_trip_single_frame() {
    let payload = vec![1, 2, 3, 4];
    let mut reader = MessageReader::new();
    reader.receive(&encode_frame(&payload).unwrap());
    assert_eq!(reader.next_frame(), Some(payload));
    assert_eq!(reader.len(), 0);
    assert_eq!(reader.next_frame(), None);
}

#[test]
fn round_trip_at_maximum_length() {
    let payload: Vec<u8> = (0..MAX_FRAME_LEN).map(|i| (i % 251) as u8).collect();
    let frame = encode_frame(&payload).unwrap();
    assert_eq!(&frame[..2], &[0xff, 0xff]);
    let mut reader = MessageReader::new();
    reader.receive(&frame);
    assert_eq!(reader.next_frame(), Some(payload));
}

#[test]
fn round_trip_keeps_following_bytes() {
    let mut reader = MessageReader::new();
    let mut bytes = encode_frame(&[5]).unwrap();
    bytes.extend_from_slice(&encode_frame(&[6, 6]).unwrap());
    bytes.push(0);
    reader.receive(&bytes);
    assert_eq!(reader.next_frame(), Some(vec![5]));
    assert_eq!(reader.next_frame(), Some(vec![6, 6]));
    assert_eq!(reader.len(), 1);
    assert_eq!(reader.next_frame(), None);
    assert_eq!(reader.len(), 1);
}

#[test]
fn pokes_before_a_frame_are_skipped() {
    let mut reader = MessageReader::new();
    reader.receive(&poke_frame());
    reader.receive(&poke_frame());
    reader.receive(&encode_frame(&[42]).unwrap());
    assert_eq!(reader.next_frame(), Some(vec![42]));
    assert_eq!(reader.len(), 0);
}

#[test]
fn poke_alone_yields_nothing() {
    let mut reader = MessageReader::new();
    reader.receive(&poke_frame());
    reader.receive(&poke_frame());
    assert_eq!(reader.len(), 4);
    assert_eq!(reader.next_frame(), None);
    assert_eq!(reader.len(), 0);
    reader.receive(&encode_frame(&[9, 9]).unwrap());
    assert_eq!(reader.next_frame(), Some(vec![9, 9]));
}

#[test]
fn pokes_before_incomplete_frame_are_dropped() {
    let frame = encode_frame(&[8, 8]).unwrap();
    let mut reader = MessageReader::new();
    reader.receive(&poke_frame());
    reader.receive(&frame[..3]);
    assert_eq!(reader.next_frame(), None);
    assert_eq!(reader.len(), 3);
    reader.receive(&frame[3..]);
    assert_eq!(reader.next_frame(), Some(vec![8, 8]));
}

#[test]
fn incomplete_frame_consumes_nothing() {
    let frame = encode_frame(&[1, 2, 3]).unwrap();
    let mut reader = MessageReader::new();
    reader.receive(&frame[..1]);
    assert_eq!(reader.next_frame(), None);
    assert_eq!(reader.len(), 1);
    reader.receive(&frame[1..4]);
    assert_eq!(reader.next_frame(), None);
    assert_eq!(reader.len(), 4);
    reader.receive(&frame[4..]);
    assert_eq!(reader.next_frame(), Some(vec![1, 2, 3]));
}

#[test]
fn interrupted_receive_returns_same_frame() {
    let mut bytes = poke_frame();
    bytes.extend_from_slice(&encode_frame(&[10, 20, 30]).unwrap());
    bytes.extend_from_slice(&encode_frame(&[40]).unwrap());
    for split in 0..bytes.len() {
        let mut reader = MessageReader::new();
        reader.receive(&bytes[..split]);
        let early = reader.next_frame();
        reader.receive(&bytes[split..]);
        let mut frames = Vec::new();
        if let Some(f) = early {
            frames.push(f);
        }
        while let Some(f) = reader.next_frame() {
            frames.push(f);
        }
        assert_eq!(frames, vec![vec![10, 20, 30], vec![40]]);
    }
}
