use ghostlink::wire::{EncryptionMode, HandshakeMsg, StreamMessage};

#[test]
fn handshake_frames_have_the_documented_layout() {
    let key = [0xabu8; 32];
    let syn = HandshakeMsg::Syn { public_key: key, mode: EncryptionMode::Aes256Gcm }.encode();
    assert_eq!(syn.len(), 37);
    assert_eq!(&syn[..4], &[0, 0, 0, 0]);
    assert_eq!(&syn[4..36], &key);
    assert_eq!(syn[36], 1);
    let ack = HandshakeMsg::SynAck { public_key: key }.encode();
    assert_eq!(ack.len(), 36);
    assert_eq!(&ack[..4], &[1, 0, 0, 0]);
    assert_eq!(HandshakeMsg::Bye.encode(), vec![2, 0, 0, 0]);
    let chacha = HandshakeMsg::Syn { public_key: key, mode: EncryptionMode::ChaCha20Poly1305 }.encode();
    assert_eq!(chacha[36], 0);
}

#[test]
fn handshake_frames_round_trip() {
    let key = [3u8; 32];
    match HandshakeMsg::decode(&HandshakeMsg::Syn { public_key: key, mode: EncryptionMode::Aes256Gcm }.encode()) {
        Some(HandshakeMsg::Syn { public_key, mode }) => {
            assert_eq!(public_key, key);
            assert_eq!(mode, EncryptionMode::Aes256Gcm);
        },
        other => panic!("unexpected {:?}", other),
    }
    assert!(matches!(
        HandshakeMsg::decode(&HandshakeMsg::SynAck { public_key: key }.encode()),
        Some(HandshakeMsg::SynAck { public_key }) if public_key == key
    ));
    assert!(matches!(HandshakeMsg::decode(&[2, 0, 0, 0]), Some(HandshakeMsg::Bye)));
}

#[test]
fn malformed_handshake_frames_are_rejected() {
    assert!(HandshakeMsg::decode(&[]).is_none());
    assert!(HandshakeMsg::decode(&[2, 0, 0]).is_none());
    assert!(HandshakeMsg::decode(&[2, 0, 0, 0, 0]).is_none());
    assert!(HandshakeMsg::decode(&[3, 0, 0, 0]).is_none());
    let mut syn = HandshakeMsg::Syn { public_key: [1; 32], mode: EncryptionMode::ChaCha20Poly1305 }.encode();
    syn[36] = 2;
    assert!(HandshakeMsg::decode(&syn).is_none());
    syn.pop();
    assert!(HandshakeMsg::decode(&syn).is_none());
}

#[test]
fn stream_frames_round_trip() {
    let text = StreamMessage::Text("héllo".to_string()).encode();
    assert_eq!(&text[..4], &[0, 0, 0, 0]);
    assert_eq!(&text[4..12], &6u64.to_le_bytes());
    assert_eq!(&text[12..], "héllo".as_bytes());
    match StreamMessage::decode(&text) {
        Some(StreamMessage::Text(s)) => assert_eq!(s, "héllo"),
        other => panic!("unexpected {:?}", other),
    }
    assert_eq!(StreamMessage::Bye.encode(), vec![1, 0, 0, 0]);
    assert!(matches!(StreamMessage::decode(&[1, 0, 0, 0]), Some(StreamMessage::Bye)));
    let empty = StreamMessage::Text(String::new()).encode();
    assert_eq!(empty.len(), 12);
    assert!(matches!(StreamMessage::decode(&empty), Some(StreamMessage::Text(s)) if s.is_empty()));
}

#[test]
fn malformed_stream_frames_are_rejected() {
    let mut text = StreamMessage::Text("abc".to_string()).encode();
    text[4] = 4;
    assert!(StreamMessage::decode(&text).is_none());
    let mut bad_utf8 = vec![0, 0, 0, 0, 1, 0, 0, 0, 0, 0, 0, 0];
    bad_utf8.push(0xff);
    assert!(StreamMessage::decode(&bad_utf8).is_none());
    assert!(StreamMessage::decode(&[1, 0, 0, 0, 0]).is_none());
    assert!(StreamMessage::decode(&[0, 0, 0, 0]).is_none());
}
