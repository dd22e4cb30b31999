use ghostlink::addr::Address;
use ghostlink::crypto::{derive_session, KeyPair};
use ghostlink::error::LinkError;
use ghostlink::session::{Farewell, MessageManager};
use ghostlink::state::{AppEvent, AppState, Status};
use ghostlink::wire::{EncryptionMode, HandshakeMsg, StreamMessage};

fn connected_pair() -> (MessageManager, AppState, MessageManager, AppState) {
    let alice = KeyPair::generate();
    let bob = KeyPair::generate();
    let mode = EncryptionMode::ChaCha20Poly1305;
    let sa = derive_session(alice.private, bob.public, mode, alice.public).unwrap();
    let sb = derive_session(bob.private, alice.public, mode, bob.public).unwrap();
    let (mut ma, mut mb) = (MessageManager::new(), MessageManager::new());
    let (mut sta, mut stb) = (AppState::new(), AppState::new());
    assert!(ma.handshake(&mut sta, Address::new(127, 0, 0, 1, 2), Ok(sa)).0.is_ok());
    assert!(mb.handshake(&mut stb, Address::new(127, 0, 0, 1, 1), Ok(sb)).0.is_ok());
    assert!(ma.upgrade_to_kcp().is_ok());
    assert!(mb.upgrade_to_kcp().is_ok());
    (ma, sta, mb, stb)
}

#[test]
fn test_initialization() {
    let manager = MessageManager::new();
    assert!(manager.peer_addr.is_none());
    assert!(!manager.stream_open);
    assert!(!manager.is_connected());
}

#[test]
fn test_upgrade_fails_without_handshake() {
    let mut manager = MessageManager::new();
    let result = manager.upgrade_to_kcp();
    assert!(result.is_err());
    assert_eq!(result.unwrap_err().message(), "Handshake not established.");
}

#[test]
fn test_send_fails_without_kcp() {
    let mut manager = MessageManager::new();
    let result = manager.send_message(b"hello");
    assert!(result.is_err());
    assert_eq!(result, Err(LinkError::NotConnected));
}

#[test]
fn test_receive_fails_without_kcp() {
    let mut manager = MessageManager::new();
    let buf = [0u8; 10];
    let result = manager.receive_message(&buf);
    assert!(result.is_err());
}

#[test]
fn test_close_kcp_safe_on_none() {
    let mut manager = MessageManager::new();
    assert!(!manager.close_kcp());
    assert!(!manager.close_kcp());
    assert!(!manager.is_connected());
}

#[test]
fn send_without_cipher_is_not_initialized() {
    let mut manager = MessageManager::new();
    manager.peer_addr = Some(Address::new(10, 0, 0, 1, 5));
    manager.stream_open = true;
    assert_eq!(manager.send_message(b"x"), Err(LinkError::NotInitialized));
    assert_eq!(manager.receive_message(b"x"), Err(LinkError::NotInitialized));
}

#[test]
fn counters_advance_by_one_per_message() {
    let (mut ma, _sta, mut mb, _stb) = connected_pair();
    assert_eq!((ma.tx_nonce, ma.rx_nonce), (0, 0));
    for i in 0..3u64 {
        let c = ma.send_text(format!("line {}", i)).unwrap();
        assert_eq!(ma.tx_nonce, i + 1);
        match mb.receive_frame(&c).unwrap() {
            Some(StreamMessage::Text(s)) => assert_eq!(s, format!("line {}", i)),
            other => panic!("unexpected {:?}", other),
        }
        assert_eq!(mb.rx_nonce, i + 1);
    }
    assert_eq!(ma.rx_nonce, 0);
    assert_eq!(mb.tx_nonce, 0);
}

#[test]
fn a_replayed_message_fails_and_keeps_the_counter() {
    let (mut ma, _sta, mut mb, _stb) = connected_pair();
    let c = ma.send_text("once".to_string()).unwrap();
    assert!(mb.receive_message(&c).is_ok());
    assert_eq!(mb.receive_message(&c), Err(LinkError::DecryptionFailure));
    assert_eq!(mb.rx_nonce, 1);
}

#[test]
fn empty_read_means_peer_closed() {
    let (_ma, _sta, mut mb, _stb) = connected_pair();
    assert_eq!(mb.receive_message(&[]), Ok(Vec::new()));
    assert_eq!(mb.rx_nonce, 0);
}

#[test]
fn disconnect_says_bye_over_the_stream_and_resets() {
    let (mut ma, mut sta, mut mb, mut stb) = connected_pair();
    let (farewell, events) = ma.disconnect(&mut sta);
    assert_eq!(sta.status, Status::Disconnected);
    assert!(ma.peer_addr.is_none() && ma.cipher.is_none() && !ma.is_connected());
    assert!(matches!(events[0], AppEvent::ClearChat));
    assert!(matches!(events[1], AppEvent::Disconnected { .. }));
    let bytes = match farewell {
        Farewell::Stream(b) => b,
        _ => panic!("expected an encrypted goodbye"),
    };
    assert!(matches!(mb.receive_frame(&bytes), Ok(Some(StreamMessage::Bye))));
    let ev = mb.disconnect_on_bye_received(&mut stb);
    assert_eq!(ev.len(), 2);
    assert_eq!(stb.status, Status::Disconnected);
}

#[test]
fn disconnect_before_the_stream_sends_a_raw_bye() {
    let alice = KeyPair::generate();
    let s = derive_session(alice.private, [9u8; 32], EncryptionMode::Aes256Gcm, alice.public).unwrap();
    let mut m = MessageManager::new();
    let mut st = AppState::new();
    let peer = Address::new(192, 168, 1, 50, 9000);
    m.handshake(&mut st, peer, Ok(s));
    let (farewell, _) = m.disconnect(&mut st);
    match farewell {
        Farewell::Datagram(a, b) => {
            assert_eq!(a, peer);
            assert!(matches!(HandshakeMsg::decode(&b), Some(HandshakeMsg::Bye)));
        },
        _ => panic!("expected a datagram"),
    }
    let (again, _) = m.disconnect(&mut st);
    assert!(matches!(again, Farewell::Nothing));
}

#[test]
fn failed_handshake_leaves_status_disconnected() {
    for e in [LinkError::HandshakeTimeout, LinkError::Rejected, LinkError::ModeMismatch, LinkError::NetworkIo] {
        let mut st = AppState::new();
        st.set_status(Status::Punching, None, Some(3));
        let mut m = MessageManager::new();
        let (r, ev) = m.handshake(&mut st, Address::new(1, 2, 3, 4, 5), Err(e));
        assert_eq!(r, Err(e));
        assert_eq!(st.status, Status::Disconnected);
        assert!(matches!(ev, AppEvent::Disconnected { .. }));
        assert!(m.cipher.is_none());
    }
}

#[test]
fn connected_event_names_fingerprint_and_algorithm() {
    let alice = KeyPair::generate();
    let s = derive_session(alice.private, [8u8; 32], EncryptionMode::Aes256Gcm, alice.public).unwrap();
    let expected = format!("Connected. Fingerprint: {} (AES-256-GCM)", s.fingerprint);
    let mut m = MessageManager::new();
    let mut st = AppState::new();
    let (r, ev) = m.handshake(&mut st, Address::new(10, 0, 0, 1, 1), Ok(s));
    assert!(r.is_ok());
    match ev {
        AppEvent::Connected { message } => assert_eq!(message.as_deref(), Some(expected.as_str())),
        other => panic!("unexpected {:?}", other),
    }
}
