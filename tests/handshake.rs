use ghostlink::addr::Address;
use ghostlink::control::begin_handshake;
use ghostlink::crypto::KeyPair;
use ghostlink::error::LinkError;
use ghostlink::handshake::{Handshake, HandshakeAction, LINGER_MS, TICK_MS};
use ghostlink::session::MessageManager;
use ghostlink::state::{AppState, Status};
use ghostlink::wire::{EncryptionMode, HandshakeMsg};

fn addr(port: u16) -> Address {
    Address::new(127, 0, 0, 1, port)
}

fn start(peer: Address, timeout_secs: u64, state: &mut AppState) -> Handshake {
    let (hs, _) = begin_handshake(
        state,
        peer,
        KeyPair::generate(),
        EncryptionMode::ChaCha20Poly1305,
        0,
        timeout_secs,
        None,
    );
    assert_eq!(state.status, Status::Punching);
    hs
}

/// Delivers a frame as bytes, as the socket would.
fn deliver(hs: &mut Handshake, now: u64, from: Address, msg: &HandshakeMsg) -> HandshakeAction {
    let bytes = msg.encode();
    match HandshakeMsg::decode(&bytes) {
        Some(m) => hs.on_message(now, from, m),
        None => HandshakeAction::Idle,
    }
}

/// Runs ticks until the machine completes or fails.
fn run_ticks(hs: &mut Handshake, mut now: u64) -> (HandshakeAction, u64) {
    loop {
        match hs.on_tick(now) {
            HandshakeAction::Complete => return (HandshakeAction::Complete, now),
            HandshakeAction::Fail(e) => return (HandshakeAction::Fail(e), now),
            _ => now += TICK_MS,
        }
    }
}

fn finish(hs: &Handshake, state: &mut AppState) -> Result<(), LinkError> {
    let mut manager = MessageManager::new();
    let (r, _) = manager.handshake(state, hs.peer_addr, hs.finish());
    r
}

#[test]
fn test_handshake_success() {
    let (addr_a, addr_b) = (addr(1024), addr(1025));
    let mut state_a = AppState::new();
    let mut a = start(addr_b, 5, &mut state_a);
    let b_keys = KeyPair::generate();

    // B sends SYN first; A answers with SYN-ACK.
    let syn = HandshakeMsg::Syn { public_key: b_keys.public, mode: EncryptionMode::ChaCha20Poly1305 };
    assert!(matches!(deliver(&mut a, 0, addr_b, &syn), HandshakeAction::Send(HandshakeMsg::SynAck { .. })));
    // A's own SYN goes out on its tick; B answers it.
    assert!(matches!(a.on_tick(0), HandshakeAction::Send(HandshakeMsg::Syn { .. })));
    let ack = HandshakeMsg::SynAck { public_key: b_keys.public };
    assert!(matches!(deliver(&mut a, 10, addr_b, &ack), HandshakeAction::Idle));
    assert_eq!(a.linger_deadline, Some(10 + LINGER_MS));

    let (done, _) = run_ticks(&mut a, 500);
    assert!(matches!(done, HandshakeAction::Complete));
    let result = finish(&a, &mut state_a);
    assert!(result.is_ok());
    assert_eq!(state_a.status, Status::Connected);
}

#[test]
fn test_handshake_timeout() {
    let mut state_a = AppState::new();
    let mut a = start(addr(1025), 1, &mut state_a);
    let (result, at) = run_ticks(&mut a, 0);
    assert!(matches!(result, HandshakeAction::Fail(LinkError::HandshakeTimeout)));
    assert!(at > 1000);
    assert!(LinkError::HandshakeTimeout.message().contains("timed out"));
    let mut manager = MessageManager::new();
    let (r, _) = manager.handshake(&mut state_a, addr(1025), Err(LinkError::HandshakeTimeout));
    assert!(r.is_err());
    assert_eq!(state_a.status, Status::Disconnected);
}

#[test]
fn test_handshake_ignores_wrong_sender() {
    let (addr_a, addr_b, addr_c) = (addr(200), addr(201), addr(1000));
    let _ = addr_a;
    let mut state_a = AppState::new();
    let mut a = start(addr_b, 5, &mut state_a);

    // The attacker's junk does not parse; a well-formed frame from it is ignored.
    assert!(HandshakeMsg::decode(b"FAKE_PACKET").is_none());
    let fake = HandshakeMsg::Syn { public_key: [9u8; 32], mode: EncryptionMode::ChaCha20Poly1305 };
    assert!(matches!(deliver(&mut a, 200, addr_c, &fake), HandshakeAction::Idle));
    assert!(matches!(deliver(&mut a, 200, addr_c, &HandshakeMsg::Bye), HandshakeAction::Idle));
    assert!(a.peer_public_key.is_none());

    let b_keys = KeyPair::generate();
    let syn = HandshakeMsg::Syn { public_key: b_keys.public, mode: EncryptionMode::ChaCha20Poly1305 };
    deliver(&mut a, 1200, addr_b, &syn);
    deliver(&mut a, 1200, addr_b, &HandshakeMsg::SynAck { public_key: b_keys.public });
    let (done, _) = run_ticks(&mut a, 1500);
    assert!(matches!(done, HandshakeAction::Complete));
    assert!(finish(&a, &mut state_a).is_ok());
}

#[test]
fn test_handshake_rejects_bye_packet() {
    let addr_b = addr(201);
    let mut state_a = AppState::new();
    let mut a = start(addr_b, 2, &mut state_a);
    let r = deliver(&mut a, 200, addr_b, &HandshakeMsg::Bye);
    assert!(matches!(r, HandshakeAction::Fail(LinkError::Rejected)));
    assert_eq!(LinkError::Rejected.message(), "Connection rejected by peer");
}

#[test]
fn test_handshake_handles_simultaneous_syn() {
    let addr_b = addr(1025);
    let mut state_a = AppState::new();
    let mut a = start(addr_b, 5, &mut state_a);
    let b_keys = KeyPair::generate();

    // Both send SYN at once.
    assert!(matches!(a.on_tick(0), HandshakeAction::Send(HandshakeMsg::Syn { .. })));
    let syn = HandshakeMsg::Syn { public_key: b_keys.public, mode: EncryptionMode::ChaCha20Poly1305 };
    deliver(&mut a, 1, addr_b, &syn);
    deliver(&mut a, 2, addr_b, &HandshakeMsg::SynAck { public_key: b_keys.public });
    // While lingering, A answers retransmitted SYNs and sends no new SYN.
    assert!(matches!(deliver(&mut a, 3, addr_b, &syn), HandshakeAction::Send(HandshakeMsg::SynAck { .. })));
    assert!(matches!(a.on_tick(500), HandshakeAction::Send(HandshakeMsg::SynAck { .. })));
    let (done, _) = run_ticks(&mut a, 1000);
    assert!(matches!(done, HandshakeAction::Complete));
    assert!(finish(&a, &mut state_a).is_ok());
    assert_eq!(state_a.status, Status::Connected);
}

/// Runs two machines against each other, frames travelling as bytes.
fn run_pair(a: &mut Handshake, b: &mut Handshake, addr_a: Address, addr_b: Address) -> (HandshakeAction, HandshakeAction) {
    let mut now = 0u64;
    let mut done_a: Option<HandshakeAction> = None;
    let mut done_b: Option<HandshakeAction> = None;
    let mut to_a: Vec<Vec<u8>> = Vec::new();
    let mut to_b: Vec<Vec<u8>> = Vec::new();
    while done_a.is_none() || done_b.is_none() {
        if done_a.is_none() {
            match a.on_tick(now) {
                HandshakeAction::Send(m) => to_b.push(m.encode()),
                HandshakeAction::Idle => {},
                other => done_a = Some(other),
            }
        }
        if done_b.is_none() {
            match b.on_tick(now) {
                HandshakeAction::Send(m) => to_a.push(m.encode()),
                HandshakeAction::Idle => {},
                other => done_b = Some(other),
            }
        }
        for bytes in std::mem::take(&mut to_b) {
            if done_b.is_none() {
                if let Some(m) = HandshakeMsg::decode(&bytes) {
                    match b.on_message(now, addr_a, m) {
                        HandshakeAction::Send(r) => to_a.push(r.encode()),
                        HandshakeAction::Idle => {},
                        other => done_b = Some(other),
                    }
                }
            }
        }
        for bytes in std::mem::take(&mut to_a) {
            if done_a.is_none() {
                if let Some(m) = HandshakeMsg::decode(&bytes) {
                    match a.on_message(now, addr_b, m) {
                        HandshakeAction::Send(r) => to_b.push(r.encode()),
                        HandshakeAction::Idle => {},
                        other => done_a = Some(other),
                    }
                }
            }
        }
        now += TICK_MS;
        assert!(now < 100_000);
    }
    (done_a.unwrap(), done_b.unwrap())
}

#[test]
fn test_both_peers_complete_handshake_when_initiating_simultaneously() {
    let (addr_a, addr_b) = (addr(1024), addr(1025));
    let mut state_a = AppState::new();
    let mut state_b = AppState::new();
    let mut a = start(addr_b, 5, &mut state_a);
    let mut b = start(addr_a, 5, &mut state_b);

    let (ra, rb) = run_pair(&mut a, &mut b, addr_a, addr_b);
    assert!(matches!(ra, HandshakeAction::Complete), "Peer A should complete handshake");
    assert!(matches!(rb, HandshakeAction::Complete), "Peer B should complete handshake");

    let sa = a.finish().unwrap();
    let sb = b.finish().unwrap();
    assert_eq!(sa.fingerprint, sb.fingerprint);
    let mut ma = MessageManager::new();
    let mut mb = MessageManager::new();
    assert!(ma.handshake(&mut state_a, addr_b, Ok(sa)).0.is_ok());
    assert!(mb.handshake(&mut state_b, addr_a, Ok(sb)).0.is_ok());
    assert_eq!(state_a.status, Status::Connected);
    assert_eq!(state_b.status, Status::Connected);
}

#[test]
fn different_modes_fail_with_mode_mismatch_on_both_sides() {
    let (addr_a, addr_b) = (addr(1024), addr(1025));
    let mut state_a = AppState::new();
    let mut state_b = AppState::new();
    let mut a = start(addr_b, 5, &mut state_a);
    let (mut b, _) = begin_handshake(&mut state_b, addr_a, KeyPair::generate(), EncryptionMode::Aes256Gcm, 0, 5, None);
    let (ra, rb) = run_pair(&mut a, &mut b, addr_a, addr_b);
    assert!(matches!(ra, HandshakeAction::Fail(LinkError::ModeMismatch)));
    assert!(matches!(rb, HandshakeAction::Fail(LinkError::ModeMismatch)));
    let mut m = MessageManager::new();
    m.handshake(&mut state_a, addr_b, Err(LinkError::ModeMismatch));
    assert_eq!(state_a.status, Status::Disconnected);
}

#[test]
fn a_second_key_is_ignored_once_one_is_pinned() {
    let addr_b = addr(1025);
    let mut state_a = AppState::new();
    let mut a = start(addr_b, 5, &mut state_a);
    let first = [1u8; 32];
    let second = [2u8; 32];
    deliver(&mut a, 0, addr_b, &HandshakeMsg::Syn { public_key: first, mode: EncryptionMode::ChaCha20Poly1305 });
    assert_eq!(a.peer_public_key, Some(first));
    let r = deliver(&mut a, 1, addr_b, &HandshakeMsg::SynAck { public_key: second });
    assert!(matches!(r, HandshakeAction::Idle));
    assert!(!a.received_syn_ack);
    // A substituted key with another mode is ignored, not a mismatch.
    let r = deliver(&mut a, 2, addr_b, &HandshakeMsg::Syn { public_key: second, mode: EncryptionMode::Aes256Gcm });
    assert!(matches!(r, HandshakeAction::Idle));
    assert_eq!(a.peer_public_key, Some(first));
}
