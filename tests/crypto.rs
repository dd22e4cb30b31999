use ghostlink::crypto::{
    derive_session, fingerprint_input_bytes, fingerprint_of_digest, nonce_for, CipherAlgo, KeyPair,
};
use ghostlink::error::LinkError;
use ghostlink::wire::EncryptionMode;
use sha2::Digest;

#[test]
fn test_key_generation() {
    let keys = KeyPair::generate();
    assert_eq!(keys.public.len(), 32);
}

#[test]
fn test_ecdh_shared_secret() {
    let alice = KeyPair::generate();
    let bob = KeyPair::generate();

    let alice_shared = x25519_dalek::x25519(alice.private, bob.public);
    let bob_shared = x25519_dalek::x25519(bob.private, alice.public);

    assert_eq!(alice_shared, bob_shared);
}

#[test]
fn test_session_derivation_match() {
    let alice = KeyPair::generate();
    let bob = KeyPair::generate();
    let alice_pub = alice.public;
    let bob_pub = bob.public;

    let alice_session =
        derive_session(alice.private, bob_pub, EncryptionMode::ChaCha20Poly1305, alice_pub).unwrap();
    let bob_session =
        derive_session(bob.private, alice_pub, EncryptionMode::ChaCha20Poly1305, bob_pub).unwrap();

    assert_eq!(alice_session.fingerprint, bob_session.fingerprint);
}

#[test]
fn test_chacha20_roundtrip() {
    let alice = KeyPair::generate();
    let bob = KeyPair::generate();
    let session = derive_session(
        alice.private,
        bob.public,
        EncryptionMode::ChaCha20Poly1305,
        alice.public,
    )
    .unwrap();

    let nonce = 12345u64;
    let plaintext = b"Hello GhostLink";

    let encrypted = session.cipher.encrypt(nonce, plaintext).unwrap();
    assert_ne!(encrypted, plaintext);

    let decrypted = session.cipher.decrypt(nonce, &encrypted).unwrap();
    assert_eq!(decrypted, plaintext);
}

#[test]
fn aes_roundtrip_and_both_sides_share_the_key() {
    let alice = KeyPair::generate();
    let bob = KeyPair::generate();
    let a = derive_session(alice.private, bob.public, EncryptionMode::Aes256Gcm, alice.public).unwrap();
    let b = derive_session(bob.private, alice.public, EncryptionMode::Aes256Gcm, bob.public).unwrap();
    assert_eq!(a.cipher.algorithm_name(), "AES-256-GCM");
    let sealed = a.cipher.encrypt(7, b"over the wire").unwrap();
    assert_eq!(sealed.len(), b"over the wire".len() + 16);
    assert_eq!(b.cipher.decrypt(7, &sealed).unwrap(), b"over the wire");
}

#[test]
fn decrypt_at_another_counter_fails() {
    let alice = KeyPair::generate();
    let bob = KeyPair::generate();
    for mode in [EncryptionMode::ChaCha20Poly1305, EncryptionMode::Aes256Gcm] {
        let s = derive_session(alice.private, bob.public, mode, alice.public).unwrap();
        let sealed = s.cipher.encrypt(1, b"payload").unwrap();
        assert_eq!(s.cipher.decrypt(2, &sealed), Err(LinkError::DecryptionFailure));
        assert_eq!(s.cipher.decrypt(0, &sealed), Err(LinkError::DecryptionFailure));
        assert_eq!(s.cipher.decrypt(1, &sealed).unwrap(), b"payload");
    }
}

#[test]
fn tampered_ciphertext_fails() {
    let cipher = CipherAlgo::ChaCha20 { key: [7u8; 32] };
    let mut sealed = cipher.encrypt(0, b"abc").unwrap();
    sealed[0] ^= 1;
    assert_eq!(cipher.decrypt(0, &sealed), Err(LinkError::DecryptionFailure));
    assert_eq!(cipher.decrypt(0, &[]), Err(LinkError::DecryptionFailure));
}

#[test]
fn nonce_is_four_zero_bytes_then_big_endian_counter() {
    assert_eq!(nonce_for(0), [0u8; 12]);
    assert_eq!(nonce_for(0x0102_0304_0506_0708), [0, 0, 0, 0, 1, 2, 3, 4, 5, 6, 7, 8]);
    assert_eq!(nonce_for(u64::MAX), [0, 0, 0, 0, 255, 255, 255, 255, 255, 255, 255, 255]);
}

#[test]
fn public_key_is_x25519_of_base_point() {
    let keys = KeyPair::generate();
    assert_eq!(keys.public, x25519_dalek::x25519(keys.private, x25519_dalek::X25519_BASEPOINT_BYTES));
}

#[test]
fn fingerprint_is_three_hex_bytes_of_sha256() {
    let a = [1u8; 32];
    let b = [2u8; 32];
    let s = derive_session([5u8; 32], b, EncryptionMode::ChaCha20Poly1305, a).unwrap();
    let mut h = sha2::Sha256::new();
    h.update(b"ghostlink_fingerprint");
    h.update(a);
    h.update(b);
    let d = h.finalize();
    assert_eq!(s.fingerprint, format!("{:02X} {:02X} {:02X}", d[0], d[1], d[2]));
    let swapped = derive_session([9u8; 32], a, EncryptionMode::Aes256Gcm, b).unwrap();
    assert_eq!(swapped.fingerprint, s.fingerprint);
    assert_eq!(s.fingerprint.len(), 8);
}

#[test]
fn session_key_is_hkdf_of_the_shared_secret() {
    let alice = KeyPair::generate();
    let bob = KeyPair::generate();
    let s = derive_session(alice.private, bob.public, EncryptionMode::ChaCha20Poly1305, alice.public).unwrap();
    let shared = x25519_dalek::x25519(alice.private, bob.public);
    let mut okm = [0u8; 32];
    hkdf::Hkdf::<sha2::Sha256>::new(None, &shared).expand(b"ghostlink_v1_session", &mut okm).unwrap();
    match s.cipher {
        CipherAlgo::ChaCha20 { key } => assert_eq!(key, okm),
        CipherAlgo::Aes256 { .. } => panic!("wrong algorithm"),
    }
}

#[test]
fn fingerprint_digest_renders_three_upper_hex_bytes() {
    let mut d = [0u8; 32];
    d[0] = 0xab;
    d[1] = 0x01;
    d[2] = 0xf0;
    d[3] = 0x77;
    assert_eq!(fingerprint_of_digest(&d), "AB 01 F0");
    assert_eq!(fingerprint_of_digest(&[0u8; 32]), "00 00 00");
}

#[test]
fn fingerprint_input_puts_the_smaller_key_first() {
    let mut lo = [5u8; 32];
    let mut hi = [5u8; 32];
    lo[31] = 1;
    hi[31] = 2;
    let x = fingerprint_input_bytes(&hi, &lo);
    let y = fingerprint_input_bytes(&lo, &hi);
    assert_eq!(x, y);
    assert_eq!(&x[..21], b"ghostlink_fingerprint");
    assert_eq!(&x[21..53], &lo);
    assert_eq!(&x[53..], &hi);
    let same = fingerprint_input_bytes(&lo, &lo);
    assert_eq!(same.len(), 85);
}

#[test]
fn algorithm_names() {
    assert_eq!(CipherAlgo::ChaCha20 { key: [0; 32] }.algorithm_name(), "ChaCha20-Poly1305");
    assert_eq!(CipherAlgo::Aes256 { key: [0; 32] }.algorithm_name(), "AES-256-GCM");
    assert_eq!(CipherAlgo::Aes256 { key: [0; 32] }.mode(), EncryptionMode::Aes256Gcm);
}

#[test]
fn ciphertext_is_plaintext_plus_tag() {
    let c = CipherAlgo::ChaCha20 { key: [1u8; 32] };
    assert_eq!(c.encrypt(0, b"").unwrap().len(), 16);
    assert_eq!(c.encrypt(0, b"12345").unwrap().len(), 21);
    assert_eq!(c.decrypt(0, &[0u8; 15]), Err(LinkError::DecryptionFailure));
    assert_eq!(c.decrypt(0, &c.encrypt(0, b"").unwrap()).unwrap(), b"");
}
