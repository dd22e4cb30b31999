//! Session cryptography: X25519 key agreement, HKDF-SHA256 key derivation,
//! counter-nonce AEAD (ChaCha20-Poly1305 or AES-256-GCM), and the short
//! fingerprint both peers display.
use aes_gcm::aead::{Aead, KeyInit};
use aes_gcm::Aes256Gcm;
use chacha20poly1305::ChaCha20Poly1305;
use rand_core::RngCore;
use sha2::Digest;
use vstd::prelude::*;
use vstd::utf8::{decode_utf8, encode_utf8, is_ascii_chars};

use crate::error::LinkError;
use crate::wire::EncryptionMode;

verus! {

broadcast use vstd::utf8::encode_utf8_valid_utf8, vstd::utf8::encode_utf8_decode_utf8;

/// The largest plaintext ChaCha20-Poly1305 takes: fewer than `u32::MAX`
/// blocks of 64 bytes.
pub const CHACHA_MAX_PLAINTEXT: u64 = 274_877_906_879;

/// The largest plaintext AES-256-GCM takes (2^36 bytes).
pub const AES_MAX_PLAINTEXT: u64 = 0x10_0000_0000;

/// Length of the authentication tag both ciphers append.
pub const TAG_LEN: u64 = 16;

/// X25519 of a secret scalar and a curve point, both as 32 bytes.
pub uninterp spec fn x25519_of(k: Seq<u8>, u: Seq<u8>) -> Seq<u8>;

/// HKDF-SHA256 with no salt: 32 bytes expanded from `ikm` under `info`.
pub uninterp spec fn hkdf_sha256_of(ikm: Seq<u8>, info: Seq<u8>) -> Seq<u8>;

/// The SHA-256 digest of `data`.
pub uninterp spec fn sha256_of(data: Seq<u8>) -> Seq<u8>;

/// ChaCha20-Poly1305 ciphertext (with tag) of `pt`, no associated data.
pub uninterp spec fn chacha20poly1305_seal_of(key: Seq<u8>, nonce: Seq<u8>, pt: Seq<u8>) -> Seq<u8>;

/// AES-256-GCM ciphertext (with tag) of `pt`, no associated data.
pub uninterp spec fn aes256gcm_seal_of(key: Seq<u8>, nonce: Seq<u8>, pt: Seq<u8>) -> Seq<u8>;

/// Relies on rand_core's OsRng: 32 bytes from the operating system's
/// random source. Nothing is promised of their value.
#[verifier::external_body]
fn random_bytes() -> (r: [u8; 32]) {
    let mut b = [0u8; 32];
    rand_core::OsRng.fill_bytes(&mut b);
    b
}

/// Relies on x25519_dalek::x25519: the clamped scalar `k` times the point `u`.
#[verifier::external_body]
fn x25519(k: [u8; 32], u: [u8; 32]) -> (r: [u8; 32])
    ensures
        r@ == x25519_of(k@, u@),
{
    x25519_dalek::x25519(k, u)
}

/// Relies on hkdf's Hkdf::<Sha256>::new (no salt) and expand: expansion to
/// 32 bytes succeeds, as it fails only past 255 digests of output.
#[verifier::external_body]
fn hkdf_expand(ikm: &[u8; 32], info: &[u8]) -> (r: Result<[u8; 32], ()>)
    ensures
        r is Ok,
        r matches Ok(k) ==> k@ == hkdf_sha256_of(ikm@, info@),
{
    let mut okm = [0u8; 32];
    hkdf::Hkdf::<sha2::Sha256>::new(None, ikm).expand(info, &mut okm).map(|_| okm).map_err(|_| ())
}

/// Relies on sha2's Sha256::digest.
#[verifier::external_body]
fn sha256(data: &[u8]) -> (r: [u8; 32])
    ensures
        r@ == sha256_of(data@),
{
    sha2::Sha256::digest(data).into()
}

/// Relies on chacha20poly1305's Aead::encrypt: it fails exactly on inputs
/// of `u32::MAX` blocks or more, and appends a 16-byte tag.
#[verifier::external_body]
fn chacha_seal(key: &[u8; 32], nonce: &[u8; 12], pt: &[u8]) -> (r: Option<Vec<u8>>)
    ensures
        r matches Some(c) ==> c@ == chacha20poly1305_seal_of(key@, nonce@, pt@),
        r matches Some(c) ==> c@.len() == pt@.len() + TAG_LEN,
        r is Some <==> pt@.len() <= CHACHA_MAX_PLAINTEXT,
{
    ChaCha20Poly1305::new(key.into()).encrypt(nonce.into(), pt).ok()
}

/// Relies on chacha20poly1305's Aead::decrypt: it accepts exactly the
/// ciphertexts that encryption under the same key and nonce produces, and
/// returns the one plaintext each of them seals; it fails on anything
/// shorter than the tag.
#[verifier::external_body]
fn chacha_open(key: &[u8; 32], nonce: &[u8; 12], ct: &[u8]) -> (r: Option<Vec<u8>>)
    ensures
        r matches Some(p) ==> ct@ == chacha20poly1305_seal_of(key@, nonce@, p@),
        r is None ==> forall|p: Seq<u8>| p.len() > CHACHA_MAX_PLAINTEXT || ct@ != chacha20poly1305_seal_of(key@, nonce@, p),
        ct@.len() < TAG_LEN ==> r is None,
        r matches Some(q) ==> forall|p: Seq<u8>| p.len() <= CHACHA_MAX_PLAINTEXT && ct@ == chacha20poly1305_seal_of(key@, nonce@, p) ==> q@ == p,
{
    ChaCha20Poly1305::new(key.into()).decrypt(nonce.into(), ct).ok()
}

/// Relies on aes_gcm's Aead::encrypt: it fails exactly past P_MAX (2^36
/// bytes), and appends a 16-byte tag.
#[verifier::external_body]
fn aes_seal(key: &[u8; 32], nonce: &[u8; 12], pt: &[u8]) -> (r: Option<Vec<u8>>)
    ensures
        r matches Some(c) ==> c@ == aes256gcm_seal_of(key@, nonce@, pt@),
        r matches Some(c) ==> c@.len() == pt@.len() + TAG_LEN,
        r is Some <==> pt@.len() <= AES_MAX_PLAINTEXT,
{
    Aes256Gcm::new(key.into()).encrypt(nonce.into(), pt).ok()
}

/// Relies on aes_gcm's Aead::decrypt: it accepts exactly the ciphertexts
/// that encryption under the same key and nonce produces, and returns the
/// one plaintext each of them seals; it fails on anything shorter than the
/// tag.
#[verifier::external_body]
fn aes_open(key: &[u8; 32], nonce: &[u8; 12], ct: &[u8]) -> (r: Option<Vec<u8>>)
    ensures
        r matches Some(p) ==> ct@ == aes256gcm_seal_of(key@, nonce@, p@),
        r is None ==> forall|p: Seq<u8>| p.len() > AES_MAX_PLAINTEXT || ct@ != aes256gcm_seal_of(key@, nonce@, p),
        ct@.len() < TAG_LEN ==> r is None,
        r matches Some(q) ==> forall|p: Seq<u8>| p.len() <= AES_MAX_PLAINTEXT && ct@ == aes256gcm_seal_of(key@, nonce@, p) ==> q@ == p,
{
    Aes256Gcm::new(key.into()).decrypt(nonce.into(), ct).ok()
}

/// Byte `i` (from the most significant) of `n`.
pub open spec fn be_byte(n: u64, i: int) -> u8 {
    ((n >> (8 * (7 - i) as u64)) & 0xff) as u8
}

/// The 12-byte nonce of counter `n`: four zero bytes, then `n` big-endian.
pub open spec fn nonce_bytes(n: u64) -> Seq<u8> {
    Seq::new(12, |i: int| if i < 4 { 0u8 } else { be_byte(n, i - 4) })
}

/// The nonce for counter value `n`.
pub fn nonce_for(n: u64) -> (r: [u8; 12])
    ensures
        r@ == nonce_bytes(n),
{
    let mut r = [0u8; 12];
    let mut i: usize = 0;
    while i < 8
        invariant
            i <= 8,
            r@.len() == 12,
            forall|j: int| 0 <= j < 4 ==> r@[j] == 0,
            forall|j: int| 0 <= j < i ==> r@[4 + j] == be_byte(n, j),
        decreases 8 - i,
    {
        r[4 + i] = ((n >> (8 * (7 - i) as u64)) & 0xff) as u8;
        i += 1;
    }
    assert(r@ =~= nonce_bytes(n));
    r
}

/// Distinct counters give distinct nonces.
pub proof fn lemma_nonce_injective(a: u64, b: u64)
    requires
        a != b,
    ensures
        nonce_bytes(a) != nonce_bytes(b),
{
    if nonce_bytes(a) == nonce_bytes(b) {
        assert forall|i: int| 0 <= i < 8 implies be_byte(a, i) == be_byte(b, i) by {
            assert(nonce_bytes(a)[4 + i] == nonce_bytes(b)[4 + i]);
        }
        let (a0, a1, a2, a3) = (be_byte(a, 0), be_byte(a, 1), be_byte(a, 2), be_byte(a, 3));
        let (a4, a5, a6, a7) = (be_byte(a, 4), be_byte(a, 5), be_byte(a, 6), be_byte(a, 7));
        assert(a == ((a0 as u64) << 56) | ((a1 as u64) << 48) | ((a2 as u64) << 40) | ((a3 as u64)
            << 32) | ((a4 as u64) << 24) | ((a5 as u64) << 16) | ((a6 as u64) << 8) | (a7 as u64))
            by (bit_vector)
            requires
                a0 == ((a >> 56u64) & 0xff) as u8,
                a1 == ((a >> 48u64) & 0xff) as u8,
                a2 == ((a >> 40u64) & 0xff) as u8,
                a3 == ((a >> 32u64) & 0xff) as u8,
                a4 == ((a >> 24u64) & 0xff) as u8,
                a5 == ((a >> 16u64) & 0xff) as u8,
                a6 == ((a >> 8u64) & 0xff) as u8,
                a7 == ((a >> 0u64) & 0xff) as u8,
        ;
        assert(b == ((a0 as u64) << 56) | ((a1 as u64) << 48) | ((a2 as u64) << 40) | ((a3 as u64)
            << 32) | ((a4 as u64) << 24) | ((a5 as u64) << 16) | ((a6 as u64) << 8) | (a7 as u64))
            by (bit_vector)
            requires
                a0 == ((b >> 56u64) & 0xff) as u8,
                a1 == ((b >> 48u64) & 0xff) as u8,
                a2 == ((b >> 40u64) & 0xff) as u8,
                a3 == ((b >> 32u64) & 0xff) as u8,
                a4 == ((b >> 24u64) & 0xff) as u8,
                a5 == ((b >> 16u64) & 0xff) as u8,
                a6 == ((b >> 8u64) & 0xff) as u8,
                a7 == ((b >> 0u64) & 0xff) as u8,
        ;
    }
}

/// Lexicographic order on byte strings.
pub open spec fn bytes_le(a: Seq<u8>, b: Seq<u8>) -> bool
    decreases a.len(),
{
    if a.len() == 0 {
        true
    } else if b.len() == 0 {
        false
    } else if a[0] != b[0] {
        a[0] < b[0]
    } else {
        bytes_le(a.drop_first(), b.drop_first())
    }
}

/// Of two equally long byte strings, one is below the other, and both only
/// when they are equal.
pub proof fn lemma_bytes_le_total(a: Seq<u8>, b: Seq<u8>)
    requires
        a.len() == b.len(),
    ensures
        bytes_le(a, b) || bytes_le(b, a),
        bytes_le(a, b) && bytes_le(b, a) ==> a == b,
    decreases a.len(),
{
    if a.len() > 0 && a[0] == b[0] {
        lemma_bytes_le_total(a.drop_first(), b.drop_first());
        if a.drop_first() == b.drop_first() {
            assert(a =~= seq![a[0]] + a.drop_first());
            assert(b =~= seq![b[0]] + b.drop_first());
        }
    } else if a.len() == 0 {
        assert(a =~= b);
    }
}

fn key_le(a: &[u8; 32], b: &[u8; 32]) -> (r: bool)
    ensures
        r == bytes_le(a@, b@),
{
    let mut i: usize = 0;
    assert(a@.skip(0) =~= a@);
    assert(b@.skip(0) =~= b@);
    while i < 32
        invariant
            i <= 32,
            a@.len() == 32,
            b@.len() == 32,
            bytes_le(a@, b@) == bytes_le(a@.skip(i as int), b@.skip(i as int)),
        decreases 32 - i,
    {
        if a[i] != b[i] {
            return a[i] < b[i];
        }
        assert(a@.skip(i as int).drop_first() =~= a@.skip(i + 1));
        assert(b@.skip(i as int).drop_first() =~= b@.skip(i + 1));
        i += 1;
    }
    true
}

/// The label hashed in front of the two public keys.
pub open spec fn fingerprint_label() -> Seq<u8> {
    seq![
        103u8, 104, 111, 115, 116, 108, 105, 110, 107, 95, 102, 105, 110, 103, 101, 114, 112, 114,
        105, 110, 116,
    ]
}

/// The bytes hashed for the fingerprint: the label, then the smaller and
/// the larger of the two public keys.
pub open spec fn fingerprint_input(a: Seq<u8>, b: Seq<u8>) -> Seq<u8> {
    if bytes_le(a, b) {
        fingerprint_label() + a + b
    } else {
        fingerprint_label() + b + a
    }
}

/// Upper-case hex digit of `v` (below 16).
pub open spec fn hex_digit(v: u8) -> char {
    if v < 10 {
        (v + 48) as char
    } else {
        (v + 55) as char
    }
}

/// The first three bytes of a digest, upper-case hex, separated by spaces.
pub open spec fn fingerprint_text(d: Seq<u8>) -> Seq<char> {
    seq![
        hex_digit(d[0] / 16),
        hex_digit(d[0] % 16),
        ' ',
        hex_digit(d[1] / 16),
        hex_digit(d[1] % 16),
        ' ',
        hex_digit(d[2] / 16),
        hex_digit(d[2] % 16),
    ]
}

/// The fingerprint of a session between the holders of keys `a` and `b`.
pub open spec fn session_fingerprint(a: Seq<u8>, b: Seq<u8>) -> Seq<char> {
    fingerprint_text(sha256_of(fingerprint_input(a, b)))
}

/// Both peers compute the same fingerprint: it does not depend on which of
/// the two keys is the local one.
pub proof fn lemma_fingerprint_symmetric(a: Seq<u8>, b: Seq<u8>)
    requires
        a.len() == 32,
        b.len() == 32,
    ensures
        session_fingerprint(a, b) == session_fingerprint(b, a),
{
    lemma_bytes_le_total(a, b);
    assert(fingerprint_input(a, b) == fingerprint_input(b, a));
}

fn hex_digit_byte(v: u8) -> (r: u8)
    requires
        v < 16,
    ensures
        r as char == hex_digit(v),
        r < 128,
{
    if v < 10 {
        v + 48
    } else {
        v + 55
    }
}

/// The fingerprint text of a SHA-256 digest: its first three bytes in
/// upper-case hex, separated by spaces.
pub fn fingerprint_of_digest(d: &[u8; 32]) -> (r: String)
    ensures
        r@ == fingerprint_text(d@),
{
    let mut out: Vec<u8> = Vec::new();
    let mut i: usize = 0;
    while i < 3
        invariant
            i <= 3,
            d@.len() == 32,
            out@.len() == 3 * i,
            forall|j: int|
                0 <= j < 3 * i && j % 3 != 2 ==> out@[j] as char == #[trigger] fingerprint_text(d@)[j],
            forall|j: int| 0 <= j < 3 * i && j % 3 == 2 ==> #[trigger] out@[j] == 32u8,
        decreases 3 - i,
    {
        out.push(hex_digit_byte(d[i] / 16));
        out.push(hex_digit_byte(d[i] % 16));
        out.push(32u8);
        i += 1;
    }
    out.pop();
    let chars = Ghost(fingerprint_text(d@));
    proof {
        assert(is_ascii_chars(chars@));
        vstd::utf8::is_ascii_chars_encode_utf8(chars@);
        assert(out@ =~= encode_utf8(chars@));
    }
    match crate::wire::utf8_text(out.as_slice()) {
        Some(s) => s,
        None => String::new(),
    }
}

/// The X25519 base point `9`, as 32 little-endian bytes.
pub open spec fn base_point() -> Seq<u8> {
    Seq::new(32, |i: int| if i == 0 { 9u8 } else { 0u8 })
}

/// HKDF info string of the session key.
pub open spec fn session_info() -> Seq<u8> {
    seq![103u8, 104, 111, 115, 116, 108, 105, 110, 107, 95, 118, 49, 95, 115, 101, 115, 115, 105, 111, 110]
}

/// An ephemeral X25519 key pair: the secret scalar and its public point.
pub struct KeyPair {
    pub private: [u8; 32],
    pub public: [u8; 32],
}

impl KeyPair {
    /// A fresh key pair from the operating system's random source.
    pub fn generate() -> (r: KeyPair)
        ensures
            r.public@ == x25519_of(r.private@, base_point()),
    {
        let private = random_bytes();
        let mut base = [0u8; 32];
        base[0] = 9;
        assert(base@ =~= base_point());
        let public = x25519(private, base);
        KeyPair { private, public }
    }
}

/// The session cipher: the negotiated algorithm and its 32-byte key.
pub enum CipherAlgo {
    ChaCha20 { key: [u8; 32] },
    Aes256 { key: [u8; 32] },
}

/// The mathematical value of a cipher: algorithm and key bytes.
pub ghost struct CipherModel {
    pub mode: EncryptionMode,
    pub key: Seq<u8>,
}

impl View for CipherAlgo {
    type V = CipherModel;

    open spec fn view(&self) -> CipherModel {
        match self {
            CipherAlgo::ChaCha20 { key } => CipherModel { mode: EncryptionMode::ChaCha20Poly1305, key: key@ },
            CipherAlgo::Aes256 { key } => CipherModel { mode: EncryptionMode::Aes256Gcm, key: key@ },
        }
    }
}

/// The display name of an algorithm.
pub open spec fn algorithm_name_of(m: EncryptionMode) -> Seq<char> {
    match m {
        EncryptionMode::ChaCha20Poly1305 => "ChaCha20-Poly1305"@,
        EncryptionMode::Aes256Gcm => "AES-256-GCM"@,
    }
}

/// The largest plaintext an algorithm takes.
pub open spec fn plaintext_limit(m: EncryptionMode) -> nat {
    match m {
        EncryptionMode::ChaCha20Poly1305 => CHACHA_MAX_PLAINTEXT as nat,
        EncryptionMode::Aes256Gcm => AES_MAX_PLAINTEXT as nat,
    }
}

/// The ciphertext of `p` under cipher `c` at counter `n`.
pub open spec fn seal(c: CipherModel, n: u64, p: Seq<u8>) -> Seq<u8> {
    match c.mode {
        EncryptionMode::ChaCha20Poly1305 => chacha20poly1305_seal_of(c.key, nonce_bytes(n), p),
        EncryptionMode::Aes256Gcm => aes256gcm_seal_of(c.key, nonce_bytes(n), p),
    }
}

impl CipherAlgo {
    /// The algorithm of this cipher.
    pub fn mode(&self) -> (r: EncryptionMode)
        ensures
            r == self@.mode,
    {
        match self {
            CipherAlgo::ChaCha20 { .. } => EncryptionMode::ChaCha20Poly1305,
            CipherAlgo::Aes256 { .. } => EncryptionMode::Aes256Gcm,
        }
    }

    /// The algorithm's display name.
    pub fn algorithm_name(&self) -> (r: &'static str)
        ensures
            r@ == algorithm_name_of(self@.mode),
    {
        match self {
            CipherAlgo::ChaCha20 { .. } => "ChaCha20-Poly1305",
            CipherAlgo::Aes256 { .. } => "AES-256-GCM",
        }
    }

    /// Encrypts `plaintext` under the nonce of counter `nonce_val`: the
    /// ciphertext, then a 16-byte tag. Fails with `EncryptionFailure`
    /// exactly past the algorithm's plaintext limit.
    pub fn encrypt(&self, nonce_val: u64, plaintext: &[u8]) -> (r: Result<Vec<u8>, LinkError>)
        ensures
            r is Ok <==> plaintext@.len() <= plaintext_limit(self@.mode),
            match r {
                Ok(c) => c@ == seal(self@, nonce_val, plaintext@) && c@.len() == plaintext@.len() + TAG_LEN,
                Err(e) => e == LinkError::EncryptionFailure,
            },
    {
        let nonce = nonce_for(nonce_val);
        let sealed = match self {
            CipherAlgo::ChaCha20 { key } => chacha_seal(key, &nonce, plaintext),
            CipherAlgo::Aes256 { key } => aes_seal(key, &nonce, plaintext),
        };
        match sealed {
            Some(c) => Ok(c),
            None => Err(LinkError::EncryptionFailure),
        }
    }

    /// Decrypts and authenticates `ciphertext` under the nonce of counter
    /// `nonce_val`. Whatever `encrypt` produced at the same counter decrypts
    /// to its plaintext (`encrypt` succeeds only within the limit); anything
    /// that is no such ciphertext, such as one shorter than the tag, fails
    /// with `DecryptionFailure`.
    pub fn decrypt(&self, nonce_val: u64, ciphertext: &[u8]) -> (r: Result<Vec<u8>, LinkError>)
        ensures
            r matches Ok(p) ==> ciphertext@ == seal(self@, nonce_val, p@),
            r matches Err(e) ==> e == LinkError::DecryptionFailure,
            ciphertext@.len() < TAG_LEN ==> r is Err,
            forall|p: Seq<u8>|
                #![trigger seal(self@, nonce_val, p)]
                p.len() <= plaintext_limit(self@.mode) && ciphertext@ == seal(self@, nonce_val, p) ==> (r matches Ok(
                    q) && q@ == p),
    {
        let nonce = nonce_for(nonce_val);
        let opened = match self {
            CipherAlgo::ChaCha20 { key } => chacha_open(key, &nonce, ciphertext),
            CipherAlgo::Aes256 { key } => aes_open(key, &nonce, ciphertext),
        };
        match opened {
            Some(p) => Ok(p),
            None => Err(LinkError::DecryptionFailure),
        }
    }
}

/// Everything a successful handshake yields: the cipher and the fingerprint
/// to compare out of band.
pub struct SessionData {
    pub cipher: CipherAlgo,
    pub fingerprint: String,
}

/// The session key both peers derive: HKDF-SHA256 over the X25519 shared
/// secret.
pub open spec fn session_key(private_key: Seq<u8>, peer_public: Seq<u8>) -> Seq<u8> {
    hkdf_sha256_of(x25519_of(private_key, peer_public), session_info())
}

/// Derives the session from the local secret, the peer's public key, the
/// negotiated mode and the local public key.
pub fn derive_session(
    private_key: [u8; 32],
    peer_public_bytes: [u8; 32],
    mode: EncryptionMode,
    my_public_bytes: [u8; 32],
) -> (r: Result<SessionData, LinkError>)
    ensures
        r is Ok,
        r matches Ok(s) ==> s.cipher@ == (CipherModel {
            mode,
            key: session_key(private_key@, peer_public_bytes@),
        }) && s.fingerprint@ == session_fingerprint(my_public_bytes@, peer_public_bytes@),
{
    let shared = x25519(private_key, peer_public_bytes);
    let info: Vec<u8> = vec![103u8, 104, 111, 115, 116, 108, 105, 110, 107, 95, 118, 49, 95, 115, 101, 115, 115, 105, 111, 110];
    assert(info@ =~= session_info());
    let key = match hkdf_expand(&shared, info.as_slice()) {
        Ok(k) => k,
        Err(_) => {
            return Err(LinkError::KdfFailure);
        },
    };
    let cipher = match mode {
        EncryptionMode::ChaCha20Poly1305 => CipherAlgo::ChaCha20 { key },
        EncryptionMode::Aes256Gcm => CipherAlgo::Aes256 { key },
    };
    let input = fingerprint_input_bytes(&my_public_bytes, &peer_public_bytes);
    let digest = sha256(input.as_slice());
    let fingerprint = fingerprint_of_digest(&digest);
    Ok(SessionData { cipher, fingerprint })
}

/// The bytes hashed for the fingerprint of the keys `a` and `b`: the label,
/// then the lexicographically smaller key, then the larger.
pub fn fingerprint_input_bytes(a: &[u8; 32], b: &[u8; 32]) -> (r: Vec<u8>)
    ensures
        r@ == fingerprint_input(a@, b@),
{
    let mut input: Vec<u8> = vec![103u8, 104, 111, 115, 116, 108, 105, 110, 107, 95, 102, 105, 110, 103, 101, 114, 112, 114, 105, 110, 116];
    assert(input@ =~= fingerprint_label());
    if key_le(a, b) {
        push_bytes(&mut input, a);
        push_bytes(&mut input, b);
    } else {
        push_bytes(&mut input, b);
        push_bytes(&mut input, a);
    }
    assert(input@ =~= fingerprint_input(a@, b@));
    input
}

fn push_bytes(out: &mut Vec<u8>, b: &[u8; 32])
    ensures
        final(out)@ == old(out)@ + b@,
{
    let mut i: usize = 0;
    while i < 32
        invariant
            i <= 32,
            b@.len() == 32,
            out@ == old(out)@ + b@.subrange(0, i as int),
        decreases 32 - i,
    {
        out.push(b[i]);
        i += 1;
    }
    assert(b@.subrange(0, 32) =~= b@);
}

} // verus!
