//! Wire formats: handshake frames sent over raw UDP, and stream frames
//! carried (encrypted) over the reliable stream.
//!
//! Every frame starts with a little-endian 32-bit variant tag.
use vstd::prelude::*;
use vstd::utf8::{decode_utf8, encode_utf8, valid_utf8};

verus! {

broadcast use vstd::utf8::encode_utf8_valid_utf8, vstd::utf8::encode_utf8_decode_utf8;

/// Length of an X25519 public key on the wire.
pub const KEY_LEN: usize = 32;

/// The AEAD algorithm a peer asks for in its `Syn`.
#[derive(Clone, Copy, Debug, PartialEq, Eq, Structural)]
pub enum EncryptionMode {
    ChaCha20Poly1305,
    Aes256Gcm,
}

/// A frame of the hole-punching handshake.
#[derive(Clone, Copy, Debug)]
pub enum HandshakeMsg {
    Syn { public_key: [u8; 32], mode: EncryptionMode },
    SynAck { public_key: [u8; 32] },
    Bye,
}

/// A frame of the reliable stream, before encryption.
#[derive(Clone, Debug)]
pub enum StreamMessage {
    Text(String),
    Bye,
}

/// The mathematical value of a stream frame.
pub ghost enum StreamFrame {
    Text(Seq<char>),
    Bye,
}

impl View for StreamMessage {
    type V = StreamFrame;

    open spec fn view(&self) -> StreamFrame {
        match self {
            StreamMessage::Text(s) => StreamFrame::Text(s@),
            StreamMessage::Bye => StreamFrame::Bye,
        }
    }
}

/// The mathematical value of a handshake frame.
pub ghost enum HandshakeFrame {
    Syn { key: Seq<u8>, mode: EncryptionMode },
    SynAck { key: Seq<u8> },
    Bye,
}

impl View for HandshakeMsg {
    type V = HandshakeFrame;

    open spec fn view(&self) -> HandshakeFrame {
        match self {
            HandshakeMsg::Syn { public_key, mode } => HandshakeFrame::Syn {
                key: public_key@,
                mode: *mode,
            },
            HandshakeMsg::SynAck { public_key } => HandshakeFrame::SynAck { key: public_key@ },
            HandshakeMsg::Bye => HandshakeFrame::Bye,
        }
    }
}

/// The four bytes of a variant tag (a little-endian `u32` below 256).
pub open spec fn tag_bytes(t: u8) -> Seq<u8> {
    seq![t, 0u8, 0u8, 0u8]
}

pub open spec fn mode_byte(m: EncryptionMode) -> u8 {
    match m {
        EncryptionMode::ChaCha20Poly1305 => 0,
        EncryptionMode::Aes256Gcm => 1,
    }
}

pub open spec fn mode_of_byte(b: u8) -> Option<EncryptionMode> {
    if b == 0 {
        Some(EncryptionMode::ChaCha20Poly1305)
    } else if b == 1 {
        Some(EncryptionMode::Aes256Gcm)
    } else {
        None
    }
}

/// The bytes of a handshake frame.
pub open spec fn handshake_bytes(f: HandshakeFrame) -> Seq<u8> {
    match f {
        HandshakeFrame::Syn { key, mode } => tag_bytes(0) + key + seq![mode_byte(mode)],
        HandshakeFrame::SynAck { key } => tag_bytes(1) + key,
        HandshakeFrame::Bye => tag_bytes(2),
    }
}

/// The handshake frame that a byte string holds, if any.
pub open spec fn parse_handshake(b: Seq<u8>) -> Option<HandshakeFrame> {
    if b.len() == 37 && b.subrange(0, 4) == tag_bytes(0) && mode_of_byte(b[36]) is Some {
        Some(HandshakeFrame::Syn { key: b.subrange(4, 36), mode: mode_of_byte(b[36]).unwrap() })
    } else if b.len() == 36 && b.subrange(0, 4) == tag_bytes(1) {
        Some(HandshakeFrame::SynAck { key: b.subrange(4, 36) })
    } else if b == tag_bytes(2) {
        Some(HandshakeFrame::Bye)
    } else {
        None
    }
}

/// A handshake frame is well formed when its key has 32 bytes.
pub open spec fn handshake_frame_wf(f: HandshakeFrame) -> bool {
    match f {
        HandshakeFrame::Syn { key, .. } => key.len() == 32,
        HandshakeFrame::SynAck { key } => key.len() == 32,
        HandshakeFrame::Bye => true,
    }
}

fn push_tag(out: &mut Vec<u8>, t: u8)
    ensures
        final(out)@ == old(out)@ + tag_bytes(t),
{
    out.push(t);
    out.push(0);
    out.push(0);
    out.push(0);
}

fn push_all(out: &mut Vec<u8>, b: &[u8])
    ensures
        final(out)@ == old(out)@ + b@,
{
    let mut i: usize = 0;
    while i < b.len()
        invariant
            i <= b@.len(),
            out@ == old(out)@ + b@.subrange(0, i as int),
        decreases b@.len() - i,
    {
        out.push(b[i]);
        i += 1;
    }
}

fn key_at(b: &[u8], off: usize) -> (k: [u8; 32])
    requires
        off + 32 <= b@.len(),
    ensures
        k@ == b@.subrange(off as int, off + 32),
{
    let mut k = [0u8; 32];
    let n = b.len();
    let mut i: usize = 0;
    while i < 32
        invariant
            off + 32 <= n,
            n == b@.len(),
            i <= 32,
            k@.len() == 32,
            forall|j: int| 0 <= j < i ==> k@[j] == b@[off + j],
        decreases 32 - i,
    {
        k[i] = b[off + i];
        i += 1;
    }
    assert(k@ =~= b@.subrange(off as int, off + 32));
    k
}

fn mode_to_byte(m: EncryptionMode) -> (r: u8)
    ensures
        r == mode_byte(m),
{
    match m {
        EncryptionMode::ChaCha20Poly1305 => 0,
        EncryptionMode::Aes256Gcm => 1,
    }
}

fn tag_at_start(b: &[u8], t: u8) -> (r: bool)
    ensures
        r == (b@.len() >= 4 && b@.subrange(0, 4) == tag_bytes(t)),
{
    if b.len() < 4 {
        return false;
    }
    let r = b[0] == t && b[1] == 0 && b[2] == 0 && b[3] == 0;
    assert(r ==> b@.subrange(0, 4) =~= tag_bytes(t));
    assert(b@.subrange(0, 4) == tag_bytes(t) ==> b@.subrange(0, 4)[0] == t);
    r
}

impl HandshakeMsg {
    /// The bytes of this frame: tag, then the 32 key bytes, then (for `Syn`)
    /// the mode byte.
    pub fn encode(&self) -> (r: Vec<u8>)
        ensures
            r@ == handshake_bytes(self@),
    {
        let mut out: Vec<u8> = Vec::new();
        match self {
            HandshakeMsg::Syn { public_key, mode } => {
                push_tag(&mut out, 0);
                push_all(&mut out, public_key.as_slice());
                out.push(mode_to_byte(*mode));
            },
            HandshakeMsg::SynAck { public_key } => {
                push_tag(&mut out, 1);
                push_all(&mut out, public_key.as_slice());
            },
            HandshakeMsg::Bye => {
                push_tag(&mut out, 2);
            },
        }
        out
    }

    /// The frame that `b` holds; `None` when `b` is no well-formed frame.
    pub fn decode(b: &[u8]) -> (r: Option<HandshakeMsg>)
        ensures
            match r {
                Some(m) => parse_handshake(b@) == Some(m@),
                None => parse_handshake(b@) is None,
            },
    {
        if b.len() == 37 && tag_at_start(b, 0) {
            let mb = b[36];
            if mb <= 1 {
                let mode = if mb == 0 {
                    EncryptionMode::ChaCha20Poly1305
                } else {
                    EncryptionMode::Aes256Gcm
                };
                return Some(HandshakeMsg::Syn { public_key: key_at(b, 4), mode });
            }
            assert(b@ != tag_bytes(2));
            return None;
        }
        if b.len() == 36 && tag_at_start(b, 1) {
            return Some(HandshakeMsg::SynAck { public_key: key_at(b, 4) });
        }
        if b.len() == 4 && tag_at_start(b, 2) {
            assert(b@ =~= b@.subrange(0, 4));
            return Some(HandshakeMsg::Bye);
        }
        proof {
            if b@ == tag_bytes(2) {
                assert(b@.subrange(0, 4) =~= b@);
            }
        }
        None
    }
}

/// Decoding gives back every well-formed frame that was encoded.
pub proof fn lemma_handshake_round_trip(f: HandshakeFrame)
    requires
        handshake_frame_wf(f),
    ensures
        parse_handshake(handshake_bytes(f)) == Some(f),
{
    let b = handshake_bytes(f);
    match f {
        HandshakeFrame::Syn { key, mode } => {
            assert(b.subrange(0, 4) =~= tag_bytes(0));
            assert(b.subrange(4, 36) =~= key);
        },
        HandshakeFrame::SynAck { key } => {
            assert(b.subrange(0, 4) =~= tag_bytes(1));
            assert(b.subrange(4, 36) =~= key);
        },
        HandshakeFrame::Bye => {},
    }
}

/// A byte string that decodes to a frame is that frame's encoding: the
/// format has one encoding per frame.
pub proof fn lemma_handshake_canonical(b: Seq<u8>)
    requires
        parse_handshake(b) is Some,
    ensures
        handshake_frame_wf(parse_handshake(b).unwrap()),
        handshake_bytes(parse_handshake(b).unwrap()) == b,
{
    if b.len() == 37 && b.subrange(0, 4) == tag_bytes(0) && mode_of_byte(b[36]) is Some {
        assert(handshake_bytes(parse_handshake(b).unwrap()) =~= b);
    } else if b.len() == 36 && b.subrange(0, 4) == tag_bytes(1) {
        assert(handshake_bytes(parse_handshake(b).unwrap()) =~= b);
    }
}

/// Byte `i` (from the least significant) of `n`.
pub open spec fn byte_of(n: u64, i: u64) -> u8 {
    ((n >> (8 * i)) & 0xff) as u8
}

/// The eight little-endian bytes of `n`.
pub open spec fn le_u64(n: u64) -> Seq<u8> {
    Seq::new(8, |i: int| byte_of(n, i as u64))
}

/// The number whose little-endian bytes are `b[off..off + 8]`.
pub open spec fn u64_from_le(b: Seq<u8>, off: int) -> u64 {
    (b[off] as u64) | ((b[off + 1] as u64) << 8) | ((b[off + 2] as u64) << 16) | ((b[off + 3] as u64)
        << 24) | ((b[off + 4] as u64) << 32) | ((b[off + 5] as u64) << 40) | ((b[off + 6] as u64)
        << 48) | ((b[off + 7] as u64) << 56)
}

proof fn lemma_le_u64_parts(n: u64, b0: u8, b1: u8, b2: u8, b3: u8, b4: u8, b5: u8, b6: u8, b7: u8)
    requires
        b0 == byte_of(n, 0),
        b1 == byte_of(n, 1),
        b2 == byte_of(n, 2),
        b3 == byte_of(n, 3),
        b4 == byte_of(n, 4),
        b5 == byte_of(n, 5),
        b6 == byte_of(n, 6),
        b7 == byte_of(n, 7),
    ensures
        (b0 as u64) | ((b1 as u64) << 8) | ((b2 as u64) << 16) | ((b3 as u64) << 24) | ((b4 as u64)
            << 32) | ((b5 as u64) << 40) | ((b6 as u64) << 48) | ((b7 as u64) << 56) == n,
{
    assert((((n >> 0u64) & 0xff) as u8 as u64) | ((((n >> 8u64) & 0xff) as u8 as u64) << 8) | ((((n
        >> 16u64) & 0xff) as u8 as u64) << 16) | ((((n >> 24u64) & 0xff) as u8 as u64) << 24) | ((((n
        >> 32u64) & 0xff) as u8 as u64) << 32) | ((((n >> 40u64) & 0xff) as u8 as u64) << 40) | ((((n
        >> 48u64) & 0xff) as u8 as u64) << 48) | ((((n >> 56u64) & 0xff) as u8 as u64) << 56) == n)
        by (bit_vector);
}

proof fn lemma_le_u64_bytes(b0: u8, b1: u8, b2: u8, b3: u8, b4: u8, b5: u8, b6: u8, b7: u8, n: u64)
    requires
        n == (b0 as u64) | ((b1 as u64) << 8) | ((b2 as u64) << 16) | ((b3 as u64) << 24) | ((b4 as u64)
            << 32) | ((b5 as u64) << 40) | ((b6 as u64) << 48) | ((b7 as u64) << 56),
    ensures
        b0 == byte_of(n, 0),
        b1 == byte_of(n, 1),
        b2 == byte_of(n, 2),
        b3 == byte_of(n, 3),
        b4 == byte_of(n, 4),
        b5 == byte_of(n, 5),
        b6 == byte_of(n, 6),
        b7 == byte_of(n, 7),
{
    assert(b0 == ((n >> 0u64) & 0xff) as u8 && b1 == ((n >> 8u64) & 0xff) as u8 && b2 == ((n >> 16u64)
        & 0xff) as u8 && b3 == ((n >> 24u64) & 0xff) as u8) by (bit_vector)
        requires
            n == (b0 as u64) | ((b1 as u64) << 8) | ((b2 as u64) << 16) | ((b3 as u64) << 24) | ((b4
                as u64) << 32) | ((b5 as u64) << 40) | ((b6 as u64) << 48) | ((b7 as u64) << 56),
    ;
    assert(b4 == ((n >> 32u64) & 0xff) as u8 && b5 == ((n >> 40u64) & 0xff) as u8 && b6 == ((n
        >> 48u64) & 0xff) as u8 && b7 == ((n >> 56u64) & 0xff) as u8) by (bit_vector)
        requires
            n == (b0 as u64) | ((b1 as u64) << 8) | ((b2 as u64) << 16) | ((b3 as u64) << 24) | ((b4
                as u64) << 32) | ((b5 as u64) << 40) | ((b6 as u64) << 48) | ((b7 as u64) << 56),
    ;
}

/// Reading back the eight bytes of `n` gives `n`.
pub proof fn lemma_le_u64_round_trip(n: u64, pre: Seq<u8>, post: Seq<u8>)
    ensures
        u64_from_le(pre + le_u64(n) + post, pre.len() as int) == n,
{
    let b = pre + le_u64(n) + post;
    let o = pre.len() as int;
    assert(b[o] == byte_of(n, 0));
    assert(b[o + 1] == byte_of(n, 1));
    assert(b[o + 2] == byte_of(n, 2));
    assert(b[o + 3] == byte_of(n, 3));
    assert(b[o + 4] == byte_of(n, 4));
    assert(b[o + 5] == byte_of(n, 5));
    assert(b[o + 6] == byte_of(n, 6));
    assert(b[o + 7] == byte_of(n, 7));
    lemma_le_u64_parts(n, b[o], b[o + 1], b[o + 2], b[o + 3], b[o + 4], b[o + 5], b[o + 6], b[o + 7]);
}

/// The bytes of a stream frame: a `Text` carries its UTF-8 length as a
/// little-endian `u64`, then the UTF-8 bytes.
pub open spec fn stream_bytes(f: StreamFrame) -> Seq<u8> {
    match f {
        StreamFrame::Text(s) => tag_bytes(0) + le_u64(encode_utf8(s).len() as u64) + encode_utf8(s),
        StreamFrame::Bye => tag_bytes(1),
    }
}

/// The stream frame that a byte string holds, if any.
pub open spec fn parse_stream(b: Seq<u8>) -> Option<StreamFrame> {
    if b.len() >= 12 && b.subrange(0, 4) == tag_bytes(0) && u64_from_le(b, 4) == b.len() - 12
        && valid_utf8(b.subrange(12, b.len() as int)) {
        Some(StreamFrame::Text(decode_utf8(b.subrange(12, b.len() as int))))
    } else if b == tag_bytes(1) {
        Some(StreamFrame::Bye)
    } else {
        None
    }
}

/// A stream frame can be encoded when its text length fits in a `u64`.
pub open spec fn stream_frame_wf(f: StreamFrame) -> bool {
    match f {
        StreamFrame::Text(s) => encode_utf8(s).len() <= u64::MAX,
        StreamFrame::Bye => true,
    }
}

/// Relies on std::str::from_utf8: it accepts exactly the well-formed UTF-8
/// byte strings, and the text it returns is the one those bytes encode.
#[verifier::external_body]
pub(crate) fn utf8_text(b: &[u8]) -> (r: Option<String>)
    ensures
        r is Some <==> valid_utf8(b@),
        r matches Some(s) ==> s@ == decode_utf8(b@),
{
    std::str::from_utf8(b).ok().map(|s| s.to_owned())
}

fn push_le_u64(out: &mut Vec<u8>, n: u64)
    ensures
        final(out)@ == old(out)@ + le_u64(n),
{
    let mut i: u64 = 0;
    while i < 8
        invariant
            i <= 8,
            out@ == old(out)@ + le_u64(n).subrange(0, i as int),
        decreases 8 - i,
    {
        out.push(((n >> (8 * i)) & 0xff) as u8);
        assert(out@ =~= old(out)@ + le_u64(n).subrange(0, i + 1));
        i += 1;
    }
    assert(le_u64(n).subrange(0, 8) =~= le_u64(n));
}

fn read_le_u64(b: &[u8], off: usize) -> (r: u64)
    requires
        off + 8 <= b@.len(),
    ensures
        r == u64_from_le(b@, off as int),
{
    (b[off] as u64) | ((b[off + 1] as u64) << 8) | ((b[off + 2] as u64) << 16) | ((b[off + 3] as u64)
        << 24) | ((b[off + 4] as u64) << 32) | ((b[off + 5] as u64) << 40) | ((b[off + 6] as u64)
        << 48) | ((b[off + 7] as u64) << 56)
}

impl StreamMessage {
    /// The bytes of this frame.
    pub fn encode(&self) -> (r: Vec<u8>)
        ensures
            r@ == stream_bytes(self@),
    {
        let mut out: Vec<u8> = Vec::new();
        match self {
            StreamMessage::Text(s) => {
                let bytes = s.as_str().as_bytes();
                push_tag(&mut out, 0);
                push_le_u64(&mut out, bytes.len() as u64);
                push_all(&mut out, bytes);
            },
            StreamMessage::Bye => {
                push_tag(&mut out, 1);
            },
        }
        out
    }

    /// The frame that `b` holds; `None` when `b` is no well-formed frame.
    pub fn decode(b: &[u8]) -> (r: Option<StreamMessage>)
        ensures
            match r {
                Some(m) => parse_stream(b@) == Some(m@),
                None => parse_stream(b@) is None,
            },
    {
        let n = b.len();
        if n >= 12 && tag_at_start(b, 0) {
            let len = read_le_u64(b, 4);
            if len == (n - 12) as u64 {
                let (_head, body) = b.split_at(12);
                assert(body@ =~= b@.subrange(12, n as int));
                match utf8_text(body) {
                    Some(s) => {
                        return Some(StreamMessage::Text(s));
                    },
                    None => {
                        assert(b@ != tag_bytes(1));
                        return None;
                    },
                }
            }
            assert(b@ != tag_bytes(1));
            return None;
        }
        if n == 4 && tag_at_start(b, 1) {
            assert(b@ =~= b@.subrange(0, 4));
            return Some(StreamMessage::Bye);
        }
        proof {
            if b@ == tag_bytes(1) {
                assert(b@.subrange(0, 4) =~= b@);
            }
        }
        None
    }
}

/// Decoding gives back every encodable stream frame.
pub proof fn lemma_stream_round_trip(f: StreamFrame)
    requires
        stream_frame_wf(f),
    ensures
        parse_stream(stream_bytes(f)) == Some(f),
{
    match f {
        StreamFrame::Text(s) => {
            let e = encode_utf8(s);
            let n = e.len() as u64;
            let b = stream_bytes(f);
            assert(b.subrange(0, 4) =~= tag_bytes(0));
            assert(b =~= tag_bytes(0) + le_u64(n) + e);
            lemma_le_u64_round_trip(n, tag_bytes(0), e);
            assert(b.subrange(12, b.len() as int) =~= e);
        },
        StreamFrame::Bye => {},
    }
}

} // verus!
