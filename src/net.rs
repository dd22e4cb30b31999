//! STUN: the Binding request, the checks on its response, and the NAT
//! classification from two responses.
//!
//! The caller sends the request and waits (3 s) for the reply; this module
//! builds the bytes and decides what the reply means.
use stun::agent::TransactionId;
use stun::message::{Getter, Message, BINDING_REQUEST};
use stun::xoraddr::XorMappedAddress;
use vstd::prelude::*;
use vstd::utf8::encode_utf8;

use crate::addr::{ipv4_parse, parse_ipv4, Address};
use crate::error::LinkError;
use crate::state::NatType;

verus! {

/// How long to wait for a STUN reply, in milliseconds.
pub const STUN_TIMEOUT_MS: u64 = 3000;

/// The bytes of a Binding request with transaction id `txid`: type 0x0001,
/// length 0, the magic cookie 0x2112A442, then the id.
pub open spec fn binding_request_of(txid: Seq<u8>) -> Seq<u8> {
    seq![0x00u8, 0x01, 0x00, 0x00, 0x21, 0x12, 0xA4, 0x42] + txid
}

/// The transaction id of the STUN message in `b`; `None` when `b` does not
/// parse as a STUN message.
pub uninterp spec fn stun_transaction_id_of(b: Seq<u8>) -> Option<Seq<u8>>;

/// The XOR-MAPPED-ADDRESS of the STUN message in `b`, as the text of its IP
/// address and its port; `None` when `b` does not parse or has none.
pub uninterp spec fn stun_mapped_address_of(b: Seq<u8>) -> Option<(Seq<char>, u16)>;

/// Relies on stun's TransactionId::new: 12 random bytes.
#[verifier::external_body]
fn random_transaction_id() -> (r: [u8; 12]) {
    TransactionId::new().0
}

/// Relies on stun's Message::build with the transaction id and the
/// BINDING_REQUEST type: both setters always succeed, and the header it
/// writes is the whole message (no attributes).
#[verifier::external_body]
fn binding_request_bytes(txid: [u8; 12]) -> (r: Option<Vec<u8>>)
    ensures
        r is Some,
        r matches Some(b) ==> b@ == binding_request_of(txid@),
{
    let mut m = Message::new();
    let built = m.build(&[Box::new(TransactionId(txid)), Box::new(BINDING_REQUEST)]);
    built.ok().map(|_| m.raw)
}

/// Relies on stun's Message::unmarshal_binary, which reads the transaction
/// id from the header.
#[verifier::external_body]
fn stun_transaction_id(b: &[u8]) -> (r: Option<[u8; 12]>)
    ensures
        match r {
            Some(t) => stun_transaction_id_of(b@) == Some(t@),
            None => stun_transaction_id_of(b@) is None,
        },
{
    let mut m = Message::new();
    m.unmarshal_binary(b).ok().map(|_| m.transaction_id.0)
}

/// Relies on stun's XorMappedAddress::get_from (on the message that
/// Message::unmarshal_binary reads): the mapped IP address, rendered as
/// text, and port.
#[verifier::external_body]
fn stun_mapped_address(b: &[u8]) -> (r: Option<(String, u16)>)
    ensures
        match r {
            Some((t, p)) => stun_mapped_address_of(b@) == Some((t@, p)),
            None => stun_mapped_address_of(b@) is None,
        },
{
    let mut m = Message::new();
    m.unmarshal_binary(b).ok()?;
    let mut x = XorMappedAddress::default();
    x.get_from(&m).ok()?;
    Some((x.ip.to_string(), x.port))
}

/// A fresh Binding request: its random transaction id and its bytes.
pub fn new_binding_request() -> (r: ([u8; 12], Vec<u8>))
    ensures
        r.1@ == binding_request_of(r.0@),
{
    let txid = random_transaction_id();
    match binding_request_bytes(txid) {
        Some(b) => (txid, b),
        None => (txid, Vec::new()),
    }
}

/// What a reply means, given what the STUN parser read from it.
pub open spec fn binding_outcome_spec(
    expected: Seq<u8>,
    txid: Option<Seq<u8>>,
    mapped: Option<(Seq<char>, u16)>,
) -> Result<Address, LinkError> {
    match txid {
        None => Err(LinkError::StunProtocol),
        Some(t) => if t != expected {
            Err(LinkError::SecurityMismatch)
        } else {
            match mapped {
                None => Err(LinkError::StunProtocol),
                Some((text, port)) => match ipv4_parse(encode_utf8(text)) {
                    None => Err(LinkError::StunProtocol),
                    Some(ip) => Ok(Address { ip, port }),
                },
            }
        },
    }
}

fn same_txid(a: &[u8; 12], b: &[u8; 12]) -> (r: bool)
    ensures
        r == (a@ == b@),
{
    let mut i: usize = 0;
    while i < 12
        invariant
            i <= 12,
            a@.len() == 12,
            b@.len() == 12,
            forall|j: int| 0 <= j < i ==> a@[j] == b@[j],
        decreases 12 - i,
    {
        if a[i] != b[i] {
            return false;
        }
        i += 1;
    }
    assert(a@ =~= b@);
    true
}

/// Decides what a reply means: a reply that does not parse, or has no
/// IPv4 XOR-MAPPED-ADDRESS, is `StunProtocol`; one with another transaction
/// id is `SecurityMismatch`; otherwise the mapped address.
pub fn binding_outcome(expected: [u8; 12], txid: Option<[u8; 12]>, mapped: Option<(String, u16)>) -> (r: Result<Address, LinkError>)
    ensures
        r == binding_outcome_spec(
            expected@,
            match txid { Some(t) => Some(t@), None => None },
            match mapped { Some((t, p)) => Some((t@, p)), None => None },
        ),
{
    let t = match txid {
        None => {
            return Err(LinkError::StunProtocol);
        },
        Some(t) => t,
    };
    if !same_txid(&t, &expected) {
        return Err(LinkError::SecurityMismatch);
    }
    match mapped {
        None => Err(LinkError::StunProtocol),
        Some((text, port)) => match parse_ipv4(text.as_str()) {
            None => Err(LinkError::StunProtocol),
            Some(ip) => Ok(Address { ip, port }),
        },
    }
}

/// Checks the reply to the Binding request with id `expected`; `None`
/// means no reply came in time (`StunTimeout`).
pub fn check_binding_response(expected: [u8; 12], reply: Option<&[u8]>) -> (r: Result<Address, LinkError>)
    ensures
        match reply {
            None => r == Err::<Address, LinkError>(LinkError::StunTimeout),
            Some(b) => r == binding_outcome_spec(expected@, stun_transaction_id_of(b@), stun_mapped_address_of(b@)),
        },
{
    match reply {
        None => Err(LinkError::StunTimeout),
        Some(b) => {
            let txid = stun_transaction_id(b);
            let mapped = stun_mapped_address(b);
            binding_outcome(expected, txid, mapped)
        },
    }
}

/// The NAT type from the reflexive address a first server reported and
/// what a second server answered: the same address is a cone NAT, another
/// one a symmetric NAT, and a failed probe leaves it unknown.
pub fn classify_nat(first: Address, second: Result<Address, LinkError>) -> (r: NatType)
    ensures
        r == match second {
            Err(_) => NatType::Unknown,
            Ok(a) => if a == first { NatType::Cone } else { NatType::Symmetric },
        },
{
    match second {
        Err(_) => NatType::Unknown,
        Ok(a) => if a == first {
            NatType::Cone
        } else {
            NatType::Symmetric
        },
    }
}

} // verus!
