use ghostlink::addr::Address;
use ghostlink::error::LinkError;
use ghostlink::net::{binding_outcome, check_binding_response, classify_nat, new_binding_request};
use ghostlink::state::NatType;
use stun::message::{Message, BINDING_SUCCESS};
use stun::xoraddr::XorMappedAddress;

/// A mock server's answer to `request`, reporting `ip:port`, with the first
/// byte of the transaction id changed when `tamper` is set.
fn mock_response(request: &[u8], ip: &str, port: u16, tamper: bool) -> Vec<u8> {
    let mut req = Message::new();
    req.unmarshal_binary(request).unwrap();
    let mut resp = Message::new();
    let mut tx_id = req.transaction_id;
    if tamper {
        tx_id.0[0] = tx_id.0[0].wrapping_add(1);
    }
    resp.transaction_id = tx_id;
    resp.build(&[Box::new(BINDING_SUCCESS), Box::new(XorMappedAddress { ip: ip.parse().unwrap(), port })])
        .unwrap();
    resp.raw
}

#[test]
fn test_resolve_public_ip_mock() {
    let (txid, request) = new_binding_request();
    let response = mock_response(&request, "127.0.0.1", 9999, false);
    let result = check_binding_response(txid, Some(&response));
    assert!(result.is_ok());
    let ip = result.unwrap();
    assert_eq!(ip.port, 9999);
    assert_eq!(ip, Address::new(127, 0, 0, 1, 9999));
}

#[test]
fn test_resolve_public_ip_timeout() {
    let (txid, _request) = new_binding_request();
    let result = check_binding_response(txid, None);
    assert!(result.is_err());
    assert_eq!(result.unwrap_err().message(), "STUN request timed out");
}

#[test]
fn test_resolve_public_ip_transaction_id_mismatch() {
    let (txid, request) = new_binding_request();
    let response = mock_response(&request, "127.0.0.1", 9999, true);
    let result = check_binding_response(txid, Some(&response));
    assert!(result.is_err());
    let err = result.unwrap_err();
    assert_eq!(err, LinkError::SecurityMismatch);
    assert!(err.message().contains("Security Mismatch"));
}

#[test]
fn test_get_nat_type_symmetric() {
    let (txid, request) = new_binding_request();
    let response = mock_response(&request, "127.0.0.1", 8888, false);
    let prev_addr = Address::new(127, 0, 0, 1, 9999);
    let nat_type = classify_nat(prev_addr, check_binding_response(txid, Some(&response)));
    assert_eq!(nat_type, NatType::Symmetric);
}

#[test]
fn test_get_nat_type_cone() {
    let (txid, request) = new_binding_request();
    let response = mock_response(&request, "127.0.0.1", 9999, false);
    let prev_addr = Address::new(127, 0, 0, 1, 9999);
    let nat_type = classify_nat(prev_addr, check_binding_response(txid, Some(&response)));
    assert_eq!(nat_type, NatType::Cone);
}

#[test]
fn test_get_nat_type_unknown_on_failure() {
    let prev_addr = Address::new(127, 0, 0, 1, 9999);
    let (txid, _request) = new_binding_request();
    let nat_type = classify_nat(prev_addr, check_binding_response(txid, None));
    assert_eq!(nat_type, NatType::Unknown);
}

#[test]
fn binding_request_is_a_stun_binding_request() {
    let (txid, request) = new_binding_request();
    let mut m = Message::new();
    m.unmarshal_binary(&request).unwrap();
    assert_eq!(m.transaction_id.0, txid);
    assert_eq!(request.len(), 20);
    let (other, _) = new_binding_request();
    assert_ne!(other, txid);
}

#[test]
fn garbage_and_ipv6_replies_are_protocol_errors() {
    let (txid, request) = new_binding_request();
    assert_eq!(check_binding_response(txid, Some(b"not stun")), Err(LinkError::StunProtocol));
    let v6 = mock_response(&request, "::1", 9999, false);
    assert_eq!(check_binding_response(txid, Some(&v6)), Err(LinkError::StunProtocol));
    let mut bare = Message::new();
    bare.transaction_id.0 = txid;
    bare.build(&[Box::new(BINDING_SUCCESS)]).unwrap();
    bare.transaction_id.0 = txid;
    bare.write_transaction_id();
    assert_eq!(check_binding_response(txid, Some(&bare.raw)), Err(LinkError::StunProtocol));
}

#[test]
fn binding_outcome_decides_on_what_was_read() {
    let id = [4u8; 12];
    assert_eq!(binding_outcome(id, None, None), Err(LinkError::StunProtocol));
    assert_eq!(binding_outcome(id, Some([5u8; 12]), Some(("1.2.3.4".to_string(), 5))), Err(LinkError::SecurityMismatch));
    assert_eq!(binding_outcome(id, Some(id), None), Err(LinkError::StunProtocol));
    assert_eq!(binding_outcome(id, Some(id), Some(("1.2.3.400".to_string(), 5))), Err(LinkError::StunProtocol));
    assert_eq!(binding_outcome(id, Some(id), Some(("203.0.113.10".to_string(), 8080))), Ok(Address::new(203, 0, 113, 10, 8080)));
}

#[test]
fn binding_request_bytes_are_the_stun_header() {
    let (txid, request) = new_binding_request();
    assert_eq!(&request[..8], &[0x00, 0x01, 0x00, 0x00, 0x21, 0x12, 0xA4, 0x42]);
    assert_eq!(&request[8..], &txid);
}
