//! The checks behind the UI's requests: connecting to a peer and sending a
//! chat line.
use vstd::prelude::*;
use vstd::utf8::encode_utf8;

use crate::addr::{ipv4_parse, parse_ipv4, Address};
use crate::state::{status_event, AppEvent, AppState, Status};
use crate::wire::EncryptionMode;

verus! {

/// Why a request was refused.
#[derive(Clone, Copy, Debug, PartialEq, Eq, Structural)]
pub enum ApiError {
    /// The IP is no dotted quad.
    InvalidIp,
    /// The node is punching or connected already.
    Busy,
    /// The chat line is blank.
    EmptyMessage,
    /// No peer is connected.
    NotConnected,
    /// The engine did not take the command.
    ControllerUnavailable,
    /// The requested encryption mode is none of the known names.
    InvalidMode,
    /// There is no session to leave.
    AlreadyDisconnected,
}

/// The message sent back with each refusal.
pub open spec fn api_error_text(e: ApiError) -> Seq<char> {
    match e {
        ApiError::InvalidIp => "Invalid IP address"@,
        ApiError::Busy => "Cannot connect: Node is already busy (connected or punching)."@,
        ApiError::EmptyMessage => "Message cannot be empty"@,
        ApiError::NotConnected => "Not connected to a peer"@,
        ApiError::ControllerUnavailable => "Internal Controller Error"@,
        ApiError::InvalidMode => "Unknown encryption mode"@,
        ApiError::AlreadyDisconnected => "Already disconnected"@,
    }
}

impl ApiError {
    /// The HTTP status of the refusal: 500 when the engine is unavailable,
    /// 400 otherwise.
    pub fn status_code(&self) -> (r: u16)
        ensures
            r == if *self == ApiError::ControllerUnavailable { 500u16 } else { 400u16 },
    {
        match self {
            ApiError::ControllerUnavailable => 500,
            _ => 400,
        }
    }

    /// The message sent back with the refusal.
    pub fn message(&self) -> (r: &'static str)
        ensures
            r@ == api_error_text(*self),
    {
        match self {
            ApiError::InvalidIp => "Invalid IP address",
            ApiError::Busy => "Cannot connect: Node is already busy (connected or punching).",
            ApiError::EmptyMessage => "Message cannot be empty",
            ApiError::NotConnected => "Not connected to a peer",
            ApiError::ControllerUnavailable => "Internal Controller Error",
            ApiError::InvalidMode => "Unknown encryption mode",
            ApiError::AlreadyDisconnected => "Already disconnected",
        }
    }
}

/// The text without leading and trailing white space.
pub uninterp spec fn trim_of(s: Seq<char>) -> Seq<char>;

/// Relies on str::trim: leading and trailing white space removed.
#[verifier::external_body]
fn trimmed(s: &str) -> (r: &str)
    ensures
        r@ == trim_of(s@),
{
    s.trim()
}

/// Takes a request to connect to `ip:port`. The IP must be a dotted quad
/// and the node disconnected; then the peer is recorded and the event
/// announcing it is returned (the caller then sends `ConnectPeer`).
pub fn connect_peer(state: &mut AppState, ip: &str, port: u16) -> (r: Result<AppEvent, ApiError>)
    ensures
        match ipv4_parse(encode_utf8(ip@)) {
            None => r == Err::<AppEvent, ApiError>(ApiError::InvalidIp) && *final(state) == *old(state),
            Some(a) => if old(state).status != Status::Disconnected {
                r == Err::<AppEvent, ApiError>(ApiError::Busy) && *final(state) == *old(state)
            } else {
                &&& *final(state) == (AppState { peer_ip: Some(Address { ip: a, port }), ..*old(state) })
                &&& r matches Ok(ev) && ev == status_event(*final(state), ev->Disconnected_message, None)
            },
        },
{
    let a = match parse_ipv4(ip) {
        None => {
            return Err(ApiError::InvalidIp);
        },
        Some(a) => a,
    };
    if state.status != Status::Disconnected {
        return Err(ApiError::Busy);
    }
    let ev = state.set_peer_ip(Address { ip: a, port }, Some(String::from_str("Target set via API")), None);
    Ok(ev)
}

/// Takes a chat line from the UI: it must not be blank, and a peer must be
/// connected.
pub fn send_message(state: &AppState, message: &str) -> (r: Result<(), ApiError>)
    ensures
        trim_of(message@).len() == 0 ==> r == Err::<(), ApiError>(ApiError::EmptyMessage),
        trim_of(message@).len() > 0 && state.status != Status::Connected ==> r == Err::<(), ApiError>(ApiError::NotConnected),
        trim_of(message@).len() > 0 && state.status == Status::Connected ==> r is Ok,
{
    if trimmed(message).is_empty() {
        return Err(ApiError::EmptyMessage);
    }
    if state.status != Status::Connected {
        return Err(ApiError::NotConnected);
    }
    Ok(())
}

/// The mode a connect request names: `ChaCha20Poly1305` or `Aes256Gcm`,
/// or none (the configured one is used). Any other name is refused.
pub fn parse_mode(name: Option<&str>) -> (r: Result<Option<EncryptionMode>, ApiError>)
    ensures
        r == match name {
            None => Ok(None),
            Some(n) => if n@ == "ChaCha20Poly1305"@ {
                Ok(Some(EncryptionMode::ChaCha20Poly1305))
            } else if n@ == "Aes256Gcm"@ {
                Ok(Some(EncryptionMode::Aes256Gcm))
            } else {
                Err::<Option<EncryptionMode>, ApiError>(ApiError::InvalidMode)
            },
        },
{
    match name {
        None => Ok(None),
        Some(n) => {
            let given = String::from_str(n);
            if given == String::from_str("ChaCha20Poly1305") {
                Ok(Some(EncryptionMode::ChaCha20Poly1305))
            } else if given == String::from_str("Aes256Gcm") {
                Ok(Some(EncryptionMode::Aes256Gcm))
            } else {
                Err(ApiError::InvalidMode)
            }
        },
    }
}

/// Takes a request to disconnect: refused when there is no session.
pub fn disconnect_request(state: &AppState) -> (r: Result<(), ApiError>)
    ensures
        r == if state.status == Status::Disconnected {
            Err::<(), ApiError>(ApiError::AlreadyDisconnected)
        } else {
            Ok(())
        },
{
    if state.status == Status::Disconnected {
        Err(ApiError::AlreadyDisconnected)
    } else {
        Ok(())
    }
}

} // verus!
