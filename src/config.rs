//! Settings read once at startup.
use vstd::prelude::*;

use crate::wire::EncryptionMode;

verus! {

/// The node's settings.
#[derive(Clone, Debug)]
pub struct Config {
    /// UDP port of the node (0 picks one).
    pub client_port: u16,
    /// STUN server for the public address, `host:port`.
    pub stun_server: String,
    /// Second STUN server, for the NAT type.
    pub stun_verifier: String,
    pub web_port: u16,
    pub handshake_timeout_secs: u64,
    /// Period of the NAT keep-alive while disconnected.
    pub punch_hole_secs: u64,
    /// Grace period for the goodbye on shutdown.
    pub disconnect_timeout_ms: u64,
    pub encryption_mode: EncryptionMode,
}

impl Config {
    /// The default settings.
    pub fn load() -> (r: Config)
        ensures
            r.client_port == 0,
            r.stun_server@ == "stun.l.google.com:19302"@,
            r.stun_verifier@ == "stun4.l.google.com:19302"@,
            r.web_port == 8080,
            r.handshake_timeout_secs == 30,
            r.punch_hole_secs == 15,
            r.disconnect_timeout_ms == 500,
            r.encryption_mode == EncryptionMode::ChaCha20Poly1305,
    {
        Config {
            client_port: 0,
            stun_server: String::from_str("stun.l.google.com:19302"),
            stun_verifier: String::from_str("stun4.l.google.com:19302"),
            web_port: 8080,
            handshake_timeout_secs: 30,
            punch_hole_secs: 15,
            disconnect_timeout_ms: 500,
            encryption_mode: EncryptionMode::ChaCha20Poly1305,
        }
    }
}

} // verus!
