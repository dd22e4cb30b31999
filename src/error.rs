//! The kinds of failure the engine reports.
use vstd::prelude::*;

verus! {

/// What went wrong. Each kind has a human-readable message for the UI.
#[derive(Clone, Copy, Debug, PartialEq, Eq, Structural)]
pub enum LinkError {
    DnsResolution,
    NetworkIo,
    StunTimeout,
    StunProtocol,
    SecurityMismatch,
    HandshakeTimeout,
    Rejected,
    ModeMismatch,
    KdfFailure,
    CipherInitFailure,
    EncryptionFailure,
    DecryptionFailure,
    NotHandshaken,
    NotConnected,
    NotInitialized,
    PlatformUnsupported,
    ControllerUnavailable,
}

/// The message shown to the user for each kind of failure.
pub open spec fn link_error_text(e: LinkError) -> Seq<char> {
    match e {
        LinkError::DnsResolution => "Failed to resolve DNS for the STUN server"@,
        LinkError::NetworkIo => "Network I/O error"@,
        LinkError::StunTimeout => "STUN request timed out"@,
        LinkError::StunProtocol => "STUN response did not contain XOR-MAPPED-ADDRESS"@,
        LinkError::SecurityMismatch => "Security Mismatch: unexpected STUN transaction ID"@,
        LinkError::HandshakeTimeout => "Handshake timed out"@,
        LinkError::Rejected => "Connection rejected by peer"@,
        LinkError::ModeMismatch => "Peer asked for a different encryption mode"@,
        LinkError::KdfFailure => "HKDF expansion failed"@,
        LinkError::CipherInitFailure => "Cipher initialization failed"@,
        LinkError::EncryptionFailure => "Encryption failure"@,
        LinkError::DecryptionFailure => "Decryption failure"@,
        LinkError::NotHandshaken => "Handshake not established."@,
        LinkError::NotConnected => "KCP stream not established"@,
        LinkError::NotInitialized => "Session cipher not initialized"@,
        LinkError::PlatformUnsupported => "Socket cloning is only implemented for Unix-like systems"@,
        LinkError::ControllerUnavailable => "Internal Controller Error"@,
    }
}

impl LinkError {
    /// The message shown to the user for this kind of failure.
    pub fn message(&self) -> (r: &'static str)
        ensures
            r@ == link_error_text(*self),
    {
        match self {
            LinkError::DnsResolution => "Failed to resolve DNS for the STUN server",
            LinkError::NetworkIo => "Network I/O error",
            LinkError::StunTimeout => "STUN request timed out",
            LinkError::StunProtocol => "STUN response did not contain XOR-MAPPED-ADDRESS",
            LinkError::SecurityMismatch => "Security Mismatch: unexpected STUN transaction ID",
            LinkError::HandshakeTimeout => "Handshake timed out",
            LinkError::Rejected => "Connection rejected by peer",
            LinkError::ModeMismatch => "Peer asked for a different encryption mode",
            LinkError::KdfFailure => "HKDF expansion failed",
            LinkError::CipherInitFailure => "Cipher initialization failed",
            LinkError::EncryptionFailure => "Encryption failure",
            LinkError::DecryptionFailure => "Decryption failure",
            LinkError::NotHandshaken => "Handshake not established.",
            LinkError::NotConnected => "KCP stream not established",
            LinkError::NotInitialized => "Session cipher not initialized",
            LinkError::PlatformUnsupported => "Socket cloning is only implemented for Unix-like systems",
            LinkError::ControllerUnavailable => "Internal Controller Error",
        }
    }
}

} // verus!
