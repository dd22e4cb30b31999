//! GhostLink: the connection engine of a peer-to-peer encrypted chat node.
//!
//! The library holds the logic of the node: the wire formats of the
//! handshake and of the reliable stream, session-key derivation and
//! counter-nonce AEAD framing, the hole-punching handshake as a state
//! machine, the STUN response checks and NAT classification, and the
//! state record with the events it publishes. Sockets, timers and the
//! web surface live with the caller.
pub mod addr;
pub mod api;
pub mod config;
pub mod control;
pub mod crypto;
pub mod error;
pub mod handshake;
pub mod net;
pub mod session;
pub mod state;
pub mod wire;
