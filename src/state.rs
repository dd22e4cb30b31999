//! The node's state record and the events its changes publish.
//!
//! Every setter returns the event that the change publishes; the caller
//! hands it to the subscribers.
use vstd::prelude::*;

use crate::addr::Address;

verus! {

/// How the local NAT maps the node's socket.
#[derive(Clone, Copy, Debug, PartialEq, Eq, Structural)]
pub enum NatType {
    /// Not determined, or a probe failed.
    Unknown,
    /// The same external port towards every destination.
    Cone,
    /// A different external port per destination.
    Symmetric,
}

/// Connection status of the node.
#[derive(Clone, Copy, Debug, PartialEq, Eq, Structural)]
pub enum Status {
    Disconnected,
    Punching,
    Connected,
}

/// The status changes the engine makes: Disconnected to Punching, Punching
/// to Connected or back to Disconnected, and Connected to Disconnected.
pub open spec fn legal_transition(from: Status, to: Status) -> bool {
    match (from, to) {
        (Status::Disconnected, Status::Punching) => true,
        (Status::Punching, Status::Connected) => true,
        (Status::Punching, Status::Disconnected) => true,
        (Status::Connected, Status::Disconnected) => true,
        _ => false,
    }
}

impl Status {
    /// Whether the engine may go from this status to `next`.
    pub fn can_move_to(&self, next: Status) -> (r: bool)
        ensures
            r == legal_transition(*self, next),
    {
        match (self, next) {
            (Status::Disconnected, Status::Punching) => true,
            (Status::Punching, Status::Connected) => true,
            (Status::Punching, Status::Disconnected) => true,
            (Status::Connected, Status::Disconnected) => true,
            _ => false,
        }
    }
}

/// The addresses and status of the node.
#[derive(Clone, Copy, Debug, PartialEq, Eq, Structural)]
pub struct AppState {
    /// Local address (for LAN connections).
    pub local_ip: Option<Address>,
    /// Public address as a STUN server sees it.
    pub public_ip: Option<Address>,
    pub nat_type: NatType,
    pub status: Status,
    /// The peer to connect to.
    pub peer_ip: Option<Address>,
}

/// An event for the subscribers (the UI).
#[derive(Clone, Debug)]
pub enum AppEvent {
    /// Idle or disconnected: the whole state, for resynchronisation.
    Disconnected { state: AppState, message: Option<String> },
    /// Hole punching, with the seconds left.
    Punching { timeout: Option<u64>, message: Option<String> },
    Connected { message: Option<String> },
    Message { content: String, from_me: bool },
    ClearChat,
}

/// Requests from the UI to the engine.
#[derive(Clone, Debug)]
pub enum Command {
    /// Connect to the peer set in the state.
    ConnectPeer,
    SendMessage(String),
    Disconnect,
}

/// The event that announces state `s`: the full state when disconnected,
/// a progress delta otherwise.
pub open spec fn status_event(s: AppState, message: Option<String>, timeout: Option<u64>) -> AppEvent {
    match s.status {
        Status::Disconnected => AppEvent::Disconnected { state: s, message },
        Status::Punching => AppEvent::Punching { timeout, message },
        Status::Connected => AppEvent::Connected { message },
    }
}

/// `ev` announces state `s` (with the given time left, while punching),
/// whatever its message.
pub open spec fn announces(ev: AppEvent, s: AppState, timeout: Option<u64>) -> bool {
    match ev {
        AppEvent::Disconnected { state, message } => ev == status_event(s, message, timeout),
        AppEvent::Punching { timeout: _, message } => ev == status_event(s, message, timeout),
        AppEvent::Connected { message } => ev == status_event(s, message, timeout),
        _ => false,
    }
}

impl AppState {
    /// The initial state: nothing known, disconnected.
    pub fn new() -> (r: AppState)
        ensures
            r.local_ip is None,
            r.public_ip is None,
            r.nat_type == NatType::Unknown,
            r.status == Status::Disconnected,
            r.peer_ip is None,
    {
        AppState {
            local_ip: None,
            public_ip: None,
            nat_type: NatType::Unknown,
            status: Status::Disconnected,
            peer_ip: None,
        }
    }

    /// The event announcing the current state.
    pub fn status_event(&self, message: Option<String>, timeout: Option<u64>) -> (r: AppEvent)
        ensures
            r == status_event(*self, message, timeout),
    {
        match self.status {
            Status::Disconnected => AppEvent::Disconnected { state: *self, message },
            Status::Punching => AppEvent::Punching { timeout, message },
            Status::Connected => AppEvent::Connected { message },
        }
    }

    pub fn set_local_ip(&mut self, addr: Address, message: Option<String>, timeout: Option<u64>) -> (r: AppEvent)
        ensures
            *final(self) == (AppState { local_ip: Some(addr), ..*old(self) }),
            r == status_event(*final(self), message, timeout),
    {
        self.local_ip = Some(addr);
        self.status_event(message, timeout)
    }

    pub fn set_public_ip(&mut self, addr: Address, message: Option<String>, timeout: Option<u64>) -> (r: AppEvent)
        ensures
            *final(self) == (AppState { public_ip: Some(addr), ..*old(self) }),
            r == status_event(*final(self), message, timeout),
    {
        self.public_ip = Some(addr);
        self.status_event(message, timeout)
    }

    pub fn set_nat_type(&mut self, nat_type: NatType, message: Option<String>, timeout: Option<u64>) -> (r: AppEvent)
        ensures
            *final(self) == (AppState { nat_type, ..*old(self) }),
            r == status_event(*final(self), message, timeout),
    {
        self.nat_type = nat_type;
        self.status_event(message, timeout)
    }

    pub fn set_status(&mut self, status: Status, message: Option<String>, timeout: Option<u64>) -> (r: AppEvent)
        ensures
            *final(self) == (AppState { status, ..*old(self) }),
            r == status_event(*final(self), message, timeout),
    {
        self.status = status;
        self.status_event(message, timeout)
    }

    pub fn set_peer_ip(&mut self, addr: Address, message: Option<String>, timeout: Option<u64>) -> (r: AppEvent)
        ensures
            *final(self) == (AppState { peer_ip: Some(addr), ..*old(self) }),
            r == status_event(*final(self), message, timeout),
    {
        self.peer_ip = Some(addr);
        self.status_event(message, timeout)
    }

    /// The event carrying a chat line.
    pub fn add_message(&self, content: String, from_me: bool) -> (r: AppEvent)
        ensures
            r == (AppEvent::Message { content, from_me }),
    {
        AppEvent::Message { content, from_me }
    }

    /// The event clearing the chat.
    pub fn clear_chat(&self) -> (r: AppEvent)
        ensures
            r == AppEvent::ClearChat,
    {
        AppEvent::ClearChat
    }
}

} // verus!
