//! The symmetric hole-punching handshake, as a state machine.
//!
//! Both peers run the same machine. The caller owns the socket and the
//! clock: it feeds the machine a tick every `TICK_MS` and every frame that
//! arrives, and carries out the action each step returns.
use vstd::prelude::*;

use crate::addr::Address;
use crate::crypto::{
    derive_session, lemma_fingerprint_symmetric, session_fingerprint, session_key, CipherModel,
    KeyPair, SessionData,
};
use crate::error::LinkError;
use crate::wire::{EncryptionMode, HandshakeMsg};

verus! {

/// Interval between two ticks.
pub const TICK_MS: u64 = 500;

/// How long a peer keeps answering after both acknowledgements.
pub const LINGER_MS: u64 = 1000;

/// What the caller does after a step.
#[derive(Clone, Copy, Debug)]
pub enum HandshakeAction {
    /// Nothing to do.
    Idle,
    /// Send this frame to the peer.
    Send(HandshakeMsg),
    /// The handshake is done: call `finish`.
    Complete,
    /// The handshake failed for good.
    Fail(LinkError),
}

/// The state of one handshake attempt. Times are milliseconds on the
/// caller's clock.
pub struct Handshake {
    pub peer_addr: Address,
    pub keys: KeyPair,
    pub mode: EncryptionMode,
    /// The first key the peer presented; later frames with another key are
    /// ignored.
    pub peer_public_key: Option<[u8; 32]>,
    pub received_syn_ack: bool,
    pub sent_syn_ack: bool,
    pub linger_deadline: Option<u64>,
    /// When the attempt times out.
    pub deadline: u64,
}

pub open spec fn sat_add(a: u64, b: u64) -> u64 {
    if a + b > u64::MAX {
        u64::MAX
    } else {
        (a + b) as u64
    }
}

fn add_saturating(a: u64, b: u64) -> (r: u64)
    ensures
        r == sat_add(a, b),
{
    if a > u64::MAX - b {
        u64::MAX
    } else {
        a + b
    }
}

/// The machine of an attempt with `peer_addr` started at `now`: nothing
/// pinned or acknowledged yet, timing out `timeout_secs` seconds later
/// (saturating).
pub open spec fn started(peer_addr: Address, keys: KeyPair, mode: EncryptionMode, now: u64, timeout_secs: u64) -> Handshake {
    Handshake {
        peer_addr,
        keys,
        mode,
        peer_public_key: None,
        received_syn_ack: false,
        sent_syn_ack: false,
        linger_deadline: None,
        deadline: sat_add(now, if timeout_secs > u64::MAX / 1000 { u64::MAX } else { (timeout_secs * 1000) as u64 }),
    }
}

/// Whether a frame carrying `key` gets past key pinning.
pub open spec fn key_accepted(s: Handshake, key: [u8; 32]) -> bool {
    s.peer_public_key matches Some(k) ==> k == key
}

/// Starts lingering once both acknowledgements are in.
pub open spec fn start_linger(s: Handshake, now: u64) -> Handshake {
    if s.received_syn_ack && s.sent_syn_ack && s.linger_deadline is None {
        Handshake { linger_deadline: Some(sat_add(now, LINGER_MS)), ..s }
    } else {
        s
    }
}

/// The step taken on a frame from `from`.
pub open spec fn message_step(s: Handshake, now: u64, from: Address, m: HandshakeMsg) -> (
    Handshake,
    HandshakeAction,
) {
    if from != s.peer_addr {
        (s, HandshakeAction::Idle)
    } else {
        match m {
            HandshakeMsg::Syn { public_key, mode } => {
                if !key_accepted(s, public_key) {
                    (s, HandshakeAction::Idle)
                } else if mode != s.mode {
                    (s, HandshakeAction::Fail(LinkError::ModeMismatch))
                } else {
                    (
                        start_linger(
                            Handshake {
                                peer_public_key: Some(public_key),
                                sent_syn_ack: true,
                                ..s
                            },
                            now,
                        ),
                        HandshakeAction::Send(HandshakeMsg::SynAck { public_key: s.keys.public }),
                    )
                }
            },
            HandshakeMsg::SynAck { public_key } => {
                if !key_accepted(s, public_key) {
                    (s, HandshakeAction::Idle)
                } else {
                    (
                        start_linger(
                            Handshake {
                                peer_public_key: Some(public_key),
                                received_syn_ack: true,
                                ..s
                            },
                            now,
                        ),
                        HandshakeAction::Idle,
                    )
                }
            },
            HandshakeMsg::Bye => (s, HandshakeAction::Fail(LinkError::Rejected)),
        }
    }
}

/// The step taken on a tick at time `now`.
pub open spec fn tick_step(s: Handshake, now: u64) -> (Handshake, HandshakeAction) {
    if s.linger_deadline matches Some(d) && now >= d {
        (s, HandshakeAction::Complete)
    } else if now > s.deadline {
        (s, HandshakeAction::Fail(LinkError::HandshakeTimeout))
    } else if s.linger_deadline is Some {
        (s, HandshakeAction::Send(HandshakeMsg::SynAck { public_key: s.keys.public }))
    } else if !s.received_syn_ack {
        (s, HandshakeAction::Send(HandshakeMsg::Syn { public_key: s.keys.public, mode: s.mode }))
    } else {
        (s, HandshakeAction::Idle)
    }
}

impl Handshake {
    /// The machine's invariant: a sent acknowledgement pinned the peer's
    /// key, and lingering starts only after both acknowledgements.
    pub open spec fn wf(&self) -> bool {
        &&& self.sent_syn_ack ==> self.peer_public_key is Some
        &&& self.received_syn_ack ==> self.peer_public_key is Some
        &&& self.linger_deadline is Some ==> self.received_syn_ack && self.sent_syn_ack
    }

    /// A fresh attempt with `peer_addr` started at `now`, which times out
    /// `timeout_secs` seconds later.
    pub fn new(peer_addr: Address, keys: KeyPair, mode: EncryptionMode, now: u64, timeout_secs: u64) -> (r: Handshake)
        ensures
            r.wf(),
            r == started(peer_addr, keys, mode, now, timeout_secs),
    {
        let span = if timeout_secs > u64::MAX / 1000 {
            u64::MAX
        } else {
            timeout_secs * 1000
        };
        Handshake {
            peer_addr,
            keys,
            mode,
            peer_public_key: None,
            received_syn_ack: false,
            sent_syn_ack: false,
            linger_deadline: None,
            deadline: add_saturating(now, span),
        }
    }

    /// Handles a tick: completes after the linger, fails past the deadline,
    /// and otherwise says which frame to (re)send.
    pub fn on_tick(&mut self, now: u64) -> (r: HandshakeAction)
        ensures
            (*final(self), r) == tick_step(*old(self), now),
    {
        if let Some(d) = self.linger_deadline {
            if now >= d {
                return HandshakeAction::Complete;
            }
        }
        if now > self.deadline {
            return HandshakeAction::Fail(LinkError::HandshakeTimeout);
        }
        if self.linger_deadline.is_some() {
            HandshakeAction::Send(HandshakeMsg::SynAck { public_key: self.keys.public })
        } else if !self.received_syn_ack {
            HandshakeAction::Send(HandshakeMsg::Syn { public_key: self.keys.public, mode: self.mode })
        } else {
            HandshakeAction::Idle
        }
    }

    /// Handles a frame that arrived from `from` at time `now`.
    pub fn on_message(&mut self, now: u64, from: Address, m: HandshakeMsg) -> (r: HandshakeAction)
        ensures
            (*final(self), r) == message_step(*old(self), now, from, m),
    {
        if from != self.peer_addr {
            return HandshakeAction::Idle;
        }
        match m {
            HandshakeMsg::Syn { public_key, mode } => {
                if !self.accepts(&public_key) {
                    return HandshakeAction::Idle;
                }
                if mode != self.mode {
                    return HandshakeAction::Fail(LinkError::ModeMismatch);
                }
                self.peer_public_key = Some(public_key);
                self.sent_syn_ack = true;
                self.linger_if_done(now);
                HandshakeAction::Send(HandshakeMsg::SynAck { public_key: self.keys.public })
            },
            HandshakeMsg::SynAck { public_key } => {
                if !self.accepts(&public_key) {
                    return HandshakeAction::Idle;
                }
                self.peer_public_key = Some(public_key);
                self.received_syn_ack = true;
                self.linger_if_done(now);
                HandshakeAction::Idle
            },
            HandshakeMsg::Bye => HandshakeAction::Fail(LinkError::Rejected),
        }
    }

    fn accepts(&self, key: &[u8; 32]) -> (r: bool)
        ensures
            r == key_accepted(*self, *key),
    {
        match &self.peer_public_key {
            Some(k) => same_key(k, key),
            None => true,
        }
    }

    fn linger_if_done(&mut self, now: u64)
        ensures
            *final(self) == start_linger(*old(self), now),
    {
        if self.received_syn_ack && self.sent_syn_ack && self.linger_deadline.is_none() {
            self.linger_deadline = Some(add_saturating(now, LINGER_MS));
        }
    }

    /// Derives the session once the handshake is complete.
    pub fn finish(&self) -> (r: Result<SessionData, LinkError>)
        requires
            self.peer_public_key is Some,
        ensures
            r matches Ok(s) && s.cipher@ == (CipherModel {
                mode: self.mode,
                key: session_key(self.keys.private@, self.peer_public_key.unwrap()@),
            }) && s.fingerprint@ == session_fingerprint(self.keys.public@, self.peer_public_key.unwrap()@),
    {
        let peer = match self.peer_public_key {
            Some(k) => k,
            None => self.keys.public,
        };
        derive_session(self.keys.private, peer, self.mode, self.keys.public)
    }
}

fn same_key(a: &[u8; 32], b: &[u8; 32]) -> (r: bool)
    ensures
        r == (*a == *b),
{
    let mut i: usize = 0;
    while i < 32
        invariant
            i <= 32,
            a@.len() == 32,
            b@.len() == 32,
            forall|j: int| 0 <= j < i ==> a@[j] == b@[j],
        decreases 32 - i,
    {
        if a[i] != b[i] {
            return false;
        }
        i += 1;
    }
    assert(a@ =~= b@);
    proof {
        broadcast use vstd::array::axiom_array_ext_equal;
    }
    assert(*a =~= *b);
    true
}

/// A machine as `new` leaves it, with `now` before its deadline.
pub open spec fn fresh(s: Handshake, now: u64) -> bool {
    &&& s.peer_public_key is None
    &&& !s.received_syn_ack
    &&& !s.sent_syn_ack
    &&& s.linger_deadline is None
    &&& now <= s.deadline
}

/// Two peers that start together, each aimed at the other's address and
/// with the same mode, both complete when no frame is lost: each sends
/// `Syn` on its first tick, answers the other's `Syn` with `SynAck`, and
/// after the linger completes with the other's key pinned. Both then derive
/// the same fingerprint.
pub proof fn lemma_simultaneous_open(a: Handshake, b: Handshake, addr_a: Address, addr_b: Address, now: u64)
    requires
        fresh(a, now),
        fresh(b, now),
        a.peer_addr == addr_b,
        b.peer_addr == addr_a,
        a.mode == b.mode,
        now + LINGER_MS <= u64::MAX,
    ensures
        ({
            let (a1, syn_a) = tick_step(a, now);
            let (b1, syn_b) = tick_step(b, now);
            let (b2, ack_b) = message_step(b1, now, addr_a, syn_a->Send_0);
            let (a2, ack_a) = message_step(a1, now, addr_b, syn_b->Send_0);
            let (a3, _) = message_step(a2, now, addr_b, ack_b->Send_0);
            let (b3, _) = message_step(b2, now, addr_a, ack_a->Send_0);
            let later = (now + LINGER_MS) as u64;
            &&& syn_a is Send && syn_b is Send && ack_a is Send && ack_b is Send
            &&& tick_step(a3, later).1 == HandshakeAction::Complete
            &&& tick_step(b3, later).1 == HandshakeAction::Complete
            &&& a3.peer_public_key == Some(b.keys.public)
            &&& b3.peer_public_key == Some(a.keys.public)
            &&& session_fingerprint(a.keys.public@, a3.peer_public_key.unwrap()@)
                == session_fingerprint(b.keys.public@, b3.peer_public_key.unwrap()@)
        }),
{
    lemma_fingerprint_symmetric(a.keys.public@, b.keys.public@);
}

/// Peers that ask for different modes both fail with `ModeMismatch`: the
/// first `Syn` either of them receives from the other ends its attempt.
pub proof fn lemma_mode_mismatch(a: Handshake, b: Handshake, addr_a: Address, addr_b: Address, now: u64)
    requires
        fresh(a, now),
        fresh(b, now),
        a.peer_addr == addr_b,
        b.peer_addr == addr_a,
        a.mode != b.mode,
    ensures
        ({
            let (_, syn_a) = tick_step(a, now);
            let (_, syn_b) = tick_step(b, now);
            &&& syn_a is Send && syn_b is Send
            &&& message_step(b, now, addr_a, syn_a->Send_0).1 == HandshakeAction::Fail(LinkError::ModeMismatch)
            &&& message_step(a, now, addr_b, syn_b->Send_0).1 == HandshakeAction::Fail(LinkError::ModeMismatch)
        }),
{
}

/// Every step keeps the machine's invariant.
pub proof fn lemma_steps_keep_wf(s: Handshake, now: u64, from: Address, m: HandshakeMsg)
    requires
        s.wf(),
    ensures
        tick_step(s, now).0.wf(),
        message_step(s, now, from, m).0.wf(),
{
}

/// A `Syn` from the peer that asks for another mode ends the attempt with
/// `ModeMismatch` at once, changing nothing and answering nothing, unless
/// its key was already refused by pinning.
pub proof fn lemma_mismatched_syn_fails(s: Handshake, now: u64, key: [u8; 32], mode: EncryptionMode)
    requires
        key_accepted(s, key),
        mode != s.mode,
    ensures
        message_step(s, now, s.peer_addr, HandshakeMsg::Syn { public_key: key, mode }) == (
            s,
            HandshakeAction::Fail(LinkError::ModeMismatch),
        ),
{
}

/// Only a `Syn` in the machine's own mode makes it acknowledge, and it
/// completes only after acknowledging: a peer that never sends such a
/// `Syn` never gets this side to complete.
pub proof fn lemma_completion_needs_matching_syn(s: Handshake, now: u64, from: Address, m: HandshakeMsg)
    requires
        s.wf(),
    ensures
        tick_step(s, now).0 == s,
        tick_step(s, now).1 == HandshakeAction::Complete ==> s.sent_syn_ack,
        message_step(s, now, from, m).0.sent_syn_ack && !s.sent_syn_ack ==> (m matches HandshakeMsg::Syn {
            mode,
            ..
        } && mode == s.mode),
        message_step(s, now, from, m).1 != HandshakeAction::Complete,
{
}

} // verus!
