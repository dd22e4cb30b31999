//! The decisions of the control loop.
//!
//! The loop waits on the command channel, on the reliable stream (while it
//! is up) and on the keep-alive timer; each function here takes what
//! arrived, updates the session and the state, and returns what the loop
//! must do, in order.
use vstd::prelude::*;

use crate::addr::Address;
use crate::crypto::{seal, KeyPair, SessionData, plaintext_limit};
use crate::error::LinkError;
use crate::handshake::{started, Handshake};
use crate::session::{connected_message, failure_message, Farewell, MessageManager};
use crate::state::{announces, legal_transition, status_event, AppEvent, AppState, Command, Status};
use crate::wire::{handshake_bytes, parse_stream, stream_bytes, HandshakeFrame, EncryptionMode, StreamFrame, StreamMessage};

verus! {

/// What the control loop does next.
pub enum ControlAction {
    /// Hand this event to the subscribers.
    Publish(AppEvent),
    /// Run a handshake with this peer, then report with `on_handshake_result`.
    StartHandshake(Address),
    /// Mount the reliable stream on a duplicate of the socket, towards this peer.
    MountStream(Address),
    /// Write these bytes to the reliable stream and flush.
    WriteStream(Vec<u8>),
    /// Send this datagram from the socket.
    SendDatagram(Address, Vec<u8>),
    /// Shut the reliable stream down (best effort) and drop it.
    CloseStream,
}

/// Starts a handshake with `peer`: the status goes to Punching.
pub fn begin_handshake(
    state: &mut AppState,
    peer: Address,
    keys: KeyPair,
    mode: EncryptionMode,
    now: u64,
    timeout_secs: u64,
    message: Option<String>,
) -> (r: (Handshake, AppEvent))
    ensures
        r.0.wf(),
        r.0 == started(peer, keys, mode, now, timeout_secs),
        *final(state) == (AppState { status: Status::Punching, ..*old(state) }),
        old(state).status == Status::Disconnected ==> legal_transition(old(state).status, final(state).status),
        r.1 == status_event(*final(state), message, Some(timeout_secs)),
{
    let hs = Handshake::new(peer, keys, mode, now, timeout_secs);
    let ev = state.set_status(Status::Punching, message, Some(timeout_secs));
    (hs, ev)
}

/// Records the end of a handshake: on success the session is installed and
/// the stream is to be mounted; on failure the status is Disconnected.
pub fn on_handshake_result(
    manager: &mut MessageManager,
    state: &mut AppState,
    peer: Address,
    outcome: Result<SessionData, LinkError>,
) -> (r: Vec<ControlAction>)
    requires
        old(manager).wf(),
    ensures
        final(manager).wf(),
        outcome is Ok ==> final(state).status == Status::Connected && final(manager).stream_open
            && final(manager).peer_addr == Some(peer) && final(manager).tx_nonce == 0
            && final(manager).rx_nonce == 0 && final(manager).cipher_model() == Some(outcome->Ok_0.cipher@),
        outcome is Ok ==> r@.len() == 2 && r@[1] == ControlAction::MountStream(peer),
        outcome matches Ok(s) ==> (r@[0] matches ControlAction::Publish(AppEvent::Connected { message: Some(m) })
            && r@[0]->Publish_0->Connected_message.unwrap()@ == connected_message(s.fingerprint@, s.cipher@.mode)),
        outcome is Err ==> final(state).status == Status::Disconnected && *final(manager) == *old(manager),
        outcome matches Err(e) ==> r@.len() == 1 && (r@[0] matches ControlAction::Publish(AppEvent::Disconnected { state: st, message: Some(m) })
            && r@[0]->Publish_0->Disconnected_state == *final(state)
            && r@[0]->Publish_0->Disconnected_message.unwrap()@ == failure_message(e)),
        old(state).status == Status::Punching ==> legal_transition(old(state).status, final(state).status),
{
    let (res, ev) = manager.handshake(state, peer, outcome);
    let mut actions: Vec<ControlAction> = Vec::new();
    actions.push(ControlAction::Publish(ev));
    if res.is_ok() {
        match manager.upgrade_to_kcp() {
            Ok(p) => actions.push(ControlAction::MountStream(p)),
            Err(_) => {},
        }
    }
    actions
}

/// The events as `Publish` actions.
pub open spec fn publish_all(events: Seq<AppEvent>) -> Seq<ControlAction> {
    Seq::new(events.len(), |i: int| ControlAction::Publish(events[i]))
}

fn push_publish(actions: &mut Vec<ControlAction>, events: Vec<AppEvent>)
    ensures
        final(actions)@ == old(actions)@ + publish_all(events@),
{
    let ghost orig = events@;
    let mut events = events;
    let ghost mut k: int = 0;
    while events.len() > 0
        invariant
            0 <= k <= orig.len(),
            events@ == orig.subrange(k, orig.len() as int),
            actions@ == old(actions)@ + publish_all(orig.subrange(0, k)),
        decreases events@.len(),
    {
        let ev = events.remove(0);
        actions.push(ControlAction::Publish(ev));
        proof {
            assert(orig.subrange(0, k + 1) =~= orig.subrange(0, k).push(orig[k]));
            assert(publish_all(orig.subrange(0, k + 1)) =~= publish_all(orig.subrange(0, k)).push(ControlAction::Publish(orig[k])));
            k = k + 1;
            assert(events@ =~= orig.subrange(k, orig.len() as int));
        }
    }
    assert(orig.subrange(0, k) =~= orig);
}

/// The actions of leaving a session: the goodbye, closing the stream when
/// it was up, then the events.
pub open spec fn leave_actions(farewell: Seq<ControlAction>, stream_was_open: bool, events: Seq<AppEvent>) -> Seq<ControlAction> {
    farewell + (if stream_was_open { seq![ControlAction::CloseStream] } else { seq![] }) + publish_all(events)
}

/// `r` is what leaving session `m` does, the state ending as `s`: a goodbye
/// (an encrypted `Bye` on the stream when one can still be sealed, else a
/// raw `Bye` datagram to the peer, else nothing), closing the stream when
/// it was up, then clearing the chat and announcing the disconnection.
pub open spec fn leave_plan(m: MessageManager, s: AppState, r: Seq<ControlAction>) -> bool {
    let events = seq![AppEvent::ClearChat, status_event(s, None, None)];
    if m.stream_open && m.cipher is Some && m.tx_nonce < u64::MAX {
        &&& r.len() > 0
        &&& r[0] is WriteStream
        &&& r[0]->WriteStream_0@ == seal(m.cipher_model().unwrap(), m.tx_nonce, stream_bytes(StreamFrame::Bye))
        &&& r == leave_actions(seq![r[0]], true, events)
    } else if m.peer_addr is Some {
        &&& r.len() > 0
        &&& r[0] is SendDatagram
        &&& r[0]->SendDatagram_0 == m.peer_addr.unwrap()
        &&& r[0]->SendDatagram_1@ == handshake_bytes(HandshakeFrame::Bye)
        &&& r == leave_actions(seq![r[0]], m.stream_open, events)
    } else {
        r == leave_actions(seq![], m.stream_open, events)
    }
}

/// A manager with the session gone: no peer, no stream, no cipher, both
/// counters at zero.
pub open spec fn left(m: MessageManager) -> bool {
    m == MessageManager { peer_addr: None, stream_open: false, cipher: None, tx_nonce: 0, rx_nonce: 0 }
}

fn leave(manager: &mut MessageManager, state: &mut AppState) -> (r: Vec<ControlAction>)
    requires
        old(manager).wf(),
    ensures
        final(manager).wf(),
        left(*final(manager)),
        *final(state) == (AppState { status: Status::Disconnected, ..*old(state) }),
        leave_plan(*old(manager), *final(state), r@),
{
    let was_open = manager.is_connected();
    let (farewell, events) = manager.disconnect(state);
    let mut actions: Vec<ControlAction> = Vec::new();
    match farewell {
        Farewell::Stream(b) => actions.push(ControlAction::WriteStream(b)),
        Farewell::Datagram(a, b) => actions.push(ControlAction::SendDatagram(a, b)),
        Farewell::Nothing => {},
    }
    if was_open {
        actions.push(ControlAction::CloseStream);
    }
    let ghost mid = actions@;
    push_publish(&mut actions, events);
    assert(actions@ =~= mid + publish_all(seq![AppEvent::ClearChat, status_event(*state, None, None)]));
    proof {
        let events = seq![AppEvent::ClearChat, status_event(*state, None, None)];
        if old(manager).stream_open && old(manager).cipher is Some && old(manager).tx_nonce < u64::MAX {
            assert(mid =~= seq![actions@[0]] + seq![ControlAction::CloseStream]);
            assert(actions@ =~= leave_actions(seq![actions@[0]], true, events));
        } else if old(manager).peer_addr is Some {
            if old(manager).stream_open {
                assert(mid =~= seq![actions@[0]] + seq![ControlAction::CloseStream]);
            } else {
                assert(mid =~= seq![actions@[0]] + Seq::<ControlAction>::empty());
            }
            assert(actions@ =~= leave_actions(seq![actions@[0]], old(manager).stream_open, events));
        } else {
            assert(mid =~= Seq::<ControlAction>::empty() + Seq::<ControlAction>::empty());
            assert(actions@ =~= leave_actions(seq![], old(manager).stream_open, events));
        }
    }
    actions
}

/// Carries out a command from the UI.
///
/// `ConnectPeer` starts a handshake with the recorded peer, only while
/// disconnected (nothing otherwise, or without a peer). `SendMessage`
/// encrypts the line for the stream and echoes it to the UI; nothing
/// happens when no stream is up or the line is too long, and a spent send
/// counter ends the session. `Disconnect` leaves the session.
pub fn on_command(manager: &mut MessageManager, state: &mut AppState, cmd: Command) -> (r: Vec<ControlAction>)
    requires
        old(manager).wf(),
    ensures
        final(manager).wf(),
        final(manager).cipher is Some ==> final(manager).tx_nonce >= old(manager).tx_nonce
            && final(manager).rx_nonce >= old(manager).rx_nonce,
        match cmd {
            Command::ConnectPeer => {
                &&& *final(manager) == *old(manager)
                &&& *final(state) == *old(state)
                &&& r@ == match old(state).peer_ip {
                    Some(p) => if old(state).status == Status::Disconnected {
                        seq![ControlAction::StartHandshake(p)]
                    } else {
                        Seq::<ControlAction>::empty()
                    },
                    None => Seq::<ControlAction>::empty(),
                }
            },
            Command::SendMessage(text) => {
                &&& !(old(manager).stream_open && old(manager).cipher is Some && old(manager).tx_nonce == u64::MAX) ==> *final(state) == *old(state)
                &&& !old(manager).stream_open ==> r@.len() == 0 && *final(manager) == *old(manager)
                &&& old(manager).stream_open && old(manager).cipher is None ==> r@.len() == 0 && *final(manager) == *old(manager)
                &&& old(manager).stream_open && old(manager).cipher is Some && old(manager).tx_nonce == u64::MAX ==> {
                    &&& leave_plan(*old(manager), *final(state), r@)
                    &&& left(*final(manager))
                    &&& *final(state) == (AppState { status: Status::Disconnected, ..*old(state) })
                }
                &&& old(manager).stream_open && old(manager).cipher is Some && old(manager).tx_nonce < u64::MAX
                    && stream_bytes(StreamFrame::Text(text@)).len() > plaintext_limit(old(manager).cipher_model().unwrap().mode) ==> r@.len() == 0 && *final(manager) == *old(manager)
                &&& old(manager).stream_open && old(manager).cipher is Some && old(manager).tx_nonce < u64::MAX
                    && stream_bytes(StreamFrame::Text(text@)).len() <= plaintext_limit(old(manager).cipher_model().unwrap().mode) ==> {
                    &&& r@.len() == 2
                    &&& r@[0] matches ControlAction::WriteStream(b)
                    &&& r@[0]->WriteStream_0@ == seal(old(manager).cipher_model().unwrap(), old(manager).tx_nonce, stream_bytes(StreamFrame::Text(text@)))
                    &&& r@[1] == ControlAction::Publish(AppEvent::Message { content: text, from_me: true })
                    &&& final(manager).tx_nonce == old(manager).tx_nonce + 1
                }
            },
            Command::Disconnect => {
                &&& leave_plan(*old(manager), *final(state), r@)
                &&& left(*final(manager))
                &&& *final(state) == (AppState { status: Status::Disconnected, ..*old(state) })
                &&& old(state).status != Status::Disconnected ==> legal_transition(old(state).status, final(state).status)
            },
        },
{
    match cmd {
        Command::ConnectPeer => {
            let mut actions: Vec<ControlAction> = Vec::new();
            if let Some(p) = state.peer_ip {
                if state.status == Status::Disconnected {
                    actions.push(ControlAction::StartHandshake(p));
                }
            }
            proof {
                match old(state).peer_ip {
                    Some(p) => if old(state).status == Status::Disconnected {
                        assert(actions@ =~= seq![ControlAction::StartHandshake(p)]);
                    } else {
                        assert(actions@ =~= Seq::<ControlAction>::empty());
                    },
                    None => assert(actions@ =~= Seq::<ControlAction>::empty()),
                }
            }
            actions
        },
        Command::SendMessage(text) => {
            let mut actions: Vec<ControlAction> = Vec::new();
            if !manager.is_connected() {
                return actions;
            }
            if manager.cipher.is_some() && manager.tx_nonce == u64::MAX {
                return leave(manager, state);
            }
            match manager.send_text(text.clone()) {
                Ok(b) => {
                    actions.push(ControlAction::WriteStream(b));
                    actions.push(ControlAction::Publish(AppEvent::Message { content: text, from_me: true }));
                },
                Err(_) => {},
            }
            actions
        },
        Command::Disconnect => leave(manager, state),
    }
}

/// Handles a chunk read from the reliable stream.
///
/// A chat line is published; a `Bye` tears the session down without
/// answering; a chunk that does not decrypt at the receive counter, or that
/// comes once the counter is spent, ends the session as a disconnect does
/// (goodbye, stream closed, events); an empty plaintext or an undecodable
/// frame is dropped and the session goes on.
pub fn on_stream_data(manager: &mut MessageManager, state: &mut AppState, data: &[u8]) -> (r: Vec<ControlAction>)
    requires
        old(manager).wf(),
    ensures
        final(manager).wf(),
        final(manager).cipher is Some ==> final(manager).tx_nonce >= old(manager).tx_nonce
            && final(manager).rx_nonce >= old(manager).rx_nonce,
        !old(manager).stream_open ==> r@.len() == 0 && *final(manager) == *old(manager) && *final(state) == *old(state),
        forall|p: Seq<u8>|
            #![trigger seal(old(manager).cipher_model().unwrap(), old(manager).rx_nonce, p)]
            old(manager).stream_open && old(manager).cipher is Some && data@.len() > 0 && old(manager).rx_nonce < u64::MAX
                && p.len() <= plaintext_limit(old(manager).cipher_model().unwrap().mode) && data@ == seal(old(manager).cipher_model().unwrap(), old(manager).rx_nonce, p)
                && parse_stream(p) is Some && parse_stream(p)->Some_0 is Text ==> {
                &&& r@.len() == 1
                &&& r@[0] matches ControlAction::Publish(AppEvent::Message { content, from_me })
                &&& r@[0]->Publish_0->Message_content@ == parse_stream(p)->Some_0->Text_0
                &&& !r@[0]->Publish_0->Message_from_me
                &&& final(manager).rx_nonce == old(manager).rx_nonce + 1
                &&& *final(state) == *old(state)
            },
        forall|p: Seq<u8>|
            #![trigger seal(old(manager).cipher_model().unwrap(), old(manager).rx_nonce, p)]
            old(manager).stream_open && old(manager).cipher is Some && data@.len() > 0 && old(manager).rx_nonce < u64::MAX
                && p.len() <= plaintext_limit(old(manager).cipher_model().unwrap().mode) && data@ == seal(old(manager).cipher_model().unwrap(), old(manager).rx_nonce, p)
                && parse_stream(p) == Some(StreamFrame::Bye) ==> {
                &&& r@ == leave_actions(seq![], true, seq![AppEvent::ClearChat, status_event(*final(state), None, None)])
                &&& left(*final(manager))
                &&& *final(state) == (AppState { status: Status::Disconnected, ..*old(state) })
            },
        old(manager).stream_open && old(manager).cipher is Some && data@.len() > 0 && (old(manager).rx_nonce == u64::MAX
            || forall|p: Seq<u8>| data@ != seal(old(manager).cipher_model().unwrap(), old(manager).rx_nonce, p)) ==> {
            &&& leave_plan(*old(manager), *final(state), r@)
            &&& left(*final(manager))
            &&& *final(state) == (AppState { status: Status::Disconnected, ..*old(state) })
        },
{
    let mut actions: Vec<ControlAction> = Vec::new();
    match manager.receive_frame(data) {
        Ok(Some(StreamMessage::Text(content))) => {
            actions.push(ControlAction::Publish(AppEvent::Message { content, from_me: false }));
            actions
        },
        Ok(Some(StreamMessage::Bye)) => {
            let events = manager.disconnect_on_bye_received(state);
            actions.push(ControlAction::CloseStream);
            let ghost mid = actions@;
            push_publish(&mut actions, events);
            assert(actions@ =~= leave_actions(seq![], true, seq![AppEvent::ClearChat, status_event(*state, None, None)]));
            actions
        },
        Ok(None) => actions,
        Err(LinkError::DecryptionFailure) => leave(manager, state),
        Err(_) => actions,
    }
}

/// Whether the keep-alive tick queries STUN: only while disconnected.
pub fn keep_alive_due(state: &AppState) -> (r: bool)
    ensures
        r == (state.status == Status::Disconnected),
{
    state.status == Status::Disconnected
}

/// Takes the keep-alive's STUN answer: a new public address is recorded and
/// announced; the same address, or a failure, changes nothing.
pub fn on_public_ip(state: &mut AppState, result: Result<Address, LinkError>) -> (r: Option<AppEvent>)
    ensures
        match result {
            Ok(a) => if old(state).public_ip != Some(a) {
                &&& *final(state) == (AppState { public_ip: Some(a), ..*old(state) })
                &&& (r matches Some(ev) && announces(ev, *final(state), None))
            } else {
                r is None && *final(state) == *old(state)
            },
            Err(_) => r is None && *final(state) == *old(state),
        },
{
    match result {
        Ok(a) => {
            if state.public_ip != Some(a) {
                Some(state.set_public_ip(a, Some(String::from_str("Public IP updated")), None))
            } else {
                None
            }
        },
        Err(_) => None,
    }
}

} // verus!
