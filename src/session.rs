//! The message manager: what the node knows of its one peer session.
//!
//! It holds the peer address, whether the reliable stream is up, the
//! session cipher and the two nonce counters. It frames and encrypts what
//! goes out and decrypts what comes in; the caller moves the bytes.
use vstd::prelude::*;

use crate::addr::Address;
use crate::crypto::{algorithm_name_of, seal, CipherAlgo, CipherModel, SessionData, plaintext_limit};
use crate::error::{link_error_text, LinkError};
use crate::state::{status_event, AppEvent, AppState, Status};
use crate::wire::{EncryptionMode, handshake_bytes, parse_stream, stream_bytes, HandshakeFrame, HandshakeMsg, StreamFrame, StreamMessage};

verus! {

/// The peer session of a node.
pub struct MessageManager {
    /// The peer, set once a handshake succeeded.
    pub peer_addr: Option<Address>,
    /// Whether the reliable stream to the peer is up.
    pub stream_open: bool,
    pub cipher: Option<CipherAlgo>,
    /// Counter of the next message sent.
    pub tx_nonce: u64,
    /// Counter of the next message expected.
    pub rx_nonce: u64,
}

/// What to send the peer when leaving a session.
pub enum Farewell {
    /// An encrypted `Bye` frame, over the reliable stream.
    Stream(Vec<u8>),
    /// A raw handshake `Bye`, as a datagram to this address.
    Datagram(Address, Vec<u8>),
    /// No peer to tell.
    Nothing,
}

/// The message announcing a new session: its fingerprint and algorithm.
pub open spec fn connected_message(fingerprint: Seq<char>, mode: EncryptionMode) -> Seq<char> {
    "Connected. Fingerprint: "@ + fingerprint + " ("@ + algorithm_name_of(mode) + ")"@
}

/// The message announcing a failed handshake.
pub open spec fn failure_message(e: LinkError) -> Seq<char> {
    "Connection failed: "@ + link_error_text(e)
}

impl MessageManager {
    /// The manager's invariant: a stream only to a known peer, and counters
    /// at zero while no cipher is installed.
    pub open spec fn wf(&self) -> bool {
        &&& self.stream_open ==> self.peer_addr is Some
        &&& self.cipher is None ==> self.tx_nonce == 0 && self.rx_nonce == 0
    }

    /// The cipher's model, when one is installed.
    pub open spec fn cipher_model(&self) -> Option<CipherModel> {
        match self.cipher {
            Some(c) => Some(c@),
            None => None,
        }
    }

    /// A manager with no session.
    pub fn new() -> (r: MessageManager)
        ensures
            r.wf(),
            r.peer_addr is None,
            !r.stream_open,
            r.cipher is None,
            r.tx_nonce == 0,
            r.rx_nonce == 0,
    {
        MessageManager { peer_addr: None, stream_open: false, cipher: None, tx_nonce: 0, rx_nonce: 0 }
    }

    /// Records how a handshake with `peer` ended. On success the session is
    /// installed with both counters at zero and the status goes to
    /// Connected; on failure the status goes back to Disconnected. Returns
    /// the outcome and the event announcing it.
    pub fn handshake(&mut self, state: &mut AppState, peer: Address, outcome: Result<SessionData, LinkError>) -> (r: (Result<(), LinkError>, AppEvent))
        requires
            old(self).wf(),
        ensures
            final(self).wf(),
            match outcome {
                Ok(s) => {
                    &&& r.0 is Ok
                    &&& final(self).peer_addr == Some(peer)
                    &&& final(self).cipher_model() == Some(s.cipher@)
                    &&& final(self).tx_nonce == 0
                    &&& final(self).rx_nonce == 0
                    &&& final(self).stream_open == old(self).stream_open
                    &&& *final(state) == (AppState { status: Status::Connected, ..*old(state) })
                    &&& r.1 matches AppEvent::Connected { message: Some(m) }
                    &&& r.1->Connected_message.unwrap()@ == connected_message(s.fingerprint@, s.cipher@.mode)
                },
                Err(e) => {
                    &&& r.0 == Err::<(), LinkError>(e)
                    &&& *final(self) == *old(self)
                    &&& *final(state) == (AppState { status: Status::Disconnected, ..*old(state) })
                    &&& r.1 matches AppEvent::Disconnected { state: st, message: Some(_) }
                    &&& r.1->Disconnected_state == *final(state)
                    &&& r.1->Disconnected_message.unwrap()@ == failure_message(e)
                },
            },
    {
        match outcome {
            Ok(session) => {
                let mut message = String::from_str("Connected. Fingerprint: ");
                message.append(session.fingerprint.as_str());
                message.append(" (");
                message.append(session.cipher.algorithm_name());
                message.append(")");
                self.peer_addr = Some(peer);
                self.cipher = Some(session.cipher);
                self.tx_nonce = 0;
                self.rx_nonce = 0;
                let ev = state.set_status(Status::Connected, Some(message), None);
                (Ok(()), ev)
            },
            Err(e) => {
                let mut message = String::from_str("Connection failed: ");
                message.append(e.message());
                let ev = state.set_status(Status::Disconnected, Some(message), None);
                (Err(e), ev)
            },
        }
    }

    /// Marks the reliable stream as up and returns the peer to mount it
    /// on; fails with `NotHandshaken` when no handshake succeeded.
    pub fn upgrade_to_kcp(&mut self) -> (r: Result<Address, LinkError>)
        requires
            old(self).wf(),
        ensures
            final(self).wf(),
            match old(self).peer_addr {
                Some(p) => r == Ok::<Address, LinkError>(p) && *final(self) == (MessageManager { stream_open: true, ..*old(self) }),
                None => r == Err::<Address, LinkError>(LinkError::NotHandshaken) && *final(self) == *old(self),
            },
    {
        match self.peer_addr {
            Some(p) => {
                self.stream_open = true;
                Ok(p)
            },
            None => Err(LinkError::NotHandshaken),
        }
    }

    /// Encrypts `payload` at the send counter and advances it. Fails with
    /// `NotConnected` without a stream, `NotInitialized` without a cipher,
    /// and `EncryptionFailure` when the counter is spent or the payload is
    /// too long; a failure changes nothing.
    pub fn send_message(&mut self, payload: &[u8]) -> (r: Result<Vec<u8>, LinkError>)
        requires
            old(self).wf(),
        ensures
            final(self).wf(),
            final(self).tx_nonce >= old(self).tx_nonce,
            final(self).rx_nonce == old(self).rx_nonce,
            !old(self).stream_open ==> r == Err::<Vec<u8>, LinkError>(LinkError::NotConnected),
            old(self).stream_open && old(self).cipher is None ==> r == Err::<Vec<u8>, LinkError>(LinkError::NotInitialized),
            old(self).stream_open && old(self).cipher is Some && old(self).tx_nonce < u64::MAX && payload@.len() <= plaintext_limit(old(self).cipher_model().unwrap().mode) ==> r is Ok,
            match r {
                Ok(c) => {
                    &&& old(self).tx_nonce < u64::MAX
                    &&& c@ == seal(old(self).cipher_model().unwrap(), old(self).tx_nonce, payload@)
                    &&& payload@.len() <= plaintext_limit(old(self).cipher_model().unwrap().mode)
                    &&& *final(self) == (MessageManager { tx_nonce: (old(self).tx_nonce + 1) as u64, ..*old(self) })
                },
                Err(e) => *final(self) == *old(self) && (old(self).stream_open && old(self).cipher is Some ==> e == LinkError::EncryptionFailure),
            },
    {
        if !self.stream_open {
            return Err(LinkError::NotConnected);
        }
        let n = self.tx_nonce;
        let sealed = match &self.cipher {
            None => {
                return Err(LinkError::NotInitialized);
            },
            Some(c) => {
                if n == u64::MAX {
                    return Err(LinkError::EncryptionFailure);
                }
                c.encrypt(n, payload)
            },
        };
        match sealed {
            Ok(c) => {
                self.tx_nonce = n + 1;
                Ok(c)
            },
            Err(e) => Err(e),
        }
    }

    /// Frames `text` as a `Text` stream frame and sends it as `send_message`
    /// does.
    pub fn send_text(&mut self, text: String) -> (r: Result<Vec<u8>, LinkError>)
        requires
            old(self).wf(),
        ensures
            final(self).wf(),
            final(self).tx_nonce >= old(self).tx_nonce,
            final(self).rx_nonce == old(self).rx_nonce,
            !old(self).stream_open ==> r == Err::<Vec<u8>, LinkError>(LinkError::NotConnected),
            old(self).stream_open && old(self).cipher is None ==> r == Err::<Vec<u8>, LinkError>(LinkError::NotInitialized),
            old(self).stream_open && old(self).cipher is Some && old(self).tx_nonce < u64::MAX
                && stream_bytes(StreamFrame::Text(text@)).len() <= plaintext_limit(old(self).cipher_model().unwrap().mode) ==> r is Ok,
            match r {
                Ok(c) => {
                    &&& c@ == seal(old(self).cipher_model().unwrap(), old(self).tx_nonce, stream_bytes(StreamFrame::Text(text@)))
                    &&& stream_bytes(StreamFrame::Text(text@)).len() <= plaintext_limit(old(self).cipher_model().unwrap().mode)
                    &&& *final(self) == (MessageManager { tx_nonce: (old(self).tx_nonce + 1) as u64, ..*old(self) })
                },
                Err(_) => *final(self) == *old(self),
            },
    {
        let frame = StreamMessage::Text(text);
        let bytes = frame.encode();
        self.send_message(bytes.as_slice())
    }

    /// Decrypts a chunk read from the stream at the receive counter and
    /// advances it. An empty chunk means the peer closed the stream and is
    /// returned as is. Fails with `NotConnected` without a stream,
    /// `NotInitialized` without a cipher, and `DecryptionFailure` (fatal to
    /// the session) on anything that is not the peer's next message.
    pub fn receive_message(&mut self, data: &[u8]) -> (r: Result<Vec<u8>, LinkError>)
        requires
            old(self).wf(),
        ensures
            final(self).wf(),
            final(self).tx_nonce == old(self).tx_nonce,
            final(self).rx_nonce >= old(self).rx_nonce,
            !old(self).stream_open ==> r == Err::<Vec<u8>, LinkError>(LinkError::NotConnected),
            old(self).stream_open && old(self).cipher is None ==> r == Err::<Vec<u8>, LinkError>(LinkError::NotInitialized),
            old(self).stream_open && old(self).cipher is Some && data@.len() == 0 ==> (r matches Ok(p) && p@.len() == 0 && *final(self) == *old(self)),
            old(self).stream_open && old(self).cipher is Some && data@.len() > 0 ==> match r {
                Ok(p) => {
                    &&& old(self).rx_nonce < u64::MAX
                    &&& data@ == seal(old(self).cipher_model().unwrap(), old(self).rx_nonce, p@)
                    &&& *final(self) == (MessageManager { rx_nonce: (old(self).rx_nonce + 1) as u64, ..*old(self) })
                },
                Err(e) => e == LinkError::DecryptionFailure && *final(self) == *old(self),
            },
            old(self).stream_open && old(self).cipher is Some && data@.len() > 0 && old(self).rx_nonce < u64::MAX ==> (
                forall|p: Seq<u8>| p.len() <= plaintext_limit(old(self).cipher_model().unwrap().mode) && data@ == seal(old(self).cipher_model().unwrap(), old(self).rx_nonce, p) ==> (r matches Ok(q) && q@ == p)),
            r is Err ==> *final(self) == *old(self),
    {
        if !self.stream_open {
            return Err(LinkError::NotConnected);
        }
        let n = self.rx_nonce;
        let opened = match &self.cipher {
            None => {
                return Err(LinkError::NotInitialized);
            },
            Some(c) => {
                if data.len() == 0 {
                    return Ok(Vec::new());
                }
                if n == u64::MAX {
                    return Err(LinkError::DecryptionFailure);
                }
                c.decrypt(n, data)
            },
        };
        match opened {
            Ok(p) => {
                self.rx_nonce = n + 1;
                Ok(p)
            },
            Err(e) => Err(e),
        }
    }

    /// Decrypts a chunk as `receive_message` does and decodes the stream
    /// frame inside; `Ok(None)` when the plaintext is empty or no frame (it
    /// is dropped and the session goes on).
    pub fn receive_frame(&mut self, data: &[u8]) -> (r: Result<Option<StreamMessage>, LinkError>)
        requires
            old(self).wf(),
        ensures
            final(self).wf(),
            final(self).tx_nonce == old(self).tx_nonce,
            final(self).rx_nonce >= old(self).rx_nonce,
            r is Err ==> *final(self) == *old(self),
            !old(self).stream_open ==> r == Err::<Option<StreamMessage>, LinkError>(LinkError::NotConnected),
            old(self).stream_open && old(self).cipher is None ==> r == Err::<Option<StreamMessage>, LinkError>(LinkError::NotInitialized),
            old(self).stream_open && old(self).cipher is Some && data@.len() > 0 && (forall|p: Seq<u8>| data@ != seal(old(self).cipher_model().unwrap(), old(self).rx_nonce, p))
                ==> r == Err::<Option<StreamMessage>, LinkError>(LinkError::DecryptionFailure),
            old(self).stream_open && old(self).cipher is Some && data@.len() > 0 && old(self).rx_nonce == u64::MAX
                ==> r == Err::<Option<StreamMessage>, LinkError>(LinkError::DecryptionFailure),
            r matches Ok(Some(m)) ==> (exists|p: Seq<u8>| data@ == seal(old(self).cipher_model().unwrap(), old(self).rx_nonce, p) && parse_stream(p) == Some(m@)),
            r is Ok ==> !(old(self).stream_open && old(self).cipher is Some && data@.len() > 0) || final(self).rx_nonce == old(self).rx_nonce + 1,
            forall|p: Seq<u8>|
                #![trigger seal(old(self).cipher_model().unwrap(), old(self).rx_nonce, p)]
                old(self).stream_open && old(self).cipher is Some && data@.len() > 0 && old(self).rx_nonce < u64::MAX
                    && p.len() <= plaintext_limit(old(self).cipher_model().unwrap().mode) && data@ == seal(old(self).cipher_model().unwrap(), old(self).rx_nonce, p)
                    ==> (r matches Ok(o) && match o {
                        Some(m) => parse_stream(p) == Some(m@),
                        None => p.len() == 0 || parse_stream(p) is None,
                    }),
    {
        let plain = match self.receive_message(data) {
            Ok(p) => p,
            Err(e) => {
                return Err(e);
            },
        };
        if plain.len() == 0 {
            return Ok(None);
        }
        Ok(StreamMessage::decode(plain.as_slice()))
    }

    /// Whether the reliable stream is up.
    pub fn is_connected(&self) -> (r: bool)
        ensures
            r == self.stream_open,
    {
        self.stream_open
    }

    /// Marks the stream as torn down; returns whether it was up (the caller
    /// then shuts it down). The shared socket is not touched.
    pub fn close_kcp(&mut self) -> (r: bool)
        requires
            old(self).wf(),
        ensures
            final(self).wf(),
            r == old(self).stream_open,
            *final(self) == (MessageManager { stream_open: false, ..*old(self) }),
    {
        let was = self.stream_open;
        self.stream_open = false;
        was
    }

    /// Leaves the session: says goodbye to the peer (over the stream when it
    /// is up, else as a raw datagram), then tears everything down, clears
    /// the chat and returns to Disconnected. Returns the goodbye to send
    /// and the events, in order.
    pub fn disconnect(&mut self, state: &mut AppState) -> (r: (Farewell, Vec<AppEvent>))
        requires
            old(self).wf(),
        ensures
            final(self).wf(),
            final(self).peer_addr is None,
            !final(self).stream_open,
            final(self).cipher is None,
            *final(state) == (AppState { status: Status::Disconnected, ..*old(state) }),
            r.1@ == seq![AppEvent::ClearChat, status_event(*final(state), None, None)],
            match r.0 {
                Farewell::Stream(b) => old(self).stream_open && old(self).cipher is Some && b@ == seal(old(self).cipher_model().unwrap(), old(self).tx_nonce, stream_bytes(StreamFrame::Bye)),
                Farewell::Datagram(a, b) => old(self).peer_addr == Some(a) && b@ == handshake_bytes(HandshakeFrame::Bye),
                Farewell::Nothing => old(self).peer_addr is None,
            },
            old(self).peer_addr is Some && !(old(self).stream_open && old(self).cipher is Some && old(self).tx_nonce < u64::MAX) ==> r.0 is Datagram,
            old(self).stream_open && old(self).cipher is Some && old(self).tx_nonce < u64::MAX ==> r.0 is Stream,
    {
        let mut farewell = Farewell::Nothing;
        let bye = StreamMessage::Bye;
        let bytes = bye.encode();
        match self.send_message(bytes.as_slice()) {
            Ok(c) => {
                farewell = Farewell::Stream(c);
            },
            Err(_) => {
                if let Some(p) = self.peer_addr {
                    farewell = Farewell::Datagram(p, HandshakeMsg::Bye.encode());
                }
            },
        }
        let events = self.disconnect_on_bye_received(state);
        (farewell, events)
    }

    /// Tears the session down after the peer said goodbye: no goodbye is
    /// sent back.
    pub fn disconnect_on_bye_received(&mut self, state: &mut AppState) -> (r: Vec<AppEvent>)
        requires
            old(self).wf(),
        ensures
            final(self).wf(),
            *final(self) == (MessageManager { peer_addr: None, stream_open: false, cipher: None, tx_nonce: 0, rx_nonce: 0 }),
            *final(state) == (AppState { status: Status::Disconnected, ..*old(state) }),
            r@ == seq![AppEvent::ClearChat, status_event(*final(state), None, None)],
    {
        self.stream_open = false;
        self.cipher = None;
        self.tx_nonce = 0;
        self.rx_nonce = 0;
        self.peer_addr = None;
        let mut events: Vec<AppEvent> = Vec::new();
        events.push(state.clear_chat());
        events.push(state.set_status(Status::Disconnected, None, None));
        events
    }
}

} // verus!
