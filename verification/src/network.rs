//! The decisions of two-player sessions: who plays which port, and when a
//! controller change goes out to the peer.
use vstd::prelude::*;

verus! {

/// A message between the two sides of a session; `from` is the sender's
/// 32-byte node id.
#[derive(Debug, PartialEq, Eq)]
pub enum EmulatorMessage {
    ControllerState { player_num: u8, controller_bits: u8 },
    AboutMe { from: [u8; 32], name: String },
    Message { from: [u8; 32], text: String },
}

/// One side of a two-player session: host or guest, whether it can send,
/// the peer's last controller bits and the last bits sent.
pub struct MultiplayerState {
    is_host: bool,
    has_sender: bool,
    remote_controller_state: u8,
    last_sent_state: u8,
}

/// The session as the contracts see it: (host, can send, peer's bits,
/// last bits sent).
pub type SessionView = (bool, bool, u8, u8);

impl View for MultiplayerState {
    type V = SessionView;

    closed spec fn view(&self) -> SessionView {
        (self.is_host, self.has_sender, self.remote_controller_state, self.last_sent_state)
    }
}

impl MultiplayerState {
    /// A session side that cannot send yet and has seen and sent nothing.
    pub fn new(is_host: bool) -> (r: Self)
        ensures
            r@ == (is_host, false, 0u8, 0u8),
    {
        Self { is_host, has_sender: false, remote_controller_state: 0, last_sent_state: 0 }
    }

    /// The side can send from now on.
    pub fn set_sender(&mut self)
        ensures
            final(self)@ == (old(self)@.0, true, old(self)@.2, old(self)@.3),
    {
        self.has_sender = true;
    }

    /// The controller message to broadcast for bits `controller_bits`,
    /// the host playing 1 and the guest 2; none when the bits are those
    /// last sent or the side cannot send.
    pub fn send_controller_state(&self, controller_bits: u8) -> (r: Option<EmulatorMessage>)
        ensures
            r == if controller_bits != self@.3 && self@.1 {
                Some(
                    EmulatorMessage::ControllerState {
                        player_num: if self@.0 { 1u8 } else { 2u8 },
                        controller_bits,
                    },
                )
            } else {
                None
            },
    {
        if controller_bits != self.last_sent_state && self.has_sender {
            let player_num: u8 = if self.is_host {
                1
            } else {
                2
            };
            Some(EmulatorMessage::ControllerState { player_num, controller_bits })
        } else {
            None
        }
    }

    /// Records that bits `controller_bits` went out.
    pub fn mark_sent(&mut self, controller_bits: u8)
        ensures
            final(self)@ == (old(self)@.0, old(self)@.1, old(self)@.2, controller_bits),
    {
        self.last_sent_state = controller_bits;
    }

    /// Records the peer's controller bits.
    pub fn set_remote_state(&mut self, controller_bits: u8)
        ensures
            final(self)@ == (old(self)@.0, old(self)@.1, controller_bits, old(self)@.3),
    {
        self.remote_controller_state = controller_bits;
    }

    /// The peer's last controller bits.
    pub fn remote_state(&self) -> (r: u8)
        ensures
            r == self@.2,
    {
        self.remote_controller_state
    }
}

} // verus!
