//! The VPS's decisions: accepting the home client's control channel, and
//! pairing each player with a data channel that the client opens for it.
//!
//! The program performs each `VpsAction` (accepting on a listener, reading
//! or writing a socket, starting a bridge) and reports what happened as a
//! `VpsEvent`; `VpsSession::step` decides what comes next. The first action
//! of a fresh session is `AcceptControl`.

use crate::protocol::{helo_bytes, is_helo, DATA_HANDSHAKE};
use vstd::prelude::*;

verus! {

/// Where the VPS stands; each phase awaits the outcome of one action.
#[derive(PartialEq, Eq, Structural, Clone, Copy, Debug)]
pub enum VpsPhase {
    /// Waiting for a home client on the tunnel port.
    AcceptingControl,
    /// Reading the four-byte greeting of a new control connection.
    ReadingHello,
    /// Writing `OKOK` to a client that greeted with `HELO`.
    SendingOkok,
    /// Waiting for a player on the game port.
    AcceptingPlayer,
    /// Writing the new-player signal on the control channel.
    SignallingClient,
    /// Waiting for the client's data connection on the tunnel port.
    AcceptingData,
    /// Reading the first byte of the data connection.
    ReadingDataHandshake,
    /// Writing `DATA_ACK` on the data connection.
    SendingAck,
}

/// What the program observed when it performed the last action.
pub enum VpsEvent {
    ControlAccepted,
    ControlAcceptFailed,
    /// The four bytes a new control connection sent first.
    HelloRead(Vec<u8>),
    HelloFailed,
    OkokSent,
    OkokFailed,
    PlayerAccepted,
    PlayerAcceptFailed,
    SignalSent,
    SignalFailed,
    DataAccepted,
    DataAcceptFailed,
    /// The first byte of the data connection.
    DataByte(u8),
    DataReadFailed,
    AckSent,
    AckFailed,
}

/// What the program is to do next.
#[derive(PartialEq, Eq, Structural, Clone, Copy, Debug)]
pub enum VpsAction {
    /// Mark the tunnel down, drop any control connection, and accept a new
    /// one on the tunnel port.
    AcceptControl,
    /// Accepting failed: mark the tunnel down, pause a second, then accept
    /// again.
    AcceptControlAfterPause,
    /// Read four bytes from the new control connection.
    ReadHello,
    /// Write `OKOK` on the control connection.
    SendOkok,
    /// Mark the tunnel up, drop any pending player and data connection,
    /// and accept a player on the game port.
    AcceptPlayer,
    /// Write the new-player signal on the control channel.
    SignalNewPlayer,
    /// Accept the client's data connection on the tunnel port.
    AcceptData,
    /// Read one byte from the data connection.
    ReadDataHandshake,
    /// Write `DATA_ACK` on the data connection.
    SendAck,
    /// Start bridging the player with the data connection in the
    /// background, then accept the next player.
    StartBridge,
}

/// The VPS's state.
#[derive(Clone, Copy, Debug)]
pub struct VpsSession {
    pub phase: VpsPhase,
}

impl VpsSession {
    /// A VPS that waits for its first client.
    pub open spec fn fresh() -> VpsSession {
        VpsSession { phase: VpsPhase::AcceptingControl }
    }

    /// Whether a home client holds the control channel: from the moment
    /// `OKOK` was written until the channel fails.
    pub open spec fn tunnel_up(self) -> bool {
        match self.phase {
            VpsPhase::AcceptingControl => false,
            VpsPhase::ReadingHello => false,
            VpsPhase::SendingOkok => false,
            _ => true,
        }
    }

    /// The phase in which `e` is the outcome of the awaited action.
    pub open spec fn phase_of(e: VpsEvent) -> VpsPhase {
        match e {
            VpsEvent::ControlAccepted => VpsPhase::AcceptingControl,
            VpsEvent::ControlAcceptFailed => VpsPhase::AcceptingControl,
            VpsEvent::HelloRead(_) => VpsPhase::ReadingHello,
            VpsEvent::HelloFailed => VpsPhase::ReadingHello,
            VpsEvent::OkokSent => VpsPhase::SendingOkok,
            VpsEvent::OkokFailed => VpsPhase::SendingOkok,
            VpsEvent::PlayerAccepted => VpsPhase::AcceptingPlayer,
            VpsEvent::PlayerAcceptFailed => VpsPhase::AcceptingPlayer,
            VpsEvent::SignalSent => VpsPhase::SignallingClient,
            VpsEvent::SignalFailed => VpsPhase::SignallingClient,
            VpsEvent::DataAccepted => VpsPhase::AcceptingData,
            VpsEvent::DataAcceptFailed => VpsPhase::AcceptingData,
            VpsEvent::DataByte(_) => VpsPhase::ReadingDataHandshake,
            VpsEvent::DataReadFailed => VpsPhase::ReadingDataHandshake,
            VpsEvent::AckSent => VpsPhase::SendingAck,
            VpsEvent::AckFailed => VpsPhase::SendingAck,
        }
    }

    /// Whether `e` is what the last action can report in this phase.
    pub open spec fn accepts(self, e: VpsEvent) -> bool {
        self.phase == Self::phase_of(e)
    }

    /// The next state and action after `e`.
    ///
    /// A control connection is kept only when it greets with `HELO` and
    /// `OKOK` reaches it; any failure there returns to accepting (after a
    /// pause when accepting itself failed). While the tunnel is up, each
    /// player is announced on the control channel; when that write fails
    /// the client is gone and the VPS waits for a new one. The player is
    /// bridged only with a data connection whose first byte is
    /// `DATA_HANDSHAKE` and that received `DATA_ACK`; any failure on the
    /// way drops the player and waits for the next one.
    pub open spec fn next(self, e: VpsEvent) -> (VpsSession, VpsAction) {
        let (phase, action) = match e {
            VpsEvent::ControlAccepted => (VpsPhase::ReadingHello, VpsAction::ReadHello),
            VpsEvent::ControlAcceptFailed => (
                VpsPhase::AcceptingControl,
                VpsAction::AcceptControlAfterPause,
            ),
            VpsEvent::HelloRead(greeting) => if greeting@ == helo_bytes() {
                (VpsPhase::SendingOkok, VpsAction::SendOkok)
            } else {
                (VpsPhase::AcceptingControl, VpsAction::AcceptControl)
            },
            VpsEvent::HelloFailed => (VpsPhase::AcceptingControl, VpsAction::AcceptControl),
            VpsEvent::OkokSent => (VpsPhase::AcceptingPlayer, VpsAction::AcceptPlayer),
            VpsEvent::OkokFailed => (VpsPhase::AcceptingControl, VpsAction::AcceptControl),
            VpsEvent::PlayerAccepted => (VpsPhase::SignallingClient, VpsAction::SignalNewPlayer),
            VpsEvent::PlayerAcceptFailed => (VpsPhase::AcceptingPlayer, VpsAction::AcceptPlayer),
            VpsEvent::SignalSent => (VpsPhase::AcceptingData, VpsAction::AcceptData),
            VpsEvent::SignalFailed => (VpsPhase::AcceptingControl, VpsAction::AcceptControl),
            VpsEvent::DataAccepted => (
                VpsPhase::ReadingDataHandshake,
                VpsAction::ReadDataHandshake,
            ),
            VpsEvent::DataAcceptFailed => (VpsPhase::AcceptingPlayer, VpsAction::AcceptPlayer),
            VpsEvent::DataByte(b) => if b == DATA_HANDSHAKE {
                (VpsPhase::SendingAck, VpsAction::SendAck)
            } else {
                (VpsPhase::AcceptingPlayer, VpsAction::AcceptPlayer)
            },
            VpsEvent::DataReadFailed => (VpsPhase::AcceptingPlayer, VpsAction::AcceptPlayer),
            VpsEvent::AckSent => (VpsPhase::AcceptingPlayer, VpsAction::StartBridge),
            VpsEvent::AckFailed => (VpsPhase::AcceptingPlayer, VpsAction::AcceptPlayer),
        };
        (VpsSession { phase }, action)
    }

    /// A VPS that waits for its first client.
    pub fn new() -> (s: VpsSession)
        ensures
            s == VpsSession::fresh(),
    {
        VpsSession { phase: VpsPhase::AcceptingControl }
    }

    /// Whether a home client holds the control channel.
    pub fn is_tunnel_up(&self) -> (b: bool)
        ensures
            b == self.tunnel_up(),
    {
        match self.phase {
            VpsPhase::AcceptingControl => false,
            VpsPhase::ReadingHello => false,
            VpsPhase::SendingOkok => false,
            _ => true,
        }
    }

    /// Takes the outcome `e` of the last action and says what to do next.
    pub fn step(&mut self, e: VpsEvent) -> (a: VpsAction)
        requires
            old(self).accepts(e),
        ensures
            (*final(self), a) == old(self).next(e),
    {
        let (phase, action) = match e {
            VpsEvent::ControlAccepted => (VpsPhase::ReadingHello, VpsAction::ReadHello),
            VpsEvent::ControlAcceptFailed => (
                VpsPhase::AcceptingControl,
                VpsAction::AcceptControlAfterPause,
            ),
            VpsEvent::HelloRead(greeting) => if is_helo(greeting.as_slice()) {
                (VpsPhase::SendingOkok, VpsAction::SendOkok)
            } else {
                (VpsPhase::AcceptingControl, VpsAction::AcceptControl)
            },
            VpsEvent::HelloFailed => (VpsPhase::AcceptingControl, VpsAction::AcceptControl),
            VpsEvent::OkokSent => (VpsPhase::AcceptingPlayer, VpsAction::AcceptPlayer),
            VpsEvent::OkokFailed => (VpsPhase::AcceptingControl, VpsAction::AcceptControl),
            VpsEvent::PlayerAccepted => (VpsPhase::SignallingClient, VpsAction::SignalNewPlayer),
            VpsEvent::PlayerAcceptFailed => (VpsPhase::AcceptingPlayer, VpsAction::AcceptPlayer),
            VpsEvent::SignalSent => (VpsPhase::AcceptingData, VpsAction::AcceptData),
            VpsEvent::SignalFailed => (VpsPhase::AcceptingControl, VpsAction::AcceptControl),
            VpsEvent::DataAccepted => (
                VpsPhase::ReadingDataHandshake,
                VpsAction::ReadDataHandshake,
            ),
            VpsEvent::DataAcceptFailed => (VpsPhase::AcceptingPlayer, VpsAction::AcceptPlayer),
            VpsEvent::DataByte(b) => if b == DATA_HANDSHAKE {
                (VpsPhase::SendingAck, VpsAction::SendAck)
            } else {
                (VpsPhase::AcceptingPlayer, VpsAction::AcceptPlayer)
            },
            VpsEvent::DataReadFailed => (VpsPhase::AcceptingPlayer, VpsAction::AcceptPlayer),
            VpsEvent::AckSent => (VpsPhase::AcceptingPlayer, VpsAction::StartBridge),
            VpsEvent::AckFailed => (VpsPhase::AcceptingPlayer, VpsAction::AcceptPlayer),
        };
        self.phase = phase;
        action
    }
}

/// The tunnel comes up only when `OKOK` was written to a client, and the
/// VPS writes `OKOK` only to a client that greeted with `HELO`.
pub proof fn lemma_tunnel_up_only_after_handshake(s: VpsSession, e: VpsEvent)
    requires
        s.accepts(e),
    ensures
        !s.tunnel_up() && s.next(e).0.tunnel_up() ==> s.phase == VpsPhase::SendingOkok && (
        e is OkokSent),
        s.next(e).1 == VpsAction::SendOkok ==> (e matches VpsEvent::HelloRead(g) && g@
            == helo_bytes()),
{
}

/// Once up, the tunnel goes down only when the new-player signal cannot be
/// written; a failing player or data connection never drops the client.
pub proof fn lemma_only_signal_failure_drops_tunnel(s: VpsSession, e: VpsEvent)
    requires
        s.accepts(e),
    ensures
        s.tunnel_up() && !s.next(e).0.tunnel_up() <==> (e is SignalFailed),
{
}

/// A player is bridged only with a data connection that opened with
/// `DATA_HANDSHAKE` and received `DATA_ACK`, and only while the tunnel is
/// up; after the bridge starts the VPS accepts the next player.
pub proof fn lemma_bridge_only_after_data_handshake(s: VpsSession, e: VpsEvent)
    requires
        s.accepts(e),
    ensures
        s.next(e).1 == VpsAction::StartBridge ==> s.phase == VpsPhase::SendingAck && (
        e is AckSent) && s.tunnel_up(),
        s.next(e).0.phase == VpsPhase::SendingAck ==> e == VpsEvent::DataByte(DATA_HANDSHAKE),
        s.next(e).1 == VpsAction::StartBridge ==> s.next(e).0.phase == VpsPhase::AcceptingPlayer,
{
}

/// Every action names the phase that awaits its outcome, so the program can
/// always report an event that the session accepts.
pub proof fn lemma_actions_match_phases(s: VpsSession, e: VpsEvent)
    requires
        s.accepts(e),
    ensures
        ({
            let (n, a) = s.next(e);
            &&& (a == VpsAction::AcceptControl || a == VpsAction::AcceptControlAfterPause)
                <==> n.phase == VpsPhase::AcceptingControl
            &&& a == VpsAction::ReadHello <==> n.phase == VpsPhase::ReadingHello
            &&& a == VpsAction::SendOkok <==> n.phase == VpsPhase::SendingOkok
            &&& (a == VpsAction::AcceptPlayer || a == VpsAction::StartBridge) <==> n.phase
                == VpsPhase::AcceptingPlayer
            &&& a == VpsAction::SignalNewPlayer <==> n.phase == VpsPhase::SignallingClient
            &&& a == VpsAction::AcceptData <==> n.phase == VpsPhase::AcceptingData
            &&& a == VpsAction::ReadDataHandshake <==> n.phase == VpsPhase::ReadingDataHandshake
            &&& a == VpsAction::SendAck <==> n.phase == VpsPhase::SendingAck
        }),
{
}

} // verus!
