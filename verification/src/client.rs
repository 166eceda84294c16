//! The home client's decisions: when to connect, when to give up, and what
//! to do with each signal on the control channel.
//!
//! The program performs each `ClientAction` (a connection attempt, a sleep,
//! reading a byte, starting a data channel) and reports what happened as a
//! `ClientEvent`; `ClientSession::step` decides what comes next.

use crate::protocol::{okok_bytes, is_okok, is_new_player_signal, SIG_NEW_PLAYER};
use vstd::prelude::*;

verus! {

/// Where the client stands in its reconnect loop.
#[derive(PartialEq, Eq, Structural, Clone, Copy, Debug)]
pub enum ClientPhase {
    /// About to start the next attempt.
    Idle,
    /// An attempt is under way: connect, send `HELO`, read the reply.
    Connecting,
    /// The control channel is up; signals are read from it.
    Connected,
    /// The attempts are exhausted; the client has stopped.
    Stopped,
}

/// What the program observed when it performed the last action.
pub enum ClientEvent {
    /// The program is at the top of its reconnect loop.
    Begin,
    /// Connecting, sending `HELO` or reading the reply failed.
    ConnectFailed,
    /// The four bytes the VPS sent back after `HELO`.
    Reply(Vec<u8>),
    /// Reading the next signal from the control channel failed.
    ControlLost,
    /// One byte read from the control channel.
    Signal(u8),
}

/// What the program is to do next.
#[derive(PartialEq, Eq, Structural, Clone, Copy, Debug)]
pub enum ClientAction {
    /// Make attempt number `attempt`: connect, send `HELO`, read four bytes.
    Connect { attempt: u32 },
    /// The attempts are exhausted: stop the client.
    GiveUp,
    /// The attempt failed: wait the reconnect delay, then begin again.
    RetryAfterDelay,
    /// The tunnel is up: mark it connected, then read a signal.
    Established,
    /// Read the next signal.
    AwaitSignal,
    /// A player waits: open a data channel in the background, then read
    /// the next signal.
    OpenDataChannel,
    /// The control channel is gone: mark the tunnel down, wait the
    /// reconnect delay, then begin again.
    ReconnectAfterDelay,
}

/// The client's reconnect state.
#[derive(Clone, Copy, Debug)]
pub struct ClientSession {
    /// Attempts made since the last successful handshake.
    pub attempt: u32,
    /// Attempts allowed in a row; 0 means unlimited.
    pub max_attempts: u32,
    pub phase: ClientPhase,
}

impl ClientSession {
    /// A client that has not tried yet.
    pub open spec fn fresh(max_attempts: u32) -> ClientSession {
        ClientSession { attempt: 0, max_attempts, phase: ClientPhase::Idle }
    }

    /// Whether a home client holds the control channel.
    pub open spec fn tunnel_up(self) -> bool {
        self.phase == ClientPhase::Connected
    }

    /// Whether `e` is what the last action can report in this phase. The
    /// attempt counter of the next attempt must fit in a `u32`.
    pub open spec fn accepts(self, e: ClientEvent) -> bool {
        match e {
            ClientEvent::Begin => self.phase == ClientPhase::Idle && self.attempt < u32::MAX,
            ClientEvent::ConnectFailed => self.phase == ClientPhase::Connecting,
            ClientEvent::Reply(_) => self.phase == ClientPhase::Connecting,
            ClientEvent::ControlLost => self.phase == ClientPhase::Connected,
            ClientEvent::Signal(_) => self.phase == ClientPhase::Connected,
        }
    }

    /// The next state and action after `e`.
    ///
    /// Each attempt is counted; once more than `max_attempts` (when it is
    /// not 0) were made in a row, the client gives up. A reply of `OKOK`
    /// brings the tunnel up and clears the count; any other reply, or a
    /// failure, leads to a retry after the delay. While connected, a
    /// new-player signal opens a data channel and unknown signals are
    /// skipped; losing the control channel leads to a reconnect.
    pub open spec fn next(self, e: ClientEvent) -> (ClientSession, ClientAction) {
        match e {
            ClientEvent::Begin => {
                let attempt = (self.attempt + 1) as u32;
                if self.max_attempts > 0 && attempt > self.max_attempts {
                    (
                        ClientSession { attempt, phase: ClientPhase::Stopped, ..self },
                        ClientAction::GiveUp,
                    )
                } else {
                    (
                        ClientSession { attempt, phase: ClientPhase::Connecting, ..self },
                        ClientAction::Connect { attempt },
                    )
                }
            },
            ClientEvent::ConnectFailed => (
                ClientSession { phase: ClientPhase::Idle, ..self },
                ClientAction::RetryAfterDelay,
            ),
            ClientEvent::Reply(reply) => {
                if reply@ == okok_bytes() {
                    (
                        ClientSession { attempt: 0, phase: ClientPhase::Connected, ..self },
                        ClientAction::Established,
                    )
                } else {
                    (
                        ClientSession { phase: ClientPhase::Idle, ..self },
                        ClientAction::RetryAfterDelay,
                    )
                }
            },
            ClientEvent::ControlLost => (
                ClientSession { phase: ClientPhase::Idle, ..self },
                ClientAction::ReconnectAfterDelay,
            ),
            ClientEvent::Signal(b) => {
                if b == SIG_NEW_PLAYER {
                    (self, ClientAction::OpenDataChannel)
                } else {
                    (self, ClientAction::AwaitSignal)
                }
            },
        }
    }

    /// A client with `max_attempts` allowed attempts in a row (0: unlimited)
    /// that has not tried yet.
    pub fn new(max_attempts: u32) -> (s: ClientSession)
        ensures
            s == ClientSession::fresh(max_attempts),
    {
        ClientSession { attempt: 0, max_attempts, phase: ClientPhase::Idle }
    }

    /// Whether a home client holds the control channel.
    pub fn is_tunnel_up(&self) -> (b: bool)
        ensures
            b == self.tunnel_up(),
    {
        self.phase == ClientPhase::Connected
    }

    /// Takes the outcome `e` of the last action and says what to do next.
    pub fn step(&mut self, e: ClientEvent) -> (a: ClientAction)
        requires
            old(self).accepts(e),
        ensures
            (*final(self), a) == old(self).next(e),
    {
        match e {
            ClientEvent::Begin => {
                let attempt = self.attempt + 1;
                self.attempt = attempt;
                if self.max_attempts > 0 && attempt > self.max_attempts {
                    self.phase = ClientPhase::Stopped;
                    ClientAction::GiveUp
                } else {
                    self.phase = ClientPhase::Connecting;
                    ClientAction::Connect { attempt }
                }
            },
            ClientEvent::ConnectFailed => {
                self.phase = ClientPhase::Idle;
                ClientAction::RetryAfterDelay
            },
            ClientEvent::Reply(reply) => {
                if is_okok(reply.as_slice()) {
                    self.attempt = 0;
                    self.phase = ClientPhase::Connected;
                    ClientAction::Established
                } else {
                    self.phase = ClientPhase::Idle;
                    ClientAction::RetryAfterDelay
                }
            },
            ClientEvent::ControlLost => {
                self.phase = ClientPhase::Idle;
                ClientAction::ReconnectAfterDelay
            },
            ClientEvent::Signal(b) => {
                if is_new_player_signal(b) {
                    ClientAction::OpenDataChannel
                } else {
                    ClientAction::AwaitSignal
                }
            },
        }
    }
}

impl ClientSession {
    /// What every reachable state keeps: a client with the tunnel up has no
    /// failed attempts counted, and with a limit the count never passes it
    /// except by the one attempt that made the client stop.
    pub open spec fn inv(self) -> bool {
        &&& self.phase == ClientPhase::Connected ==> self.attempt == 0
        &&& self.max_attempts > 0 ==> (self.attempt <= self.max_attempts || (self.phase
            == ClientPhase::Stopped && self.attempt == self.max_attempts + 1))
    }
}

/// A fresh client meets the invariant and every accepted event keeps it; a
/// stopped client accepts no event at all.
pub proof fn lemma_client_invariant(s: ClientSession, e: ClientEvent, max: u32)
    ensures
        ClientSession::fresh(max).inv(),
        s.inv() && s.accepts(e) ==> s.next(e).0.inv(),
        s.phase == ClientPhase::Stopped ==> !s.accepts(e),
{
}

/// The reply the VPS gives to the client's greeting brings the client's
/// tunnel up.
pub proof fn lemma_vps_reply_establishes(s: ClientSession, reply: Vec<u8>)
    requires
        s.phase == ClientPhase::Connecting,
        crate::protocol::control_reply_spec(crate::protocol::helo_bytes()) == Some(reply@),
    ensures
        s.accepts(ClientEvent::Reply(reply)),
        s.next(ClientEvent::Reply(reply)).1 == ClientAction::Established,
        s.next(ClientEvent::Reply(reply)).0.tunnel_up(),
{
}

/// The client after `k` attempts in a row that each failed to connect.
pub open spec fn after_failed_attempts(s: ClientSession, k: nat) -> ClientSession
    decreases k,
{
    if k == 0 {
        s
    } else {
        let s1 = after_failed_attempts(s, (k - 1) as nat);
        s1.next(ClientEvent::Begin).0.next(ClientEvent::ConnectFailed).0
    }
}

/// With a limit of `max` attempts, a fresh client makes exactly `max`
/// attempts when each fails: attempt `k + 1` is made after `k` failures
/// while `k < max`, and after `max` failures the client gives up. (With the
/// largest limit, `u32::MAX`, the counter cannot count the attempt after
/// the last one.)
pub proof fn lemma_gives_up_after_max_failures(max: u32, k: nat)
    requires
        0 < max < u32::MAX,
        k <= max,
    ensures
        after_failed_attempts(ClientSession::fresh(max), k).attempt == k,
        after_failed_attempts(ClientSession::fresh(max), k).max_attempts == max,
        after_failed_attempts(ClientSession::fresh(max), k).phase == ClientPhase::Idle,
        after_failed_attempts(ClientSession::fresh(max), k).accepts(ClientEvent::Begin),
        k < max ==> (after_failed_attempts(ClientSession::fresh(max), k).next(ClientEvent::Begin).1
            == (ClientAction::Connect { attempt: (k + 1) as u32 })),
        k == max ==> after_failed_attempts(ClientSession::fresh(max), k).next(ClientEvent::Begin).1
            == ClientAction::GiveUp,
    decreases k,
{
    if k > 0 {
        lemma_gives_up_after_max_failures(max, (k - 1) as nat);
    }
}

/// With no limit (0), a client never gives up, however many attempts it
/// has made.
pub proof fn lemma_unlimited_never_gives_up(s: ClientSession)
    requires
        s.max_attempts == 0,
        s.accepts(ClientEvent::Begin),
    ensures
        s.next(ClientEvent::Begin).1 == (ClientAction::Connect { attempt: (s.attempt + 1) as u32 }),
{
}

/// A successful handshake clears the attempt count: once that control
/// channel is lost, the client is as fresh as at the start, with the whole
/// allowance of attempts again.
pub proof fn lemma_success_restores_allowance(s: ClientSession, reply: Vec<u8>)
    requires
        s.accepts(ClientEvent::Reply(reply)),
        reply@ == okok_bytes(),
    ensures
        s.next(ClientEvent::Reply(reply)).1 == ClientAction::Established,
        s.next(ClientEvent::Reply(reply)).0.tunnel_up(),
        s.next(ClientEvent::Reply(reply)).0.next(ClientEvent::ControlLost).0
            == ClientSession::fresh(s.max_attempts),
{
}

/// The tunnel comes up only on an `OKOK` reply, announced by
/// `Established`, and goes down only when the control channel is lost,
/// announced by `ReconnectAfterDelay`.
pub proof fn lemma_tunnel_changes_are_announced(s: ClientSession, e: ClientEvent)
    requires
        s.accepts(e),
    ensures
        !s.tunnel_up() && s.next(e).0.tunnel_up() <==> s.next(e).1 == ClientAction::Established,
        s.tunnel_up() && !s.next(e).0.tunnel_up() <==> s.next(e).1
            == ClientAction::ReconnectAfterDelay,
        s.next(e).1 == ClientAction::Established ==> (e matches ClientEvent::Reply(r) && r@
            == okok_bytes()),
        s.next(e).1 == ClientAction::ReconnectAfterDelay ==> (e is ControlLost),
{
}

/// A data channel is opened only while the tunnel is up and only for the
/// new-player signal; any other signal leaves the client as it was.
pub proof fn lemma_data_channel_only_on_signal(s: ClientSession, e: ClientEvent)
    requires
        s.accepts(e),
    ensures
        s.next(e).1 == ClientAction::OpenDataChannel ==> s.tunnel_up() && e == ClientEvent::Signal(
            SIG_NEW_PLAYER,
        ),
        (e is Signal) ==> s.next(e).0 == s,
{
}

/// Whether `e` reports a failed attempt: the connection could not be made,
/// or the VPS answered something other than `OKOK`.
pub open spec fn is_failed_attempt(e: ClientEvent) -> bool {
    ||| e is ConnectFailed
    ||| (e matches ClientEvent::Reply(r) && r@ != okok_bytes())
}

/// A reply other than `OKOK` is one failed attempt like any other: the
/// client retries after the delay, from the top of its loop, and the
/// attempt is counted once (by the `Begin` that made it), not again.
pub proof fn lemma_wrong_reply_is_a_plain_failure(s: ClientSession, reply: Vec<u8>)
    requires
        s.accepts(ClientEvent::Reply(reply)),
        reply@ != okok_bytes(),
    ensures
        s.next(ClientEvent::Reply(reply)).1 == ClientAction::RetryAfterDelay,
        s.next(ClientEvent::Reply(reply)).0.phase == ClientPhase::Idle,
        s.next(ClientEvent::Reply(reply)).0.attempt == s.attempt,
        s.next(ClientEvent::Reply(reply)).0.max_attempts == s.max_attempts,
        !s.next(ClientEvent::Reply(reply)).0.tunnel_up(),
{
}

/// Every failed attempt, of either kind, leads to the same state: back at
/// the top of the loop with the count unchanged.
pub proof fn lemma_failures_agree(s: ClientSession, e: ClientEvent)
    requires
        s.accepts(e),
        is_failed_attempt(e),
    ensures
        s.next(e).0.phase == ClientPhase::Idle,
        s.next(e).0.attempt == s.attempt,
        s.next(e).0.max_attempts == s.max_attempts,
        s.next(e).1 == ClientAction::RetryAfterDelay,
{
}

/// The client after one attempt per event of `failures`, each attempt
/// started by `Begin` and ended by the event.
pub open spec fn after_attempts(s: ClientSession, failures: Seq<ClientEvent>) -> ClientSession
    decreases failures.len(),
{
    if failures.len() == 0 {
        s
    } else {
        let s1 = after_attempts(s, failures.drop_last());
        s1.next(ClientEvent::Begin).0.next(failures.last()).0
    }
}

/// With a limit of `max`, a fresh client whose attempts all fail, each by a
/// refused connection or by a wrong reply in any mix, makes exactly `max`
/// attempts: after `k < max` failures it makes attempt `k + 1`, and after
/// `max` failures it gives up. (With the largest limit, `u32::MAX`, the
/// counter cannot count the attempt after the last one.)
pub proof fn lemma_gives_up_after_max_failures_of_any_kind(max: u32, failures: Seq<ClientEvent>)
    requires
        0 < max < u32::MAX,
        failures.len() <= max,
        forall|i: int| 0 <= i < failures.len() ==> is_failed_attempt(#[trigger] failures[i]),
    ensures
        after_attempts(ClientSession::fresh(max), failures).attempt == failures.len(),
        after_attempts(ClientSession::fresh(max), failures).max_attempts == max,
        after_attempts(ClientSession::fresh(max), failures).phase == ClientPhase::Idle,
        after_attempts(ClientSession::fresh(max), failures).accepts(ClientEvent::Begin),
        failures.len() < max ==> (after_attempts(ClientSession::fresh(max), failures).next(
            ClientEvent::Begin,
        ).1 == (ClientAction::Connect { attempt: (failures.len() + 1) as u32 })),
        failures.len() == max ==> after_attempts(ClientSession::fresh(max), failures).next(
            ClientEvent::Begin,
        ).1 == ClientAction::GiveUp,
    decreases failures.len(),
{
    if failures.len() > 0 {
        let rest = failures.drop_last();
        assert forall|i: int| 0 <= i < rest.len() implies is_failed_attempt(#[trigger] rest[i]) by {
            assert(rest[i] == failures[i]);
        }
        lemma_gives_up_after_max_failures_of_any_kind(max, rest);
        assert(is_failed_attempt(failures[failures.len() - 1]));
    }
}

/// With no limit (0) the client never gives up and never stops, whatever
/// happens: no accepted event leads to `GiveUp`, and after any number of
/// failed attempts of any kind it makes the next one.
pub proof fn lemma_unlimited_never_stops(s: ClientSession, e: ClientEvent, failures: Seq<ClientEvent>)
    requires
        s.max_attempts == 0,
        s.accepts(e),
    ensures
        s.next(e).1 != ClientAction::GiveUp,
        s.next(e).0.phase != ClientPhase::Stopped,
        s.next(e).0.max_attempts == 0,
        failures.len() < u32::MAX && (forall|i: int|
            0 <= i < failures.len() ==> is_failed_attempt(#[trigger] failures[i])) ==> ({
            let t = after_attempts(ClientSession::fresh(0), failures);
            &&& t.attempt == failures.len()
            &&& t.phase == ClientPhase::Idle
            &&& t.next(ClientEvent::Begin).1 == (ClientAction::Connect {
                attempt: (failures.len() + 1) as u32,
            })
        }),
{
    if failures.len() < u32::MAX && (forall|i: int|
        0 <= i < failures.len() ==> is_failed_attempt(#[trigger] failures[i])) {
        lemma_unlimited_failures(failures);
    }
}

/// A client without a limit that failed `failures` times has counted each.
proof fn lemma_unlimited_failures(failures: Seq<ClientEvent>)
    requires
        failures.len() < u32::MAX,
        forall|i: int| 0 <= i < failures.len() ==> is_failed_attempt(#[trigger] failures[i]),
    ensures
        after_attempts(ClientSession::fresh(0), failures).attempt == failures.len(),
        after_attempts(ClientSession::fresh(0), failures).max_attempts == 0,
        after_attempts(ClientSession::fresh(0), failures).phase == ClientPhase::Idle,
    decreases failures.len(),
{
    if failures.len() > 0 {
        let rest = failures.drop_last();
        assert forall|i: int| 0 <= i < rest.len() implies is_failed_attempt(#[trigger] rest[i]) by {
            assert(rest[i] == failures[i]);
        }
        lemma_unlimited_failures(rest);
        assert(is_failed_attempt(failures[failures.len() - 1]));
    }
}

} // verus!
