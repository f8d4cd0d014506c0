//! Keeping a connection alive, and noticing when it is not.
//!
//! The service announces an interval. The first heartbeat goes out after a
//! random part of that interval, so that many shards do not beat in step, and
//! every further one a whole interval after the one before. Each heartbeat
//! has to be acknowledged before the next one is due. If it was not, the
//! connection is a zombie: open to all appearance, and dead.

use vstd::prelude::*;

verus! {

/// What to do when a heartbeat is due.
#[derive(Clone, Copy, Debug, PartialEq, Eq, Structural, Hash)]
pub enum Beat {
    /// Send a heartbeat.
    Send,
    /// The last heartbeat was never acknowledged: the connection is lost.
    Zombied,
    /// Nothing: the connection has been declared lost before.
    Stopped,
}

/// Something that happens to a heartbeat manager.
#[derive(Clone, Copy, Debug, PartialEq, Eq, Structural, Hash)]
pub enum Pulse {
    /// The timer for the next heartbeat fired, at this time.
    Due(u64),
    /// The service asked for a heartbeat, at this time.
    Asked(u64),
    /// The service acknowledged a heartbeat.
    Ack,
}

/// The sum of two times, or the greatest time there is where the sum would
/// be beyond it.
pub open spec fn time_after(at: u64, ms: u64) -> u64 {
    if at + ms > u64::MAX {
        u64::MAX
    } else {
        (at + ms) as u64
    }
}

/// The state of a heartbeat manager. Times are in milliseconds.
#[derive(Clone, Copy, Debug, PartialEq, Eq, Structural, Hash)]
pub struct HeartbeatState {
    /// The time between two heartbeats, as the service announced it.
    pub interval: u64,
    /// By how much the first heartbeat was put off.
    pub jitter: u64,
    /// When the next heartbeat is due.
    pub next_due: u64,
    /// When the last heartbeat was sent.
    pub last_sent: Option<u64>,
    /// Whether a heartbeat was sent that has not been acknowledged.
    pub ack_pending: bool,
    /// Whether the connection has been declared lost.
    pub zombied: bool,
}

impl HeartbeatState {
    /// The delay of the first heartbeat: the part of the interval that
    /// `entropy`, a random number, picks. It is shorter than the interval.
    pub open spec fn first_delay(interval: u64, entropy: u64) -> u64 {
        if interval == 0 {
            0
        } else {
            entropy % interval
        }
    }

    /// The state of a manager that starts at the time `now`.
    pub open spec fn started(interval: u64, entropy: u64, now: u64) -> HeartbeatState {
        HeartbeatState {
            interval,
            jitter: Self::first_delay(interval, entropy),
            next_due: time_after(now, Self::first_delay(interval, entropy)),
            last_sent: None,
            ack_pending: false,
            zombied: false,
        }
    }

    /// The state after the heartbeat timer fired at the time `now`, and what
    /// is to be done.
    pub open spec fn fired(self, now: u64) -> (HeartbeatState, Beat) {
        if self.zombied {
            (self, Beat::Stopped)
        } else if self.ack_pending {
            (HeartbeatState { zombied: true, ..self }, Beat::Zombied)
        } else {
            (
                HeartbeatState {
                    last_sent: Some(now),
                    ack_pending: true,
                    next_due: time_after(self.next_due, self.interval),
                    ..self
                },
                Beat::Send,
            )
        }
    }

    /// The state after a heartbeat was sent at the time `now` because the
    /// service asked for one: it is pending like any other, and the
    /// schedule stays as it is.
    pub open spec fn asked(self, now: u64) -> HeartbeatState {
        if self.zombied {
            self
        } else {
            HeartbeatState { last_sent: Some(now), ack_pending: true, ..self }
        }
    }

    /// The state after an acknowledgement arrived.
    pub open spec fn acked(self) -> HeartbeatState {
        HeartbeatState { ack_pending: false, ..self }
    }

    /// The state after `pulse`.
    pub open spec fn after(self, pulse: Pulse) -> HeartbeatState {
        match pulse {
            Pulse::Due(now) => self.fired(now).0,
            Pulse::Asked(now) => self.asked(now),
            Pulse::Ack => self.acked(),
        }
    }

    /// Whether `pulse` makes the manager declare the connection lost.
    pub open spec fn declares_lost(self, pulse: Pulse) -> bool {
        pulse matches Pulse::Due(now) && self.fired(now).1 == Beat::Zombied
    }
}

/// How often a manager in the state `state` declares the connection lost
/// while `pulses` happen to it, first to last.
pub open spec fn times_lost(state: HeartbeatState, pulses: Seq<Pulse>) -> nat
    decreases pulses.len(),
{
    if pulses.len() == 0 {
        0
    } else {
        let here: nat = if state.declares_lost(pulses[0]) {
            1
        } else {
            0
        };
        here + times_lost(state.after(pulses[0]), pulses.drop_first())
    }
}

/// A manager that has declared the connection lost never does so again.
pub proof fn lemma_lost_stays_lost(state: HeartbeatState, pulses: Seq<Pulse>)
    requires
        state.zombied,
    ensures
        times_lost(state, pulses) == 0,
    decreases pulses.len(),
{
    if pulses.len() > 0 {
        lemma_lost_stays_lost(state.after(pulses[0]), pulses.drop_first());
    }
}

/// Whatever happens to a manager and in whatever order, it declares the
/// connection lost at most once.
pub proof fn lemma_lost_at_most_once(state: HeartbeatState, pulses: Seq<Pulse>)
    ensures
        times_lost(state, pulses) <= 1,
    decreases pulses.len(),
{
    if pulses.len() > 0 {
        if state.declares_lost(pulses[0]) {
            lemma_lost_stays_lost(state.after(pulses[0]), pulses.drop_first());
        } else {
            lemma_lost_at_most_once(state.after(pulses[0]), pulses.drop_first());
        }
    }
}

/// A heartbeat that is not acknowledged before the next one is due costs the
/// connection: of two timer fires with no acknowledgement between them, the
/// second finds the connection lost, unless the first one did.
pub proof fn lemma_missed_ack_is_noticed(state: HeartbeatState, first: u64, second: u64)
    requires
        !state.zombied,
    ensures
        state.fired(first).1 == Beat::Send ==> state.fired(first).0.fired(second).1
            == Beat::Zombied,
        state.fired(first).1 != Beat::Send ==> state.fired(first).1 == Beat::Zombied
            && state.fired(first).0.fired(second).1 == Beat::Stopped,
{
}

/// The heartbeat manager of one connection.
pub struct Heartbeat {
    state: HeartbeatState,
}

impl View for Heartbeat {
    type V = HeartbeatState;

    closed spec fn view(&self) -> HeartbeatState {
        self.state
    }
}

impl Heartbeat {
    /// A manager for a connection on which the service announced the
    /// interval `interval_ms`. `entropy` is a random number: it picks the
    /// part of the interval by which the first heartbeat is put off.
    pub fn start(interval_ms: u64, entropy: u64, now: u64) -> (heartbeat: Self)
        ensures
            heartbeat@ == HeartbeatState::started(interval_ms, entropy, now),
    {
        let jitter: u64 = if interval_ms == 0 {
            0
        } else {
            entropy % interval_ms
        };
        Heartbeat {
            state: HeartbeatState {
                interval: interval_ms,
                jitter,
                next_due: now.saturating_add(jitter),
                last_sent: None,
                ack_pending: false,
                zombied: false,
            },
        }
    }

    /// The heartbeat timer fired, at the time `now`.
    ///
    /// If the heartbeat before this one was acknowledged, or this is the
    /// first, the answer is to send one; it is then pending, and the next is
    /// due one interval after this one was. If the one before is still
    /// pending, the connection is declared lost, once: every later fire is
    /// answered with [`Beat::Stopped`].
    pub fn on_due(&mut self, now: u64) -> (beat: Beat)
        ensures
            final(self)@ == old(self)@.fired(now).0,
            beat == old(self)@.fired(now).1,
    {
        let held = self.state;
        if held.zombied {
            Beat::Stopped
        } else if held.ack_pending {
            self.state = HeartbeatState { zombied: true, ..held };
            Beat::Zombied
        } else {
            self.state = HeartbeatState {
                last_sent: Some(now),
                ack_pending: true,
                next_due: held.next_due.saturating_add(held.interval),
                ..held
            };
            Beat::Send
        }
    }

    /// The service asked for a heartbeat, and it goes out at the time `now`:
    /// it is pending until it is acknowledged. The next scheduled heartbeat
    /// is due when it was.
    pub fn on_request(&mut self, now: u64)
        ensures
            final(self)@ == old(self)@.asked(now),
    {
        let held = self.state;
        if !held.zombied {
            self.state = HeartbeatState { last_sent: Some(now), ack_pending: true, ..held };
        }
    }

    /// The service acknowledged a heartbeat: none is pending any more.
    pub fn on_ack(&mut self)
        ensures
            final(self)@ == old(self)@.acked(),
    {
        let held = self.state;
        self.state = HeartbeatState { ack_pending: false, ..held };
    }

    /// The time between two heartbeats.
    pub fn interval(&self) -> (ms: u64)
        ensures
            ms == self@.interval,
    {
        self.state.interval
    }

    /// By how much the first heartbeat was put off.
    pub fn jitter(&self) -> (ms: u64)
        ensures
            ms == self@.jitter,
    {
        self.state.jitter
    }

    /// When the next heartbeat is due.
    pub fn next_due(&self) -> (at: u64)
        ensures
            at == self@.next_due,
    {
        self.state.next_due
    }

    /// When the last heartbeat was sent.
    pub fn last_sent(&self) -> (at: Option<u64>)
        ensures
            at == self@.last_sent,
    {
        self.state.last_sent
    }

    /// Whether a heartbeat was sent that has not been acknowledged.
    pub fn ack_pending(&self) -> (pending: bool)
        ensures
            pending == self@.ack_pending,
    {
        self.state.ack_pending
    }

    /// Whether the connection has been declared lost.
    pub fn is_zombied(&self) -> (zombied: bool)
        ensures
            zombied == self@.zombied,
    {
        self.state.zombied
    }
}

} // verus!
