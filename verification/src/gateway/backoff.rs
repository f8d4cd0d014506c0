//! How long to wait before the next attempt to connect.
//!
//! The wait doubles with every failure in a row, from a floor up to a
//! ceiling, and a connection that succeeds brings it back to the floor. A
//! shard whose connections succeed and then fail at once would so never wait
//! long: failures are counted over a short window as well, and more than a
//! limit of them within it raise the wait to the ceiling whatever the
//! doubling has come to. Every wait is randomised between half of its
//! nominal length and the whole.

use vstd::prelude::*;

verus! {

/// The state of the backoff of one shard. Times are in milliseconds.
#[derive(Clone, Copy, Debug, PartialEq, Eq, Structural, Hash)]
pub struct BackoffState {
    /// The nominal wait after the first failure.
    pub floor: u64,
    /// The longest nominal wait.
    pub ceiling: u64,
    /// The nominal wait after the next failure, as the doubling has it.
    pub current: u64,
    /// How many failures within one window are taken in stride.
    pub burst_limit: u64,
    /// The length of the window over which failures are counted.
    pub burst_window: u64,
    /// When the window began in which failures are being counted.
    pub window_start: u64,
    /// The failures counted in that window.
    pub failures: u64,
}

impl BackoffState {
    /// Whether the state is one a backoff can be in.
    pub open spec fn wf(self) -> bool {
        0 < self.floor <= self.current <= self.ceiling
    }

    /// The state before any failure.
    pub open spec fn initial(floor: u64, ceiling: u64, burst_limit: u64, burst_window: u64)
        -> BackoffState {
        BackoffState {
            floor,
            ceiling,
            current: floor,
            burst_limit,
            burst_window,
            window_start: 0,
            failures: 0,
        }
    }

    /// Whether a failure at the time `now` begins a new window of counting.
    pub open spec fn opens_window(self, now: u64) -> bool {
        self.failures == 0 || now < self.window_start || now - self.window_start
            >= self.burst_window
    }

    /// The failures counted in the window of a failure at the time `now`,
    /// that failure included.
    pub open spec fn failures_with(self, now: u64) -> u64 {
        if self.opens_window(now) {
            1
        } else if self.failures == u64::MAX {
            u64::MAX
        } else {
            (self.failures + 1) as u64
        }
    }

    /// The nominal wait after a failure at the time `now`.
    pub open spec fn nominal(self, now: u64) -> u64 {
        if self.failures_with(now) > self.burst_limit {
            self.ceiling
        } else {
            self.current
        }
    }

    /// A nominal wait, randomised by `entropy`.
    pub open spec fn jittered(nominal: u64, entropy: u64) -> u64 {
        (nominal / 2 + entropy % ((nominal / 2 + 1) as u64)) as u64
    }

    /// The wait after a failure at the time `now`.
    pub open spec fn delay(self, now: u64, entropy: u64) -> u64 {
        Self::jittered(self.nominal(now), entropy)
    }

    /// The state after a failure at the time `now`.
    pub open spec fn failed(self, now: u64) -> BackoffState {
        BackoffState {
            current: if self.current > self.ceiling / 2 {
                self.ceiling
            } else {
                (2 * self.current) as u64
            },
            window_start: if self.opens_window(now) {
                now
            } else {
                self.window_start
            },
            failures: self.failures_with(now),
            ..self
        }
    }

    /// The state after a connection succeeded.
    pub open spec fn reset(self) -> BackoffState {
        BackoffState { current: self.floor, ..self }
    }
}

/// A wait is never longer than the ceiling and never shorter than half the
/// floor; in a burst of failures it is at least half the ceiling. After a
/// failure the nominal wait is twice what it was, or the ceiling if that is
/// less.
pub proof fn lemma_delay_bounds(state: BackoffState, now: u64, entropy: u64)
    requires
        state.wf(),
    ensures
        state.floor / 2 <= state.delay(now, entropy) <= state.ceiling,
        state.nominal(now) / 2 <= state.delay(now, entropy) <= state.nominal(now),
        state.failures_with(now) > state.burst_limit ==> state.delay(now, entropy)
            >= state.ceiling / 2,
        state.failed(now).wf(),
        state.failed(now).current == if 2 * state.current <= state.ceiling {
            2 * state.current
        } else {
            state.ceiling as int
        },
        state.reset().wf(),
        state.reset().nominal(now) == state.floor || state.reset().nominal(now)
            == state.ceiling,
{
    let nominal = state.nominal(now);
    let half = (nominal / 2 + 1) as u64;
    assert(0 <= entropy % half < half);
}

/// The backoff of one shard.
pub struct Backoff {
    state: BackoffState,
}

impl View for Backoff {
    type V = BackoffState;

    closed spec fn view(&self) -> BackoffState {
        self.state
    }
}

impl Backoff {
    /// What holds of every backoff: its state is one it can be in.
    #[verifier::type_invariant]
    pub open spec fn sound(self) -> bool {
        self@.wf()
    }

    /// A backoff that waits `floor_ms` after a first failure and never more
    /// than `ceiling_ms`, and that takes `burst_limit` failures within
    /// `burst_window_ms` in stride. There is none whose floor is zero or
    /// above its ceiling.
    pub fn new(floor_ms: u64, ceiling_ms: u64, burst_limit: u64, burst_window_ms: u64) -> (backoff:
        Option<Self>)
        ensures
            match backoff {
                Some(b) => 0 < floor_ms <= ceiling_ms && b@ == BackoffState::initial(
                    floor_ms,
                    ceiling_ms,
                    burst_limit,
                    burst_window_ms,
                ),
                None => floor_ms == 0 || floor_ms > ceiling_ms,
            },
    {
        if floor_ms == 0 || floor_ms > ceiling_ms {
            None
        } else {
            Some(
                Backoff {
                    state: BackoffState {
                        floor: floor_ms,
                        ceiling: ceiling_ms,
                        current: floor_ms,
                        burst_limit,
                        burst_window: burst_window_ms,
                        window_start: 0,
                        failures: 0,
                    },
                },
            )
        }
    }

    /// Takes note of a failure at the time `now` and says how long to wait
    /// before the next attempt. `entropy` is a random number.
    pub fn next_delay(&mut self, now: u64, entropy: u64) -> (delay_ms: u64)
        ensures
            delay_ms == old(self)@.delay(now, entropy),
            final(self)@ == old(self)@.failed(now),
            final(self)@.wf(),
    {
        proof {
            use_type_invariant(&*self);
            lemma_delay_bounds(self.state, now, entropy);
        }
        let held = self.state;
        let opens: bool = held.failures == 0 || now < held.window_start || now - held.window_start
            >= held.burst_window;
        let failures: u64 = if opens {
            1
        } else if held.failures == u64::MAX {
            u64::MAX
        } else {
            held.failures + 1
        };
        let nominal: u64 = if failures > held.burst_limit {
            held.ceiling
        } else {
            held.current
        };
        let half: u64 = nominal / 2;
        let delay: u64 = half + entropy % (half + 1);
        self.state = BackoffState {
            current: if held.current > held.ceiling / 2 {
                held.ceiling
            } else {
                2 * held.current
            },
            window_start: if opens {
                now
            } else {
                held.window_start
            },
            failures,
            ..held
        };
        delay
    }

    /// Takes note that a connection succeeded: the next wait starts from the
    /// floor again.
    pub fn reset(&mut self)
        ensures
            final(self)@ == old(self)@.reset(),
            final(self)@.wf(),
    {
        proof {
            use_type_invariant(&*self);
        }
        let held = self.state;
        self.state = BackoffState { current: held.floor, ..held };
    }

    /// The nominal wait after the next failure, as the doubling has it.
    pub fn current(&self) -> (ms: u64)
        ensures
            ms == self@.current,
            self@.floor <= ms <= self@.ceiling,
    {
        proof {
            use_type_invariant(self);
        }
        self.state.current
    }

    /// The nominal wait after a first failure.
    pub fn floor(&self) -> (ms: u64)
        ensures
            ms == self@.floor,
    {
        self.state.floor
    }

    /// The longest nominal wait.
    pub fn ceiling(&self) -> (ms: u64)
        ensures
            ms == self@.ceiling,
    {
        self.state.ceiling
    }
}

} // verus!
