//! The quota on outbound commands: a token bucket.
//!
//! A bucket holds at most `capacity` tokens and is filled up at the
//! boundaries of its refill windows, which are `period` long and follow one
//! another without a gap. Every command but a heartbeat takes one token.
//! The bucket keeps no timer: it works out the refills that have come due
//! when a token is asked for.

use vstd::prelude::*;
use vstd::arithmetic::div_mod::lemma_fundamental_div_mod;
use vstd::arithmetic::div_mod::lemma_fundamental_div_mod_converse;
use crate::gateway::opcode::OpCode;

verus! {

/// How many commands the service takes from one connection in one period.
pub const COMMAND_QUOTA: u64 = 120;

/// The length of that period, in milliseconds.
pub const COMMAND_PERIOD_MS: u64 = 60_000;

/// What the bucket answers to a command.
#[derive(Clone, Copy, Debug, PartialEq, Eq, Structural, Hash)]
pub enum Admission {
    /// The command may be sent now.
    Granted,
    /// The command has to wait at least this many milliseconds, and then ask
    /// again.
    Wait(u64),
}

/// The state of a token bucket. Times are in milliseconds on a clock that
/// does not run backwards.
#[derive(Clone, Copy, Debug, PartialEq, Eq, Structural, Hash)]
pub struct Bucket {
    /// The most tokens the bucket holds.
    pub capacity: u64,
    /// The tokens left in the current window.
    pub remaining: u64,
    /// When the current window began: the time of the last refill.
    pub refill_at: u64,
    /// The length of a window.
    pub period: u64,
}

impl Bucket {
    /// Whether the state is one a bucket can be in.
    pub open spec fn wf(self) -> bool {
        &&& self.remaining <= self.capacity
        &&& self.period > 0
    }

    /// The time that `now` counts as: a time before the last refill counts
    /// as the time of that refill.
    pub open spec fn clamped(self, now: u64) -> u64 {
        if now > self.refill_at {
            now
        } else {
            self.refill_at
        }
    }

    /// How many whole windows have gone by since the last refill.
    pub open spec fn windows_elapsed(self, now: u64) -> int {
        let elapsed = self.clamped(now) - self.refill_at;
        if elapsed < self.period {
            0
        } else {
            elapsed / (self.period as int)
        }
    }

    /// The bucket at the time `now`, before anything is taken: filled up if
    /// a window boundary has been passed, as it was otherwise.
    pub open spec fn refilled(self, now: u64) -> Bucket {
        let windows = self.windows_elapsed(now);
        if windows >= 1 {
            Bucket {
                remaining: self.capacity,
                refill_at: (self.refill_at + windows * self.period) as u64,
                ..self
            }
        } else {
            self
        }
    }

    /// The bucket after a token was asked for at the time `now`, and the
    /// answer.
    pub open spec fn acquired(self, now: u64) -> (Bucket, Admission) {
        let filled = self.refilled(now);
        if filled.remaining > 0 {
            (Bucket { remaining: (filled.remaining - 1) as u64, ..filled }, Admission::Granted)
        } else {
            (
                filled,
                Admission::Wait(
                    (filled.refill_at + filled.period - filled.clamped(now)) as u64,
                ),
            )
        }
    }

    /// The bucket after a command with the code `op` asked to be sent at the
    /// time `now`, and the answer. A heartbeat is let through and leaves the
    /// bucket as it is.
    pub open spec fn permitted(self, op: OpCode, now: u64) -> (Bucket, Admission) {
        if op.spec_is_metered() {
            self.acquired(now)
        } else {
            (self, Admission::Granted)
        }
    }

    /// The bucket filled up, with a window that begins at `now`.
    pub open spec fn reset(self, now: u64) -> Bucket {
        Bucket { remaining: self.capacity, refill_at: now, ..self }
    }
}

/// Whether each time is at or after the one before it.
pub open spec fn non_decreasing(times: Seq<u64>) -> bool {
    forall|i: int, j: int| 0 <= i <= j < times.len() ==> #[trigger] times[i] <= #[trigger] times[j]
}

/// How many of the requests made at `times`, first to last, on the bucket
/// `bucket` are granted at a time from `from` up to, and without, `until`.
pub open spec fn grants_within(bucket: Bucket, times: Seq<u64>, from: int, until: int) -> nat
    decreases times.len(),
{
    if times.len() == 0 {
        0
    } else {
        let step = bucket.acquired(times[0]);
        let here: nat = if step.1 is Granted && from <= times[0] < until {
            1
        } else {
            0
        };
        here + grants_within(step.0, times.drop_first(), from, until)
    }
}

proof fn lemma_windows_elapsed(bucket: Bucket, now: u64)
    requires
        bucket.period > 0,
    ensures
        bucket.windows_elapsed(now) == (bucket.clamped(now) - bucket.refill_at) / (
        bucket.period as int),
{
    let elapsed = bucket.clamped(now) - bucket.refill_at;
    if elapsed < bucket.period {
        lemma_fundamental_div_mod_converse(elapsed, bucket.period as int, 0, elapsed);
    }
}

/// What a refill does to a bucket: the new window begins a whole number of
/// periods after the old one, at or before the time asked about, and less
/// than a period before it.
pub proof fn lemma_refilled(bucket: Bucket, now: u64)
    requires
        bucket.wf(),
    ensures
        bucket.refilled(now).wf(),
        bucket.refilled(now).capacity == bucket.capacity,
        bucket.refilled(now).period == bucket.period,
        bucket.windows_elapsed(now) >= 0,
        bucket.refilled(now).refill_at == bucket.refill_at + bucket.windows_elapsed(now)
            * bucket.period,
        bucket.refilled(now).refill_at <= bucket.clamped(now) < bucket.refilled(now).refill_at
            + bucket.period,
        bucket.refilled(now).clamped(now) == bucket.clamped(now),
        bucket.windows_elapsed(now) == 0 ==> bucket.refilled(now) == bucket,
        bucket.windows_elapsed(now) >= 1 ==> bucket.refilled(now).remaining == bucket.capacity,
{
    let x = bucket.clamped(now) - bucket.refill_at;
    let d = bucket.period as int;
    let windows = bucket.windows_elapsed(now);
    lemma_windows_elapsed(bucket, now);
    assert(windows == x / d);
    lemma_fundamental_div_mod(x, d);
    assert(0 <= x % d < d);
    assert(x == windows * d + x % d) by (nonlinear_arith)
        requires
            x == d * windows + x % d,
    ;
    assert(windows >= 0) by (nonlinear_arith)
        requires
            x == windows * d + x % d,
            x >= 0,
            0 <= x % d < d,
    ;
    assert(bucket.refill_at + windows * d <= bucket.clamped(now));
    assert(windows == 0 ==> windows * d == 0) by (nonlinear_arith);
}

/// Asking for a token leaves a bucket well-formed, with the capacity and the
/// period it had; a wait is longer than zero and at most one period.
pub proof fn lemma_acquired(bucket: Bucket, now: u64)
    requires
        bucket.wf(),
    ensures
        bucket.acquired(now).0.wf(),
        bucket.acquired(now).0.capacity == bucket.capacity,
        bucket.acquired(now).0.period == bucket.period,
        bucket.acquired(now).0.refill_at == bucket.refilled(now).refill_at,
        bucket.acquired(now).1 matches Admission::Wait(ms) ==> 0 < ms <= bucket.period
            && bucket.acquired(now).0.remaining == 0,
{
    lemma_refilled(bucket, now);
}

proof fn lemma_drop_first_non_decreasing(times: Seq<u64>)
    requires
        non_decreasing(times),
        times.len() > 0,
    ensures
        non_decreasing(times.drop_first()),
        times.len() > 1 ==> times[0] <= times.drop_first()[0],
{
    let rest = times.drop_first();
    assert forall|i: int, j: int| 0 <= i <= j < rest.len() implies #[trigger] rest[i]
        <= #[trigger] rest[j] by {
        assert(rest[i] == times[i + 1]);
        assert(rest[j] == times[j + 1]);
    }
    if times.len() > 1 {
        assert(rest[0] == times[1]);
    }
}

proof fn lemma_none_after(bucket: Bucket, times: Seq<u64>, from: int, until: int)
    requires
        non_decreasing(times),
        times.len() > 0 ==> times[0] >= until,
    ensures
        grants_within(bucket, times, from, until) == 0,
    decreases times.len(),
{
    if times.len() > 0 {
        lemma_drop_first_non_decreasing(times);
        lemma_none_after(bucket.acquired(times[0]).0, times.drop_first(), from, until);
    }
}

/// Within one refill window a bucket grants at most `capacity` requests,
/// heartbeats aside, whatever is asked of it and when.
///
/// The windows are those of the bucket: `window` counts them from the one
/// that `bucket` is in. Of the current window (`window == 0`) more is known:
/// at most `remaining` requests are granted in what is left of it.
pub proof fn lemma_window_quota(bucket: Bucket, times: Seq<u64>, window: nat)
    requires
        bucket.wf(),
        non_decreasing(times),
    ensures
        grants_within(
            bucket,
            times,
            bucket.refill_at + window * bucket.period,
            bucket.refill_at + window * bucket.period + bucket.period,
        ) <= bucket.capacity,
        window == 0 ==> grants_within(
            bucket,
            times,
            bucket.refill_at as int,
            bucket.refill_at + bucket.period,
        ) <= bucket.remaining,
    decreases times.len(),
{
    let period = bucket.period as int;
    let start = bucket.refill_at as int;
    let from = start + window * period;
    let until = from + period;
    assert(window == 0 ==> window * period == 0) by (nonlinear_arith);
    if times.len() > 0 {
        let now = times[0];
        let rest = times.drop_first();
        let filled = bucket.refilled(now);
        let next = bucket.acquired(now).0;
        let passed = bucket.windows_elapsed(now);
        let at = bucket.clamped(now) as int;
        lemma_refilled(bucket, now);
        lemma_acquired(bucket, now);
        lemma_drop_first_non_decreasing(times);
        if now >= until {
            lemma_none_after(bucket, times, from, until);
        } else if now < from {
            // The request falls before the window: it leaves the window ahead.
            if window == 0 {
                assert(passed == 0) by {
                    lemma_fundamental_div_mod_converse(0, period, 0, 0);
                }
                lemma_window_quota(next, rest, 0);
            } else {
                assert(window * period >= period) by (nonlinear_arith)
                    requires
                        window >= 1,
                        period > 0,
                ;
                assert(at < from);
                assert(passed < window) by (nonlinear_arith)
                    requires
                        passed * period <= at - start,
                        at - start < window * period,
                        period > 0,
                ;
                let ahead = (window - passed) as nat;
                assert(start + passed * period + ahead * period == from) by (nonlinear_arith)
                    requires
                        ahead == window - passed,
                        from == start + window * period,
                ;
                lemma_window_quota(next, rest, ahead);
            }
        } else {
            // The request falls into the window, which thereby is the current one.
            assert(at == now);
            assert(passed == window) by {
                lemma_windows_elapsed(bucket, now);
                lemma_fundamental_div_mod_converse(
                    at - start,
                    period,
                    window as int,
                    at - from,
                );
            }
            assert(next.refill_at == from);
            lemma_window_quota(next, rest, 0);
            assert(0 * period == 0);
        }
    }
}

proof fn lemma_grants_split(bucket: Bucket, times: Seq<u64>, from: int, mid: int, until: int)
    requires
        from <= mid <= until,
    ensures
        grants_within(bucket, times, from, until) == grants_within(bucket, times, from, mid)
            + grants_within(bucket, times, mid, until),
    decreases times.len(),
{
    if times.len() > 0 {
        lemma_grants_split(bucket.acquired(times[0]).0, times.drop_first(), from, mid, until);
    }
}

proof fn lemma_grants_widen(
    bucket: Bucket,
    times: Seq<u64>,
    from: int,
    until: int,
    wider_from: int,
    wider_until: int,
)
    requires
        wider_from <= from,
        until <= wider_until,
    ensures
        grants_within(bucket, times, from, until) <= grants_within(
            bucket,
            times,
            wider_from,
            wider_until,
        ),
    decreases times.len(),
{
    if times.len() > 0 {
        lemma_grants_widen(
            bucket.acquired(times[0]).0,
            times.drop_first(),
            from,
            until,
            wider_from,
            wider_until,
        );
    }
}

/// Within any stretch of time as long as one period a bucket grants at most
/// twice its capacity, heartbeats aside.
///
/// The stretch may begin anywhere, at or after the beginning of the
/// bucket's current window. Twice the capacity is reached: a stretch that
/// begins late in one refill window takes in the beginning of the next, and
/// a bucket that was left alone for most of a window can be emptied just
/// before it is filled up and emptied again just after.
pub proof fn lemma_rolling_window_quota(bucket: Bucket, times: Seq<u64>, from: int)
    requires
        bucket.wf(),
        non_decreasing(times),
        bucket.refill_at <= from,
    ensures
        grants_within(bucket, times, from, from + bucket.period) <= 2 * bucket.capacity,
{
    let period = bucket.period as int;
    let start = bucket.refill_at as int;
    let offset = from - start;
    lemma_fundamental_div_mod(offset, period);
    let window = offset / period;
    assert(window >= 0 && offset == window * period + offset % period) by (nonlinear_arith)
        requires
            offset == period * window + offset % period,
            0 <= offset % period < period,
            offset >= 0,
    ;
    assert((window + 1) * period == window * period + period) by (nonlinear_arith);
    let first = start + window * period;
    let second = first + period;
    lemma_window_quota(bucket, times, window as nat);
    lemma_window_quota(bucket, times, (window + 1) as nat);
    lemma_grants_split(bucket, times, first, second, second + period);
    lemma_grants_widen(bucket, times, from, from + period, first, second + period);
}

/// The limiter on the outbound commands of a shard.
pub struct RateLimiter {
    state: Bucket,
}

impl View for RateLimiter {
    type V = Bucket;

    closed spec fn view(&self) -> Bucket {
        self.state
    }
}

impl RateLimiter {
    /// What holds of every limiter: its state is one it can be in.
    #[verifier::type_invariant]
    pub open spec fn sound(self) -> bool {
        self@.wf()
    }

    /// A full bucket of `capacity` tokens whose first window begins at `now`
    /// and whose windows are `period_ms` long. There is no bucket with
    /// windows of no length.
    pub fn new(capacity: u64, period_ms: u64, now: u64) -> (limiter: Option<Self>)
        ensures
            match limiter {
                Some(l) => period_ms > 0 && l@ == (Bucket {
                    capacity,
                    remaining: capacity,
                    refill_at: now,
                    period: period_ms,
                }),
                None => period_ms == 0,
            },
    {
        if period_ms == 0 {
            None
        } else {
            Some(
                RateLimiter {
                    state: Bucket {
                        capacity,
                        remaining: capacity,
                        refill_at: now,
                        period: period_ms,
                    },
                },
            )
        }
    }

    /// A full bucket with the quota that the service documents: 120
    /// commands in 60 seconds.
    pub fn standard(now: u64) -> (limiter: Self)
        ensures
            limiter@ == (Bucket {
                capacity: COMMAND_QUOTA,
                remaining: COMMAND_QUOTA,
                refill_at: now,
                period: COMMAND_PERIOD_MS,
            }),
    {
        RateLimiter {
            state: Bucket {
                capacity: COMMAND_QUOTA,
                remaining: COMMAND_QUOTA,
                refill_at: now,
                period: COMMAND_PERIOD_MS,
            },
        }
    }

    /// Asks for one token at the time `now`.
    ///
    /// The bucket is first filled up if a window boundary has been passed
    /// since the last refill. If a token is left it is taken. If none is,
    /// the answer says how long it is until the next boundary; the bucket
    /// keeps no queue, and the caller asks again after that time.
    pub fn try_acquire(&mut self, now: u64) -> (admission: Admission)
        ensures
            final(self)@ == old(self)@.acquired(now).0,
            admission == old(self)@.acquired(now).1,
            final(self)@.wf(),
    {
        proof {
            use_type_invariant(&*self);
            lemma_refilled(self.state, now);
            lemma_acquired(self.state, now);
        }
        let held = self.state;
        let at: u64 = if now > held.refill_at {
            now
        } else {
            held.refill_at
        };
        let elapsed: u64 = at - held.refill_at;
        proof {
            lemma_fundamental_div_mod(elapsed as int, held.period as int);
            assert(held.period * (elapsed as int / held.period as int) == (elapsed as int
                / held.period as int) * held.period) by (nonlinear_arith);
        }
        let filled = if elapsed >= held.period {
            Bucket {
                remaining: held.capacity,
                refill_at: at - elapsed % held.period,
                ..held
            }
        } else {
            assert(held.windows_elapsed(now) == 0) by {
                lemma_fundamental_div_mod_converse(
                    elapsed as int,
                    held.period as int,
                    0,
                    elapsed as int,
                );
            }
            held
        };
        assert(filled == held.refilled(now)) by {
            if elapsed >= held.period {
                assert(held.windows_elapsed(now) >= 1) by (nonlinear_arith)
                    requires
                        elapsed == held.period * held.windows_elapsed(now) + elapsed
                            % held.period,
                        elapsed >= held.period,
                        0 <= elapsed % held.period < held.period,
                ;
            }
        }
        if filled.remaining > 0 {
            self.state = Bucket { remaining: filled.remaining - 1, ..filled };
            Admission::Granted
        } else {
            self.state = filled;
            Admission::Wait(filled.period - (at - filled.refill_at))
        }
    }

    /// Asks whether a command with the code `op` may be sent at the time
    /// `now`. A heartbeat always may, and takes no token; any other command
    /// takes one, as [`RateLimiter::try_acquire`] says.
    pub fn permit(&mut self, op: OpCode, now: u64) -> (admission: Admission)
        ensures
            final(self)@ == old(self)@.permitted(op, now).0,
            admission == old(self)@.permitted(op, now).1,
            !op.spec_is_metered() ==> admission == Admission::Granted && final(self)@ == old(
                self,
            )@,
            final(self)@.wf(),
    {
        proof {
            use_type_invariant(&*self);
        }
        if op.is_metered() {
            self.try_acquire(now)
        } else {
            Admission::Granted
        }
    }

    /// Fills the bucket up and lets a new window begin at `now`: the quota
    /// belongs to a connection, and this is for a new one.
    pub fn reset(&mut self, now: u64)
        ensures
            final(self)@ == old(self)@.reset(now),
            final(self)@.wf(),
    {
        proof {
            use_type_invariant(&*self);
        }
        let held = self.state;
        self.state = Bucket { remaining: held.capacity, refill_at: now, ..held };
    }

    /// The most tokens the bucket holds.
    pub fn capacity(&self) -> (capacity: u64)
        ensures
            capacity == self@.capacity,
    {
        self.state.capacity
    }

    /// The tokens left at the last request. Never more than the capacity.
    pub fn remaining(&self) -> (remaining: u64)
        ensures
            remaining == self@.remaining,
            remaining <= self@.capacity,
    {
        proof {
            use_type_invariant(self);
        }
        self.state.remaining
    }

    /// When the current window began.
    pub fn refill_at(&self) -> (at: u64)
        ensures
            at == self@.refill_at,
    {
        self.state.refill_at
    }

    /// The length of a window, in milliseconds. Never zero.
    pub fn period(&self) -> (period: u64)
        ensures
            period == self@.period,
            period > 0,
    {
        proof {
            use_type_invariant(self);
        }
        self.state.period
    }
}

} // verus!
