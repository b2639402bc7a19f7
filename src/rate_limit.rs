//! Fixed-window admission counter.

use vstd::prelude::*;

use crate::clock::millis_since;

verus! {

/// Length of one admission window, in milliseconds.
pub const REFILL_WINDOW_MS: u64 = 60_000;

/// What a rate limiter holds: its capacity per window, the admissions left
/// in the current window and when that window began (monotonic milliseconds).
pub struct LimiterState {
    pub capacity: u32,
    pub tokens: u32,
    pub last_refill_ms: u64,
}

/// Milliseconds from `since` to `now`; zero when the clock reads earlier.
pub open spec fn elapsed_ms(since: u64, now: u64) -> int {
    if now >= since {
        now - since
    } else {
        0
    }
}

/// One admission attempt at `now`: a window that is over is refilled first,
/// then a token is taken if one is left.
pub open spec fn allow_step(s: LimiterState, now: u64) -> (LimiterState, bool) {
    let refilled = if elapsed_ms(s.last_refill_ms, now) >= REFILL_WINDOW_MS {
        LimiterState { capacity: s.capacity, tokens: s.capacity, last_refill_ms: now }
    } else {
        s
    };
    if refilled.tokens == 0 {
        (refilled, false)
    } else {
        (LimiterState { tokens: (refilled.tokens - 1) as u32, ..refilled }, true)
    }
}

/// The states and answers of attempts at the given times, in order.
pub open spec fn allow_run(s: LimiterState, times: Seq<u64>) -> (LimiterState, Seq<bool>)
    decreases times.len(),
{
    if times.len() == 0 {
        (s, Seq::empty())
    } else {
        let (next, admitted) = allow_step(s, times[0]);
        let (last, rest) = allow_run(next, times.drop_first());
        (last, seq![admitted] + rest)
    }
}

/// A fixed-window admission counter: up to `capacity` admissions, refilled
/// once a window of `REFILL_WINDOW_MS` has gone by.
#[derive(Debug)]
pub struct RateLimiter {
    max_per_minute: u32,
    tokens: u32,
    last_refill_ms: u64,
    clock_origin: std::time::Instant,
}

impl View for RateLimiter {
    type V = LimiterState;

    closed spec fn view(&self) -> LimiterState {
        LimiterState {
            capacity: self.max_per_minute,
            tokens: self.tokens,
            last_refill_ms: self.last_refill_ms,
        }
    }
}

impl RateLimiter {
    /// A limiter with a full window of `max_per_minute` admissions.
    pub fn new(max_per_minute: u32) -> (r: Self)
        ensures
            r@.capacity == max_per_minute,
            r@.tokens == max_per_minute,
            r@.last_refill_ms == 0,
    {
        RateLimiter {
            max_per_minute,
            tokens: max_per_minute,
            last_refill_ms: 0,
            clock_origin: std::time::Instant::now(),
        }
    }

    /// One admission attempt at `now_ms` on the limiter's monotonic clock.
    pub fn allow_at(&mut self, now_ms: u64) -> (r: bool)
        ensures
            (final(self)@, r) == allow_step(old(self)@, now_ms),
    {
        self.refill(now_ms);
        if self.tokens == 0 {
            return false;
        }
        self.tokens = self.tokens - 1;
        true
    }

    fn refill(&mut self, now_ms: u64)
        ensures
            final(self)@ == (if elapsed_ms(old(self)@.last_refill_ms, now_ms) >= REFILL_WINDOW_MS {
                LimiterState { capacity: old(self)@.capacity, tokens: old(self)@.capacity, last_refill_ms: now_ms }
            } else {
                old(self)@
            }),
    {
        let elapsed = if now_ms >= self.last_refill_ms {
            now_ms - self.last_refill_ms
        } else {
            0
        };
        if elapsed < REFILL_WINDOW_MS {
            return;
        }
        self.tokens = self.max_per_minute;
        self.last_refill_ms = now_ms;
    }

    /// The limiter's monotonic clock, in milliseconds since it was made.
    pub fn clock_now(&self) -> u64 {
        millis_since(&self.clock_origin)
    }

    /// One admission attempt now; the answer is that of `allow_at` at the
    /// time the clock gave. With an admission left it is granted whatever the
    /// clock reads.
    pub fn allow(&mut self) -> (r: bool)
        ensures
            exists|now: u64| (final(self)@, r) == #[trigger] allow_step(old(self)@, now),
            old(self)@.tokens > 0 && old(self)@.capacity > 0 ==> r,
    {
        let now = self.clock_now();
        self.allow_at(now)
    }
}

/// Inside one window, a limiter with `t` admissions left admits the next `t`
/// attempts and refuses the one after.
pub proof fn lemma_window_quota(s: LimiterState, times: Seq<u64>)
    requires
        times.len() == s.tokens + 1,
        forall|k: int|
            0 <= k < times.len() ==> s.last_refill_ms <= #[trigger] times[k] < s.last_refill_ms
                + REFILL_WINDOW_MS,
    ensures
        allow_run(s, times).1 == Seq::new(times.len(), |k: int| k < s.tokens),
    decreases times.len(),
{
    let (next, admitted) = allow_step(s, times[0]);
    assert(s.last_refill_ms <= times[0] < s.last_refill_ms + REFILL_WINDOW_MS);
    if s.tokens == 0 {
        assert(times.drop_first().len() == 0);
        assert(!admitted);
        assert(allow_run(next, times.drop_first()).1 =~= Seq::<bool>::empty());
        assert(allow_run(s, times).1 =~= Seq::new(times.len(), |k: int| k < s.tokens));
    } else {
        let rest = times.drop_first();
        assert forall|k: int| 0 <= k < rest.len() implies next.last_refill_ms <= #[trigger] rest[k]
            < next.last_refill_ms + REFILL_WINDOW_MS by {
            assert(rest[k] == times[k + 1]);
        }
        lemma_window_quota(next, rest);
        assert(allow_run(s, times).1 =~= Seq::new(times.len(), |k: int| k < s.tokens));
    }
}

/// Once a window is over, the next attempt is admitted and opens a new
/// window with one admission used.
pub proof fn lemma_window_rollover(s: LimiterState, now: u64)
    requires
        s.capacity > 0,
        now >= s.last_refill_ms + REFILL_WINDOW_MS,
    ensures
        allow_step(s, now).1,
        allow_step(s, now).0 == (LimiterState {
            capacity: s.capacity,
            tokens: (s.capacity - 1) as u32,
            last_refill_ms: now,
        }),
{
}

/// Inside the current window an attempt takes an admission if one is left
/// and is refused otherwise; the window does not move.
pub proof fn lemma_allow_within_window(s: LimiterState, now: u64)
    requires
        s.last_refill_ms <= now < s.last_refill_ms + REFILL_WINDOW_MS,
    ensures
        allow_step(s, now) == (if s.tokens > 0 {
            (LimiterState { tokens: (s.tokens - 1) as u32, ..s }, true)
        } else {
            (s, false)
        }),
{
}

} // verus!
