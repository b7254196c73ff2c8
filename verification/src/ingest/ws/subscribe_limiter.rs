//! A token bucket. Time is a reading of a monotonic clock in nanoseconds;
//! the level is kept in billionths of a token, so that a refill is exact.

use vstd::prelude::*;

verus! {

/// Billionths in one token, and nanoseconds in one second.
pub const NANOS: u64 = 1_000_000_000;

#[derive(Debug, Clone, Copy, PartialEq, Eq, Structural)]
pub struct TokenBucket {
    /// Tokens per second.
    pub rate: u32,
    /// The bucket's capacity in tokens.
    pub burst: u32,
    /// The level, in billionths of a token.
    pub level: u64,
    /// When the level was last brought up to date.
    pub last: u64,
}

/// What an attempt comes to.
#[derive(Debug, Clone, Copy, PartialEq, Eq, Structural)]
pub enum Acquire {
    /// A token was taken.
    Granted,
    /// No token is there; one will be after this many nanoseconds. Where no
    /// token will ever be there, the wait is the largest `u64`.
    Wait(u64),
}

impl TokenBucket {
    /// The capacity in billionths of a token.
    pub open spec fn cap(self) -> int {
        self.burst * NANOS
    }

    /// The level is within the capacity.
    pub open spec fn wf(self) -> bool {
        self.level <= self.cap()
    }

    /// Nanoseconds from the last update to `now`; 0 where `now` is earlier.
    pub open spec fn elapsed(self, now: u64) -> int {
        if now >= self.last {
            now - self.last
        } else {
            0
        }
    }

    /// The level at `now`: what was there plus `rate` tokens per second of
    /// elapsed time, held at the capacity.
    pub open spec fn level_at(self, now: u64) -> int {
        if self.level + self.rate * self.elapsed(now) >= self.cap() {
            self.cap()
        } else {
            self.level + self.rate * self.elapsed(now)
        }
    }

    /// Whether an attempt at `now` is granted: a whole token is there.
    pub open spec fn grants(self, now: u64) -> bool {
        self.level_at(now) >= NANOS
    }

    /// The clock reading that the bucket holds after an attempt at `now`.
    pub open spec fn clock_after(self, now: u64) -> u64 {
        if now >= self.last {
            now
        } else {
            self.last
        }
    }

    /// The bucket after an attempt at `now`.
    pub open spec fn after(self, now: u64) -> TokenBucket {
        TokenBucket {
            level: if self.grants(now) {
                (self.level_at(now) - NANOS) as u64
            } else {
                self.level_at(now) as u64
            },
            last: self.clock_after(now),
            ..self
        }
    }

    /// How long until a token is there, for a bucket that grants none at
    /// `now`: the missing billionths over the rate, rounded up.
    pub open spec fn wait_at(self, now: u64) -> int {
        if self.rate == 0 || self.burst == 0 {
            u64::MAX as int
        } else {
            (NANOS - self.level_at(now) + self.rate - 1) / (self.rate as int)
        }
    }

    /// A full bucket.
    pub fn new(rate: u32, burst: u32, now: u64) -> (b: TokenBucket)
        ensures
            b.wf(),
            b.rate == rate,
            b.burst == burst,
            b.level == b.cap(),
            b.last == now,
    {
        assert(burst * NANOS <= 0xffff_ffff * 1_000_000_000) by (nonlinear_arith)
            requires
                burst <= 0xffff_ffff,
                NANOS == 1_000_000_000,
        ;
        TokenBucket { rate, burst, level: (burst as u64) * NANOS, last: now }
    }

    /// One attempt at `now`: takes a token where a whole one is there, and
    /// says how long to wait where none is.
    pub fn try_acquire(&mut self, now: u64) -> (r: Acquire)
        requires
            old(self).wf(),
        ensures
            final(self).wf(),
            *final(self) == old(self).after(now),
            old(self).grants(now) ==> r == Acquire::Granted,
            !old(self).grants(now) ==> r == Acquire::Wait(old(self).wait_at(now) as u64),
    {
        let elapsed: u64 = if now >= self.last {
            now - self.last
        } else {
            0
        };
        assert(self.burst * NANOS <= 0xffff_ffff * 1_000_000_000) by (nonlinear_arith)
            requires
                self.burst <= 0xffff_ffff,
                NANOS == 1_000_000_000,
        ;
        assert(self.rate * elapsed <= 0xffff_ffff * 0xffff_ffff_ffff_ffff) by (nonlinear_arith)
            requires
                self.rate <= 0xffff_ffff,
                elapsed <= 0xffff_ffff_ffff_ffff,
        ;
        let cap: u128 = (self.burst as u128) * (NANOS as u128);
        let filled: u128 = (self.level as u128) + (self.rate as u128) * (elapsed as u128);
        let level: u64 = if filled >= cap {
            cap as u64
        } else {
            filled as u64
        };
        if now >= self.last {
            self.last = now;
        }
        if level >= NANOS {
            self.level = level - NANOS;
            Acquire::Granted
        } else {
            self.level = level;
            if self.rate == 0 || self.burst == 0 {
                Acquire::Wait(u64::MAX)
            } else {
                let missing: u64 = NANOS - level;
                let rate: u64 = self.rate as u64;
                Acquire::Wait((missing + rate - 1) / rate)
            }
        }
    }
}

/// The bucket after `n` attempts in a row at one instant.
pub open spec fn after_attempts(b: TokenBucket, now: u64, n: nat) -> TokenBucket
    decreases n,
{
    if n == 0 {
        b
    } else {
        after_attempts(b, now, (n - 1) as nat).after(now)
    }
}

/// From a cold start a bucket with burst `b` grants exactly `b` attempts
/// at once: the first `b` attempts at the instant of its making are granted,
/// each taking one token, and the next one is not.
pub proof fn lemma_burst_exact(b: TokenBucket, n: nat)
    requires
        b.wf(),
        b.level == b.cap(),
        n <= b.burst,
    ensures
        after_attempts(b, b.last, n).level == (b.burst - n) * NANOS,
        after_attempts(b, b.last, n).last == b.last,
        after_attempts(b, b.last, n).rate == b.rate,
        after_attempts(b, b.last, n).burst == b.burst,
        n < b.burst ==> after_attempts(b, b.last, n).grants(b.last),
        n == b.burst ==> !after_attempts(b, b.last, n).grants(b.last),
    decreases n,
{
    if n > 0 {
        lemma_burst_exact(b, (n - 1) as nat);
        let prev = after_attempts(b, b.last, (n - 1) as nat);
        assert(prev.rate * prev.elapsed(b.last) == 0) by (nonlinear_arith)
            requires
                prev.elapsed(b.last) == 0,
        ;
        assert((b.burst - (n - 1)) * NANOS - NANOS == (b.burst - n) * NANOS) by (nonlinear_arith);
        assert((b.burst - (n - 1)) * NANOS <= b.burst * NANOS) by (nonlinear_arith)
            requires
                n >= 1,
        ;
    }
    let cur = after_attempts(b, b.last, n);
    assert(cur.rate * cur.elapsed(b.last) == 0) by (nonlinear_arith)
        requires
            cur.elapsed(b.last) == 0,
    ;
    assert((b.burst - n) * NANOS <= b.burst * NANOS) by (nonlinear_arith);
    if n < b.burst {
        assert((b.burst - n) * NANOS >= NANOS) by (nonlinear_arith)
            requires
                b.burst - n >= 1,
        ;
    } else {
        assert((b.burst - n) * NANOS == 0) by (nonlinear_arith)
            requires
                b.burst - n == 0,
        ;
    }
}

/// How many of the attempts at the given instants, taken in order, are granted.
pub open spec fn granted(b: TokenBucket, times: Seq<u64>) -> nat
    decreases times.len(),
{
    if times.len() == 0 {
        0
    } else {
        let rest = granted(b.after(times[0]), times.drop_first());
        if b.grants(times[0]) {
            rest + 1
        } else {
            rest
        }
    }
}

/// Whether the instants do not go back, and lie between `start` and `end`.
pub open spec fn within(times: Seq<u64>, start: u64, end: u64) -> bool {
    &&& forall|i: int| 0 <= i < times.len() ==> start <= #[trigger] times[i] <= end
    &&& forall|i: int, j: int| 0 <= i < j < times.len() ==> times[i] <= times[j]
}

/// Across any window the granted attempts are bounded by the burst plus the
/// rate times the window's length: for attempts at instants within
/// `[start, end]`, `granted * 10^9 <= level_at(start) + rate * (end - start)`,
/// which is at most `burst * 10^9 + rate * (end - start)`.
pub proof fn lemma_window_bound(b: TokenBucket, times: Seq<u64>, start: u64, end: u64)
    requires
        b.wf(),
        start <= end,
        within(times, start, end),
    ensures
        granted(b, times) * NANOS <= b.level_at(start) + b.rate * (end - start),
        granted(b, times) * NANOS <= b.cap() + b.rate * (end - start),
    decreases times.len(),
{
    let r = b.rate as int;
    assert(r * (end - start) >= 0) by (nonlinear_arith)
        requires
            r >= 0,
            end - start >= 0,
    ;
    assert(r * b.elapsed(start) >= 0) by (nonlinear_arith)
        requires
            r >= 0,
            b.elapsed(start) >= 0,
    ;
    if times.len() > 0 {
        let t = times[0];
        let next = b.after(t);
        let rest = times.drop_first();
        assert(within(rest, t, end)) by {
            assert forall|i: int| 0 <= i < rest.len() implies t <= #[trigger] rest[i] <= end by {
                assert(rest[i] == times[i + 1]);
            }
            assert forall|i: int, j: int| 0 <= i < j < rest.len() implies rest[i] <= rest[j] by {
                assert(rest[i] == times[i + 1]);
                assert(rest[j] == times[j + 1]);
            }
        }
        // The clock of the bucket never runs faster than the window's.
        let gained = b.elapsed(t) - b.elapsed(start);
        assert(0 <= gained <= t - start);
        assert(r * b.elapsed(t) == r * b.elapsed(start) + r * gained) by (nonlinear_arith)
            requires
                gained == b.elapsed(t) - b.elapsed(start),
        ;
        assert(0 <= r * gained <= r * (t - start)) by (nonlinear_arith)
            requires
                r >= 0,
                0 <= gained <= t - start,
        ;
        assert(r * (end - start) == r * (t - start) + r * (end - t)) by (nonlinear_arith);
        assert(next.rate * next.elapsed(t) == 0) by (nonlinear_arith)
            requires
                next.elapsed(t) == 0,
        ;
        lemma_window_bound(next, rest, t, end);
    }
}

} // verus!
