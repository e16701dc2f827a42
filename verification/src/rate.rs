//! The rate limiter: the least interval that keeps a rate, and the rule by
//! which a value waits until that interval has passed since the one before.
//!
//! Times are whole nanoseconds on a clock of the caller's choosing. Rates are
//! thousandths of a value per second. A rate of zero is not read as "no
//! limit": it has no period, and a configuration that asks for it is refused.

use vstd::prelude::*;

verus! {

/// The nanoseconds that one value takes at a rate of one thousandth per
/// second.
pub const NANOS_AT_UNIT_RATE: u64 = 1_000_000_000_000;

/// `period` is the least whole number of nanoseconds between two values
/// that keeps them at or below `rate`.
pub open spec fn is_period(period: u64, rate: u64) -> bool {
    (period - 1) * rate < NANOS_AT_UNIT_RATE <= period * rate
}

/// The interval between values that a rate asks for: the least that keeps
/// it. A rate of zero asks for none.
pub fn period_nanos(rate: u64) -> (p: Option<u64>)
    ensures
        match p {
            Some(period) => rate > 0 && is_period(period, rate),
            None => rate == 0,
        },
{
    if rate == 0 {
        return None;
    }
    let whole: u64 = NANOS_AT_UNIT_RATE / rate;
    let part: u64 = NANOS_AT_UNIT_RATE % rate;
    assert(NANOS_AT_UNIT_RATE == whole * rate + part) by (nonlinear_arith)
        requires
            rate > 0,
            whole == NANOS_AT_UNIT_RATE / rate,
            part == NANOS_AT_UNIT_RATE % rate,
    ;
    if part == 0 {
        assert((whole - 1) * rate < whole * rate) by (nonlinear_arith)
            requires
                rate > 0,
        ;
        Some(whole)
    } else {
        assert((whole + 1) * rate == whole * rate + rate) by (nonlinear_arith);
        assert(whole <= NANOS_AT_UNIT_RATE) by (nonlinear_arith)
            requires
                NANOS_AT_UNIT_RATE == whole * rate + part,
                rate >= 1,
                part >= 0,
                whole >= 0,
        ;
        Some(whole + 1)
    }
}

/// A limiter that lets a value pass once `period` nanoseconds have gone by
/// since the value before it.
#[derive(Clone, Copy, Debug, PartialEq, Eq, Structural)]
pub struct RateLimiter {
    /// The least time between two values.
    pub period: u64,
    /// When the last value passed, if one has.
    pub last: Option<u64>,
}

impl RateLimiter {
    /// The earliest time at which the next value may pass.
    pub open spec fn due_at(&self) -> int {
        match self.last {
            None => 0,
            Some(t) => t + self.period,
        }
    }

    /// The limiter as it is once a value has passed at `now`.
    pub open spec fn passed(&self, now: u64) -> RateLimiter {
        RateLimiter { period: self.period, last: Some(now) }
    }

    /// A limiter through which nothing has passed yet.
    pub fn new(period: u64) -> (limiter: RateLimiter)
        ensures
            limiter == (RateLimiter { period, last: None }),
    {
        RateLimiter { period, last: None }
    }

    /// Whether a value may pass at `now`.
    pub fn ready(&self, now: u64) -> (b: bool)
        ensures
            b == (self.due_at() <= now),
    {
        match self.last {
            None => true,
            Some(t) => now >= t && now - t >= self.period,
        }
    }

    /// The earliest time at which the next value may pass, or the last time
    /// the clock can show where that would come later.
    pub fn due(&self) -> (t: u64)
        ensures
            t == if self.due_at() <= u64::MAX {
                self.due_at()
            } else {
                u64::MAX as int
            },
    {
        match self.last {
            None => 0,
            Some(t) => if t > u64::MAX - self.period {
                u64::MAX
            } else {
                t + self.period
            },
        }
    }

    /// Lets a value pass at `now` if it may: the limiter then remembers `now`.
    /// Otherwise the limiter stays as it is.
    pub fn pass(&mut self, now: u64) -> (b: bool)
        ensures
            b == (old(self).due_at() <= now),
            b ==> *final(self) == old(self).passed(now),
            !b ==> *final(self) == *old(self),
    {
        if self.ready(now) {
            self.last = Some(now);
            true
        } else {
            false
        }
    }
}

} // verus!
