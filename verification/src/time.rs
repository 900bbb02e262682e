//! Spans of time and points on the monotonic clock.
use vstd::prelude::*;

verus! {

/// The longest span that [`Duration`] is meant to hold: `u64::MAX` whole seconds and
/// 999,999,999 nanoseconds more.
pub const MAX_DURATION_NANOS: u128 = 18_446_744_073_709_551_615_999_999_999;

/// A span of time, counted in whole nanoseconds.
///
/// Every constructor and every operation stays within [`MAX_DURATION_NANOS`]; addition
/// saturates there and subtraction saturates at zero.
#[derive(Clone, Copy, Debug, PartialEq, Eq, PartialOrd, Ord, Hash, Structural)]
pub struct Duration {
    pub nanos: u128,
}

/// The smaller of two integers.
pub open spec fn min_int(a: int, b: int) -> int {
    if a <= b { a } else { b }
}

/// The larger of two integers.
pub open spec fn max_int(a: int, b: int) -> int {
    if a >= b { a } else { b }
}

impl Duration {
    /// Whether the span lies within [`MAX_DURATION_NANOS`].
    pub open spec fn valid(self) -> bool {
        self.nanos <= MAX_DURATION_NANOS
    }

    /// The sum of two spans, cut off at the longest one.
    pub open spec fn sum(self, other: Duration) -> Duration {
        Duration { nanos: min_int(self.nanos + other.nanos, MAX_DURATION_NANOS as int) as u128 }
    }

    /// What is left of a span when another one is taken from it, or nothing.
    pub open spec fn less(self, other: Duration) -> Duration {
        Duration { nanos: max_int(self.nanos - other.nanos, 0) as u128 }
    }

    /// The shorter of two spans.
    pub open spec fn shorter(self, other: Duration) -> Duration {
        if self.nanos <= other.nanos { self } else { other }
    }

    /// The empty span.
    pub fn zero() -> (r: Duration)
        ensures
            r.nanos == 0,
    {
        Duration { nanos: 0 }
    }

    pub fn from_secs(secs: u64) -> (r: Duration)
        ensures
            r.nanos == secs * 1_000_000_000,
            r.valid(),
    {
        Duration { nanos: secs as u128 * 1_000_000_000u128 }
    }

    pub fn from_millis(millis: u64) -> (r: Duration)
        ensures
            r.nanos == millis * 1_000_000,
            r.valid(),
    {
        Duration { nanos: millis as u128 * 1_000_000u128 }
    }

    pub fn from_micros(micros: u64) -> (r: Duration)
        ensures
            r.nanos == micros * 1_000,
            r.valid(),
    {
        Duration { nanos: micros as u128 * 1_000u128 }
    }

    pub fn from_nanos(nanos: u64) -> (r: Duration)
        ensures
            r.nanos == nanos,
            r.valid(),
    {
        Duration { nanos: nanos as u128 }
    }

    pub fn is_zero(&self) -> (r: bool)
        ensures
            r == (self.nanos == 0),
    {
        self.nanos == 0
    }

    pub fn as_nanos(&self) -> (r: u128)
        ensures
            r == self.nanos,
    {
        self.nanos
    }

    /// Whole microseconds, rounded down.
    pub fn as_micros(&self) -> (r: u128)
        ensures
            r == self.nanos / 1_000,
    {
        self.nanos / 1_000
    }

    /// Whole milliseconds, rounded down.
    pub fn as_millis(&self) -> (r: u128)
        ensures
            r == self.nanos / 1_000_000,
    {
        self.nanos / 1_000_000
    }

    pub fn saturating_add(self, other: Duration) -> (r: Duration)
        ensures
            r == self.sum(other),
            r.valid(),
    {
        let total: u128 = self.nanos.saturating_add(other.nanos);
        if total > MAX_DURATION_NANOS {
            Duration { nanos: MAX_DURATION_NANOS }
        } else {
            Duration { nanos: total }
        }
    }

    pub fn saturating_sub(self, other: Duration) -> (r: Duration)
        ensures
            r == self.less(other),
            self.valid() ==> r.valid(),
    {
        Duration { nanos: self.nanos.saturating_sub(other.nanos) }
    }

    /// The difference, where `other` is not the longer span.
    pub fn checked_sub(self, other: Duration) -> (r: Option<Duration>)
        ensures
            r == (if self.nanos >= other.nanos {
                Some(self.less(other))
            } else {
                None
            }),
    {
        if self.nanos >= other.nanos {
            Some(Duration { nanos: self.nanos - other.nanos })
        } else {
            None
        }
    }

    pub fn min(self, other: Duration) -> (r: Duration)
        ensures
            r == self.shorter(other),
    {
        if self.nanos <= other.nanos {
            self
        } else {
            other
        }
    }
}

impl Default for Duration {
    fn default() -> (r: Duration)
        ensures
            r.nanos == 0,
    {
        Duration { nanos: 0 }
    }
}

/// A point on the monotonic clock, counted in nanoseconds from a fixed origin.
#[derive(Clone, Copy, Debug, PartialEq, Eq, PartialOrd, Ord, Hash, Structural)]
pub struct Instant {
    pub nanos: u128,
}

impl Instant {
    /// The span from `earlier` to this point, or nothing where `earlier` is the later one.
    pub open spec fn since(self, earlier: Instant) -> Duration {
        Duration {
            nanos: min_int(
                max_int(self.nanos - earlier.nanos, 0),
                MAX_DURATION_NANOS as int,
            ) as u128,
        }
    }

    pub fn saturating_duration_since(&self, earlier: Instant) -> (r: Duration)
        ensures
            r == self.since(earlier),
            r.valid(),
    {
        let span: u128 = self.nanos.saturating_sub(earlier.nanos);
        if span > MAX_DURATION_NANOS {
            Duration { nanos: MAX_DURATION_NANOS }
        } else {
            Duration { nanos: span }
        }
    }
}

/// Spans add up and are taken from one another exactly, as far as the longest and the empty span
/// allow.
pub proof fn law_spans_add_up(a: Duration, b: Duration)
    ensures
        a.nanos + b.nanos <= MAX_DURATION_NANOS ==> a.sum(b).nanos == a.nanos + b.nanos,
        a.nanos + b.nanos > MAX_DURATION_NANOS ==> a.sum(b).nanos == MAX_DURATION_NANOS,
        a.nanos >= b.nanos ==> a.less(b).nanos + b.nanos == a.nanos,
        a.nanos <= b.nanos ==> a.less(b).nanos == 0,
        a.shorter(b).nanos <= a.nanos && a.shorter(b).nanos <= b.nanos,
        a.shorter(b) == a || a.shorter(b) == b,
        a.sum(b) == b.sum(a),
{
}

/// The span between two points in time leads from the earlier to the later, and there is none
/// backwards.
pub proof fn law_the_span_leads_from_then_to_now(now: Instant, then: Instant)
    ensures
        then.nanos <= now.nanos <= then.nanos + MAX_DURATION_NANOS ==> then.nanos + now.since(
            then,
        ).nanos == now.nanos,
        now.nanos <= then.nanos ==> now.since(then).nanos == 0,
        now.since(then).valid(),
{
}

} // verus!
