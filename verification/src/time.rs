//! Points and spans on the session clock, held as whole nanoseconds.

use vstd::prelude::*;

verus! {

/// Nanoseconds in one millisecond.
pub const NANOS_PER_MILLI: u128 = 1_000_000;

/// Nanoseconds in one second.
pub const NANOS_PER_SEC: u128 = 1_000_000_000;

/// A span of time in nanoseconds.
#[derive(Clone, Copy, Debug, PartialEq, Eq, Hash, Structural)]
pub struct Interval {
    /// The length of the span in nanoseconds.
    pub nanos: u128,
}

/// A point on the session's monotonic clock, in nanoseconds since the clock's origin.
#[derive(Clone, Copy, Debug, PartialEq, Eq, Hash, Structural)]
pub struct Timestamp {
    /// Nanoseconds since the clock's origin.
    pub nanos: u128,
}

/// Whole milliseconds elapsed from `earlier` to `later`, zero when `later` is not after `earlier`.
pub open spec fn elapsed_millis(earlier: Timestamp, later: Timestamp) -> int {
    if later.nanos >= earlier.nanos {
        (later.nanos - earlier.nanos) / (NANOS_PER_MILLI as int)
    } else {
        0
    }
}

/// The sum of a point and a span, held at the largest representable point.
pub open spec fn advanced(from: Timestamp, by: Interval) -> Timestamp {
    if from.nanos + by.nanos <= u128::MAX {
        Timestamp { nanos: (from.nanos + by.nanos) as u128 }
    } else {
        Timestamp { nanos: u128::MAX }
    }
}

impl Interval {
    /// The span of `nanos` nanoseconds.
    pub fn from_nanos(nanos: u128) -> (r: Interval)
        ensures
            r.nanos == nanos,
    {
        Interval { nanos }
    }

    /// The span of `millis` milliseconds.
    pub fn from_millis(millis: u64) -> (r: Interval)
        ensures
            r.nanos == millis * NANOS_PER_MILLI,
    {
        Interval { nanos: (millis as u128) * NANOS_PER_MILLI }
    }

    /// The span of `secs` seconds.
    pub fn from_secs(secs: u64) -> (r: Interval)
        ensures
            r.nanos == secs * NANOS_PER_SEC,
    {
        Interval { nanos: (secs as u128) * NANOS_PER_SEC }
    }

    /// Whole milliseconds in the span, rounded down.
    pub fn as_millis(&self) -> (r: u128)
        ensures
            r == self.nanos / NANOS_PER_MILLI,
    {
        self.nanos / NANOS_PER_MILLI
    }
}

impl Timestamp {
    /// The point `nanos` nanoseconds after the clock's origin.
    pub fn from_nanos(nanos: u128) -> (r: Timestamp)
        ensures
            r.nanos == nanos,
    {
        Timestamp { nanos }
    }

    /// The point `millis` milliseconds after the clock's origin.
    pub fn from_millis(millis: u64) -> (r: Timestamp)
        ensures
            r.nanos == millis * NANOS_PER_MILLI,
    {
        Timestamp { nanos: (millis as u128) * NANOS_PER_MILLI }
    }

    /// The span from `earlier` to `self`, zero when `self` is not after `earlier`.
    pub fn saturating_duration_since(&self, earlier: Timestamp) -> (r: Interval)
        ensures
            self.nanos >= earlier.nanos ==> r.nanos == self.nanos - earlier.nanos,
            self.nanos < earlier.nanos ==> r.nanos == 0,
            r.nanos / NANOS_PER_MILLI == elapsed_millis(earlier, *self),
    {
        if self.nanos >= earlier.nanos {
            Interval { nanos: self.nanos - earlier.nanos }
        } else {
            Interval { nanos: 0 }
        }
    }

    /// The point `by` after `self`, held at the largest representable point.
    pub fn saturating_add(&self, by: Interval) -> (r: Timestamp)
        ensures
            r == advanced(*self, by),
    {
        if by.nanos <= u128::MAX - self.nanos {
            Timestamp { nanos: self.nanos + by.nanos }
        } else {
            Timestamp { nanos: u128::MAX }
        }
    }
}

/// Between two points that lie on whole milliseconds, the elapsed time is
/// exactly the difference of the two millisecond counts, and it is never
/// negative.
pub proof fn lemma_elapsed_whole_millis(sent_ms: u64, received_ms: u64)
    ensures
        elapsed_millis(
            Timestamp { nanos: (sent_ms * NANOS_PER_MILLI) as u128 },
            Timestamp { nanos: (received_ms * NANOS_PER_MILLI) as u128 },
        ) == if received_ms >= sent_ms {
            received_ms - sent_ms
        } else {
            0
        },
{
    let a: int = sent_ms as int;
    let b: int = received_ms as int;
    assert(a * 1_000_000 <= u128::MAX && b * 1_000_000 <= u128::MAX);
    if b >= a {
        assert((b * 1_000_000 - a * 1_000_000) / 1_000_000 == b - a) by (nonlinear_arith);
    } else {
        assert(b * 1_000_000 < a * 1_000_000) by (nonlinear_arith)
            requires
                b < a,
        ;
    }
}

} // verus!
