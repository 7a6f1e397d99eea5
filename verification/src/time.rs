//! Durations and instants as plain nanosecond counts.

use vstd::prelude::*;

verus! {

/// Nanoseconds in one millisecond.
pub const NANOS_PER_MILLI: u128 = 1_000_000;

/// A span of time, counted in nanoseconds.
#[derive(Clone, Copy, Debug, PartialEq, Eq, Structural, PartialOrd, Ord, Hash)]
pub struct Duration {
    pub nanos: u128,
}

/// A point on the service's monotonic clock: nanoseconds since the clock's
/// origin, which the caller picks once and keeps.
#[derive(Clone, Copy, Debug, PartialEq, Eq, Structural, PartialOrd, Ord, Hash)]
pub struct Instant {
    pub nanos: u64,
}

impl View for Duration {
    type V = nat;

    open spec fn view(&self) -> nat {
        self.nanos as nat
    }
}

impl View for Instant {
    type V = nat;

    open spec fn view(&self) -> nat {
        self.nanos as nat
    }
}

/// The sum of two spans, held at the largest span that can be represented.
pub open spec fn saturating_sum(a: nat, b: nat) -> nat {
    if a + b <= u128::MAX {
        a + b
    } else {
        u128::MAX as nat
    }
}

/// The time from `earlier` to `later`, zero where `later` is not after
/// `earlier`.
pub open spec fn span_between(earlier: nat, later: nat) -> nat {
    if later >= earlier {
        (later - earlier) as nat
    } else {
        0
    }
}

impl Duration {
    /// The empty span.
    pub fn zero() -> (d: Duration)
        ensures
            d@ == 0,
    {
        Duration { nanos: 0 }
    }

    /// A span of `nanos` nanoseconds.
    pub fn from_nanos(nanos: u128) -> (d: Duration)
        ensures
            d@ == nanos,
    {
        Duration { nanos }
    }

    /// A span of `millis` milliseconds.
    pub fn from_millis(millis: u64) -> (d: Duration)
        ensures
            d@ == millis * 1_000_000,
    {
        let wide: u128 = millis as u128;
        assert(wide * 1_000_000 <= u128::MAX) by (nonlinear_arith)
            requires
                wide <= u64::MAX,
        ;
        Duration { nanos: wide * NANOS_PER_MILLI }
    }

    /// The span in nanoseconds.
    pub fn as_nanos(&self) -> (nanos: u128)
        ensures
            nanos == self@,
    {
        self.nanos
    }

    /// The span in whole milliseconds, rounded down.
    pub fn as_millis(&self) -> (millis: u128)
        ensures
            millis == self@ / 1_000_000,
    {
        self.nanos / NANOS_PER_MILLI
    }

    /// The sum of both spans; where it cannot be represented, the largest
    /// span that can.
    pub fn saturating_add(self, other: Duration) -> (sum: Duration)
        ensures
            sum@ == saturating_sum(self@, other@),
    {
        match self.nanos.checked_add(other.nanos) {
            Some(nanos) => Duration { nanos },
            None => Duration { nanos: u128::MAX },
        }
    }

    /// Whether this span is strictly longer than `other`.
    pub fn exceeds(&self, other: &Duration) -> (longer: bool)
        ensures
            longer == (self@ > other@),
    {
        self.nanos > other.nanos
    }
}

impl Instant {
    /// The instant `nanos` nanoseconds after the clock's origin.
    pub fn from_nanos(nanos: u64) -> (t: Instant)
        ensures
            t@ == nanos,
    {
        Instant { nanos }
    }

    /// Nanoseconds since the clock's origin.
    pub fn as_nanos(&self) -> (nanos: u64)
        ensures
            nanos == self@,
    {
        self.nanos
    }

    /// The time that has passed from this instant until `now`; zero where
    /// `now` is not later.
    pub fn elapsed(&self, now: Instant) -> (d: Duration)
        ensures
            d@ == span_between(self@, now@),
    {
        if now.nanos >= self.nanos {
            let nanos: u64 = now.nanos - self.nanos;
            Duration { nanos: nanos as u128 }
        } else {
            Duration { nanos: 0 }
        }
    }
}

} // verus!
