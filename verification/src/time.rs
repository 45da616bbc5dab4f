//! Spans of time, held as whole nanoseconds.

use vstd::prelude::*;

verus! {

/// Nanoseconds in one second.
pub const NANOS_PER_SECOND: u128 = 1_000_000_000;

/// Nanoseconds in one millisecond.
pub const NANOS_PER_MILLI: u128 = 1_000_000;

/// The longest span that a `Duration` stands for: `u64::MAX` seconds and
/// 999,999,999 nanoseconds.
pub const MAX_NANOS: u128 = 18_446_744_073_709_551_615_999_999_999;

/// A span of time in whole nanoseconds.
#[derive(Clone, Copy, Debug, PartialEq, Eq, Structural)]
pub struct Duration {
    nanos: u128,
}

impl View for Duration {
    type V = nat;

    closed spec fn view(&self) -> nat {
        self.nanos as nat
    }
}

/// The larger of zero and `a - b`.
pub open spec fn floor_sub(a: nat, b: nat) -> nat {
    if a >= b {
        (a - b) as nat
    } else {
        0
    }
}

/// The smaller of two spans.
pub open spec fn least(a: nat, b: nat) -> nat {
    if a <= b {
        a
    } else {
        b
    }
}

/// A count of milliseconds held in 64 bits, capped at the largest such count.
pub open spec fn capped_millis(nanos: nat) -> u64 {
    if nanos / 1_000_000 <= u64::MAX {
        (nanos / 1_000_000) as u64
    } else {
        u64::MAX
    }
}

impl Duration {
    /// Every span is representable.
    #[verifier::type_invariant]
    spec fn inv(self) -> bool {
        self.nanos <= MAX_NANOS
    }

    pub fn zero() -> (r: Duration)
        ensures
            r@ == 0,
    {
        Duration { nanos: 0 }
    }

    /// A span of `nanos` nanoseconds.
    pub fn from_nanos(nanos: u64) -> (r: Duration)
        ensures
            r@ == nanos,
    {
        Duration { nanos: nanos as u128 }
    }

    /// A span of `millis` milliseconds.
    pub fn from_millis(millis: u64) -> (r: Duration)
        ensures
            r@ == millis * 1_000_000,
    {
        Duration { nanos: millis as u128 * NANOS_PER_MILLI }
    }

    /// A span of `secs` seconds.
    pub fn from_secs(secs: u64) -> (r: Duration)
        ensures
            r@ == secs * 1_000_000_000,
    {
        Duration { nanos: secs as u128 * NANOS_PER_SECOND }
    }

    /// The whole nanoseconds of this span.
    pub fn as_nanos(&self) -> (r: u128)
        ensures
            r == self@,
            r <= MAX_NANOS,
    {
        proof {
            use_type_invariant(self);
        }
        self.nanos
    }

    /// The whole milliseconds of this span.
    pub fn as_millis(&self) -> (r: u128)
        ensures
            r == self@ / 1_000_000,
    {
        self.nanos / NANOS_PER_MILLI
    }

    /// The whole milliseconds of this span, or `u64::MAX` if there are more.
    pub fn millis(&self) -> (r: u64)
        ensures
            r == capped_millis(self@),
    {
        let whole: u128 = self.nanos / NANOS_PER_MILLI;
        if whole <= u64::MAX as u128 {
            whole as u64
        } else {
            u64::MAX
        }
    }

    /// This span less `other`, or zero if `other` is longer.
    pub fn saturating_sub(&self, other: Duration) -> (r: Duration)
        ensures
            r@ == floor_sub(self@, other@),
    {
        proof {
            use_type_invariant(self);
        }
        if self.nanos >= other.nanos {
            Duration { nanos: self.nanos - other.nanos }
        } else {
            Duration { nanos: 0 }
        }
    }

    /// The sum of two spans, if it is representable.
    pub fn checked_add(&self, other: Duration) -> (r: Option<Duration>)
        ensures
            r is Some <==> self@ + other@ <= MAX_NANOS,
            r is Some ==> r->0@ == self@ + other@,
    {
        proof {
            use_type_invariant(self);
            use_type_invariant(&other);
        }
        let sum: u128 = self.nanos + other.nanos;
        if sum <= MAX_NANOS {
            Some(Duration { nanos: sum })
        } else {
            None
        }
    }

    /// The whole milliseconds of the sum of two spans, or `u64::MAX` if there are
    /// more.
    pub fn sum_millis(&self, other: Duration) -> (r: u64)
        ensures
            r == capped_millis(self@ + other@),
    {
        proof {
            use_type_invariant(self);
            use_type_invariant(&other);
        }
        let whole: u128 = (self.nanos + other.nanos) / NANOS_PER_MILLI;
        if whole <= u64::MAX as u128 {
            whole as u64
        } else {
            u64::MAX
        }
    }

    /// The shorter of this span and the sum of two others.
    pub fn min_sum(&self, base: Duration, extra: Duration) -> (r: Duration)
        ensures
            r@ == least(self@, base@ + extra@),
    {
        proof {
            use_type_invariant(self);
        }
        match base.checked_add(extra) {
            Some(sum) => self.min(sum),
            None => *self,
        }
    }

    /// The shorter of two spans.
    pub fn min(&self, other: Duration) -> (r: Duration)
        ensures
            r@ == least(self@, other@),
    {
        if self.nanos <= other.nanos {
            *self
        } else {
            other
        }
    }

    /// Whether this span is shorter than `other`.
    pub fn is_less_than(&self, other: Duration) -> (r: bool)
        ensures
            r == (self@ < other@),
    {
        self.nanos < other.nanos
    }

    /// Whether this span has no length.
    pub fn is_zero(&self) -> (r: bool)
        ensures
            r == (self@ == 0),
    {
        self.nanos == 0
    }
}

/// The span that is `extra` longer.
pub(crate) fn later(base: Duration, extra: Duration) -> (r: Duration)
    requires
        base@ + extra@ <= MAX_NANOS,
    ensures
        r@ == base@ + extra@,
{
    match base.checked_add(extra) {
        Some(sum) => sum,
        None => base,
    }
}

} // verus!
