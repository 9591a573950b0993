//! A span of time with nanosecond precision, covering exactly the range of
//! the standard library's `Duration` (up to `u64::MAX` seconds plus
//! 999 999 999 nanoseconds).

use vstd::prelude::*;

verus! {

/// Nanoseconds in a second.
pub open spec fn nanos_per_sec() -> int {
    1_000_000_000
}

/// The longest representable span, in nanoseconds.
pub open spec fn max_nanos() -> int {
    0xffff_ffff_ffff_ffffint * 1_000_000_000 + 999_999_999
}

/// A span of time.
#[derive(Debug, Clone, Copy, PartialEq, Eq, PartialOrd, Ord, Hash, Structural)]
pub struct Duration {
    nanos: u128,
}

impl View for Duration {
    type V = int;

    /// The span in nanoseconds.
    closed spec fn view(&self) -> int {
        self.nanos as int
    }
}

impl Duration {
    /// Every span lies between zero and the longest span.
    pub proof fn lemma_range(d: Duration)
        ensures
            0 <= d@,
            d@ <= u128::MAX,
    {
    }

    /// The empty span.
    pub fn zero() -> (res: Duration)
        ensures
            res@ == 0,
    {
        Duration { nanos: 0 }
    }

    /// The longest span.
    pub fn max_value() -> (res: Duration)
        ensures
            res@ == max_nanos(),
    {
        Duration { nanos: 0xffff_ffff_ffff_ffff * 1_000_000_000 + 999_999_999 }
    }

    /// A span of whole seconds.
    pub fn from_secs(secs: u64) -> (res: Duration)
        ensures
            res@ == secs * nanos_per_sec(),
    {
        Duration { nanos: (secs as u128) * 1_000_000_000 }
    }

    /// A span of whole milliseconds.
    pub fn from_millis(millis: u64) -> (res: Duration)
        ensures
            res@ == millis * 1_000_000,
    {
        Duration { nanos: (millis as u128) * 1_000_000 }
    }

    /// A span of whole nanoseconds.
    pub fn from_nanos(nanos: u64) -> (res: Duration)
        ensures
            res@ == nanos,
    {
        Duration { nanos: nanos as u128 }
    }

    /// A span given as whole seconds plus nanoseconds.
    pub fn new(secs: u64, nanos: u32) -> (res: Duration)
        requires
            secs * nanos_per_sec() + nanos <= max_nanos(),
        ensures
            res@ == secs * nanos_per_sec() + nanos,
    {
        Duration { nanos: (secs as u128) * 1_000_000_000 + (nanos as u128) }
    }

    /// Total nanoseconds.
    pub fn as_nanos(&self) -> (res: u128)
        ensures
            res == self@,
    {
        self.nanos
    }

    /// Total whole milliseconds.
    pub fn as_millis(&self) -> (res: u128)
        ensures
            res == self@ / 1_000_000,
    {
        self.nanos / 1_000_000
    }

    /// Whole seconds.
    pub fn as_secs(&self) -> (res: u64)
        requires
            self@ <= max_nanos(),
        ensures
            res == self@ / nanos_per_sec(),
    {
        (self.nanos / 1_000_000_000) as u64
    }

    /// The nanoseconds beyond the whole seconds.
    pub fn subsec_nanos(&self) -> (res: u32)
        ensures
            res == self@ % nanos_per_sec(),
    {
        (self.nanos % 1_000_000_000) as u32
    }

    /// Whether the span is empty.
    pub fn is_zero(&self) -> (res: bool)
        ensures
            res == (self@ == 0),
    {
        self.nanos == 0
    }

    /// Sum of two spans; the sum must stay within range.
    pub fn add(&self, other: Duration) -> (res: Duration)
        requires
            self@ + other@ <= max_nanos(),
        ensures
            res@ == self@ + other@,
    {
        Duration { nanos: self.nanos + other.nanos }
    }

    /// The span divided by a positive count, rounded down to the nanosecond.
    pub fn div_u32(&self, rhs: u32) -> (res: Duration)
        requires
            rhs > 0,
        ensures
            res@ == self@ / (rhs as int),
    {
        Duration { nanos: self.nanos / (rhs as u128) }
    }

    /// `self < other`.
    pub fn lt(&self, other: &Duration) -> (res: bool)
        ensures
            res == (self@ < other@),
    {
        self.nanos < other.nanos
    }

    /// The shorter of two spans.
    pub fn min(self, other: Duration) -> (res: Duration)
        ensures
            res@ == if self@ <= other@ { self@ } else { other@ },
    {
        if self.nanos <= other.nanos { self } else { other }
    }

    /// The longer of two spans.
    pub fn max(self, other: Duration) -> (res: Duration)
        ensures
            res@ == if self@ >= other@ { self@ } else { other@ },
    {
        if self.nanos >= other.nanos { self } else { other }
    }
}

} // verus!
