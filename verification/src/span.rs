//! Lengths of time and positions within a track.

use vstd::prelude::*;

verus! {

/// Nanoseconds in one second.
pub const NANOS_PER_SEC: u32 = 1_000_000_000;

/// Nanoseconds in one millisecond.
pub const NANOS_PER_MILLI: u32 = 1_000_000;

/// A length of time with nanosecond resolution: whole seconds and the
/// nanoseconds of the second begun. It serves both as a position within a
/// track and as a distance between two positions.
///
/// Its view is the total number of nanoseconds.
#[derive(Clone, Copy, Debug, PartialEq, Eq, Structural)]
pub struct Span {
    secs: u64,
    nanos: u32,
}

impl View for Span {
    type V = nat;

    closed spec fn view(&self) -> nat {
        self.secs as nat * 1_000_000_000 + self.nanos as nat
    }
}

impl Span {
    #[verifier::type_invariant]
    closed spec fn inv(self) -> bool {
        self.nanos < NANOS_PER_SEC
    }

    /// The largest number of nanoseconds that a span can hold.
    pub open spec fn max_nanos() -> nat {
        u64::MAX as nat * 1_000_000_000 + 999_999_999
    }

    /// The empty span, which is also the start of every track.
    pub fn zero() -> (r: Span)
        ensures
            r@ == 0,
    {
        Span { secs: 0, nanos: 0 }
    }

    /// The longest span that can be held.
    pub fn longest() -> (r: Span)
        ensures
            r@ == Span::max_nanos(),
    {
        Span { secs: u64::MAX, nanos: 999_999_999 }
    }

    /// The span of `secs` whole seconds and `nanos` nanoseconds. Nanoseconds
    /// that make up whole seconds are carried over, so the seconds must
    /// leave room for them.
    pub fn new(secs: u64, nanos: u32) -> (r: Span)
        requires
            secs + nanos / NANOS_PER_SEC <= u64::MAX,
        ensures
            r@ == secs as nat * 1_000_000_000 + nanos as nat,
    {
        let carried: u64 = (nanos / NANOS_PER_SEC) as u64;
        Span { secs: secs + carried, nanos: nanos % NANOS_PER_SEC }
    }

    /// The span of `secs` whole seconds.
    pub fn from_secs(secs: u64) -> (r: Span)
        ensures
            r@ == secs as nat * 1_000_000_000,
    {
        Span { secs, nanos: 0 }
    }

    /// The span of `millis` milliseconds.
    pub fn from_millis(millis: u64) -> (r: Span)
        ensures
            r@ == millis as nat * 1_000_000,
    {
        let secs: u64 = millis / 1000;
        let rest: u32 = (millis % 1000) as u32;
        Span { secs, nanos: rest * NANOS_PER_MILLI }
    }

    /// The span of `nanos` nanoseconds, where that many fit.
    pub fn from_nanos(nanos: u128) -> (r: Span)
        requires
            nanos <= Span::max_nanos(),
        ensures
            r@ == nanos,
    {
        let secs: u64 = (nanos / 1_000_000_000) as u64;
        let rest: u32 = (nanos % 1_000_000_000) as u32;
        Span { secs, nanos: rest }
    }

    /// The whole seconds of the span.
    pub fn as_secs(self) -> (r: u64)
        ensures
            r == self@ / 1_000_000_000,
    {
        proof {
            use_type_invariant(self);
        }
        self.secs
    }

    /// The nanoseconds beyond the whole seconds.
    pub fn subsec_nanos(self) -> (r: u32)
        ensures
            r == self@ % 1_000_000_000,
            r < NANOS_PER_SEC,
    {
        proof {
            use_type_invariant(self);
        }
        self.nanos
    }

    /// The whole milliseconds of the span.
    pub fn as_millis(self) -> (r: u128)
        ensures
            r == self@ / 1_000_000,
            r <= Span::max_nanos() / 1_000_000,
    {
        proof {
            use_type_invariant(self);
        }
        let whole: u128 = self.secs as u128 * 1000;
        let part: u128 = (self.nanos / NANOS_PER_MILLI) as u128;
        whole + part
    }

    /// The span in nanoseconds.
    pub fn as_nanos(self) -> (r: u128)
        ensures
            r == self@,
            r <= Span::max_nanos(),
    {
        proof {
            use_type_invariant(self);
        }
        self.secs as u128 * 1_000_000_000 + self.nanos as u128
    }

    /// Whether the span is empty.
    pub fn is_zero(self) -> (r: bool)
        ensures
            r == (self@ == 0),
    {
        self.secs == 0 && self.nanos == 0
    }

    /// Whether `self` is no longer than `other`.
    pub fn is_at_most(self, other: Span) -> (r: bool)
        ensures
            r == (self@ <= other@),
    {
        proof {
            use_type_invariant(self);
            use_type_invariant(other);
        }
        self.secs < other.secs || (self.secs == other.secs && self.nanos <= other.nanos)
    }

    /// The shorter of two spans.
    pub fn min(self, other: Span) -> (r: Span)
        ensures
            r == if self@ <= other@ { self } else { other },
    {
        if self.is_at_most(other) {
            self
        } else {
            other
        }
    }

    /// `self + rhs`, where the sum can be held.
    pub fn checked_add(self, rhs: Span) -> (r: Option<Span>)
        ensures
            self@ + rhs@ <= Span::max_nanos() ==> r.is_some() && r.unwrap()@ == self@ + rhs@,
            self@ + rhs@ > Span::max_nanos() ==> r.is_none(),
    {
        proof {
            use_type_invariant(self);
            use_type_invariant(rhs);
        }
        let sum: u32 = self.nanos + rhs.nanos;
        let carry: u64 = if sum >= NANOS_PER_SEC { 1 } else { 0 };
        let nanos: u32 = if sum >= NANOS_PER_SEC { sum - NANOS_PER_SEC } else { sum };
        match self.secs.checked_add(rhs.secs) {
            None => None,
            Some(whole) => match whole.checked_add(carry) {
                None => None,
                Some(secs) => Some(Span { secs, nanos }),
            },
        }
    }

    /// `self + rhs`, or the longest span where the sum cannot be held.
    pub fn saturating_add(self, rhs: Span) -> (r: Span)
        ensures
            r@ == if self@ + rhs@ <= Span::max_nanos() {
                self@ + rhs@
            } else {
                Span::max_nanos()
            },
            self@ <= r@,
    {
        proof {
            use_type_invariant(self);
        }
        match self.checked_add(rhs) {
            Some(sum) => sum,
            None => Span::longest(),
        }
    }

    /// `self - rhs`, where `rhs` is no longer than `self`.
    pub fn checked_sub(self, rhs: Span) -> (r: Option<Span>)
        ensures
            rhs@ <= self@ ==> r.is_some() && r.unwrap()@ == self@ - rhs@,
            rhs@ > self@ ==> r.is_none(),
    {
        proof {
            use_type_invariant(self);
            use_type_invariant(rhs);
        }
        if self.secs < rhs.secs {
            None
        } else {
            let secs: u64 = self.secs - rhs.secs;
            if self.nanos >= rhs.nanos {
                Some(Span { secs, nanos: self.nanos - rhs.nanos })
            } else if secs == 0 {
                None
            } else {
                Some(Span { secs: secs - 1, nanos: self.nanos + NANOS_PER_SEC - rhs.nanos })
            }
        }
    }

    /// `self - rhs`, or the empty span where `rhs` is the longer.
    pub fn saturating_sub(self, rhs: Span) -> (r: Span)
        ensures
            r@ == if rhs@ <= self@ { self@ - rhs@ } else { 0 },
    {
        match self.checked_sub(rhs) {
            Some(rest) => rest,
            None => Span::zero(),
        }
    }

    /// `self` held between `low` and `high`.
    pub fn clamp(self, low: Span, high: Span) -> (r: Span)
        requires
            low@ <= high@,
        ensures
            r == if self@ < low@ { low } else if self@ > high@ { high } else { self },
            low@ <= r@ <= high@,
    {
        if !low.is_at_most(self) {
            low
        } else if !self.is_at_most(high) {
            high
        } else {
            self
        }
    }
}

} // verus!
