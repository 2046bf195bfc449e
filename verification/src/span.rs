//! Lengths of time, counted in whole nanoseconds.

use vstd::prelude::*;

verus! {

/// Nanoseconds in one millisecond.
pub const NANOS_PER_MILLI: u128 = 1_000_000;

/// Nanoseconds in one second.
pub const NANOS_PER_SEC: u128 = 1_000_000_000;

/// Nanoseconds in one minute.
pub const NANOS_PER_MINUTE: u128 = 60_000_000_000;

/// A non-negative length of time with nanosecond resolution.
///
/// A `Span` also serves as a reading of a monotonic clock: the time that has
/// passed since an origin that the caller fixes once.
#[derive(Debug, Clone, Copy, PartialEq, Eq, Structural)]
pub struct Span {
    pub nanos: u128,
}

impl View for Span {
    type V = nat;

    /// The span as a number of nanoseconds.
    open spec fn view(&self) -> nat {
        self.nanos as nat
    }
}

impl Span {
    /// The empty span.
    pub fn zero() -> (span: Span)
        ensures
            span@ == 0,
    {
        Span { nanos: 0 }
    }

    /// The span of `nanos` nanoseconds.
    pub fn from_nanos(nanos: u128) -> (span: Span)
        ensures
            span@ == nanos,
    {
        Span { nanos }
    }

    /// The span of `millis` milliseconds.
    pub fn from_millis(millis: u64) -> (span: Span)
        ensures
            span@ == millis * NANOS_PER_MILLI,
    {
        let wide: u128 = millis as u128;
        Span { nanos: wide * NANOS_PER_MILLI }
    }

    /// The span of `secs` seconds.
    pub fn from_secs(secs: u64) -> (span: Span)
        ensures
            span@ == secs * NANOS_PER_SEC,
    {
        let wide: u128 = secs as u128;
        Span { nanos: wide * NANOS_PER_SEC }
    }

    /// The span of `minutes` minutes.
    pub fn from_minutes(minutes: u64) -> (span: Span)
        ensures
            span@ == minutes * NANOS_PER_MINUTE,
    {
        let wide: u128 = minutes as u128;
        Span { nanos: wide * NANOS_PER_MINUTE }
    }

    /// The span as a number of nanoseconds.
    pub fn as_nanos(&self) -> (nanos: u128)
        ensures
            nanos == self@,
    {
        self.nanos
    }

    /// The whole seconds in the span, rounded down.
    pub fn as_secs(&self) -> (secs: u128)
        ensures
            secs == self@ / (NANOS_PER_SEC as nat),
    {
        self.nanos / NANOS_PER_SEC
    }

    /// What is left of the span, in nanoseconds, once its whole seconds are
    /// taken away.
    pub fn subsec_nanos(&self) -> (nanos: u32)
        ensures
            nanos == self@ % (NANOS_PER_SEC as nat),
    {
        (self.nanos % NANOS_PER_SEC) as u32
    }

    /// Whether the span is empty.
    pub fn is_zero(&self) -> (empty: bool)
        ensures
            empty == (self@ == 0),
    {
        self.nanos == 0
    }

    /// Whether this span is at least as long as `other`.
    pub fn covers(&self, other: Span) -> (yes: bool)
        ensures
            yes == (self@ >= other@),
    {
        self.nanos >= other.nanos
    }

    /// This span shortened by `other`, stopping at the empty span.
    pub fn saturating_sub(&self, other: Span) -> (rest: Span)
        ensures
            rest@ == if self@ >= other@ { self@ - other@ } else { 0 },
    {
        if self.nanos >= other.nanos {
            Span { nanos: self.nanos - other.nanos }
        } else {
            Span { nanos: 0 }
        }
    }
}

} // verus!
