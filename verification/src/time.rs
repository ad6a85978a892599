//! Instants and lengths of time, in whole milliseconds.

use vstd::prelude::*;

verus! {

/// A non-negative length of time, in whole milliseconds.
#[derive(Clone, Copy, Debug, PartialEq, Eq, Hash, Structural)]
pub struct Span {
    pub millis: u64,
}

/// An instant, in whole milliseconds since the Unix epoch.
#[derive(Clone, Copy, Debug, PartialEq, Eq, Hash, Structural)]
pub struct Timestamp {
    pub millis: i64,
}

impl View for Span {
    type V = int;

    open spec fn view(&self) -> int {
        self.millis as int
    }
}

impl View for Timestamp {
    type V = int;

    open spec fn view(&self) -> int {
        self.millis as int
    }
}

/// The span of `millis` milliseconds, cut off at both ends of what a `Span`
/// can hold: a negative length becomes zero, one beyond `u64::MAX` becomes
/// `u64::MAX`.
pub open spec fn span_of(millis: int) -> Span {
    if millis <= 0 {
        Span { millis: 0 }
    } else if millis >= u64::MAX as int {
        Span { millis: u64::MAX }
    } else {
        Span { millis: millis as u64 }
    }
}

/// What is left at `now` of a period of `span` that began at `base`.
pub open spec fn remaining(base: Timestamp, span: Span, now: Timestamp) -> Span {
    span_of(base@ + span@ - now@)
}

impl Span {
    pub fn from_millis(millis: u64) -> (span: Span)
        ensures
            span@ == millis,
    {
        Span { millis }
    }

    pub fn from_secs(secs: u32) -> (span: Span)
        ensures
            span@ == secs * 1000,
    {
        let secs: u64 = secs as u64;
        Span { millis: secs * 1000 }
    }

    pub fn from_mins(mins: u32) -> (span: Span)
        ensures
            span@ == mins * 60_000,
    {
        let mins: u64 = mins as u64;
        Span { millis: mins * 60_000 }
    }

    pub fn as_millis(&self) -> (millis: u64)
        ensures
            millis == self@,
    {
        self.millis
    }
}

impl Timestamp {
    pub fn from_millis(millis: i64) -> (at: Timestamp)
        ensures
            at@ == millis,
    {
        Timestamp { millis }
    }

    pub fn as_millis(&self) -> (millis: i64)
        ensures
            millis == self@,
    {
        self.millis
    }

    /// Whether this instant lies strictly after the end of the period of
    /// `span` that began at `base`.
    pub fn is_past(&self, base: Timestamp, span: Span) -> (past: bool)
        ensures
            past == (self@ > base@ + span@),
    {
        let end: i128 = base.millis as i128 + span.millis as i128;
        self.millis as i128 > end
    }

    /// Whether this instant lies strictly before the end of the period of
    /// `span` that began at `base`.
    pub fn is_short_of(&self, base: Timestamp, span: Span) -> (short: bool)
        ensures
            short == (self@ < base@ + span@),
    {
        let end: i128 = base.millis as i128 + span.millis as i128;
        (self.millis as i128) < end
    }

    /// The time from this instant to the end of the period of `span` that
    /// began at `base`.
    pub fn until(&self, base: Timestamp, span: Span) -> (left: Span)
        ensures
            left == remaining(base, span, *self),
    {
        let end: i128 = base.millis as i128 + span.millis as i128;
        let left: i128 = end - self.millis as i128;
        if left <= 0 {
            Span { millis: 0 }
        } else if left >= u64::MAX as i128 {
            Span { millis: u64::MAX }
        } else {
            Span { millis: left as u64 }
        }
    }
}

} // verus!
