//! Time as the state machines of the shell see it: points on a clock
//! that only goes forward, and lengths of time, both in nanoseconds.

use vstd::prelude::*;

verus! {

/// A length of time in nanoseconds.
#[derive(Debug, Clone, Copy, PartialEq, Eq, PartialOrd, Ord, Hash, Structural)]
pub struct Span {
    pub nanos: u64,
}

/// A point in time: nanoseconds from where the clock started. Points
/// before the start have negative numbers.
#[derive(Debug, Clone, Copy, PartialEq, Eq, PartialOrd, Ord, Hash, Structural)]
pub struct Moment {
    pub nanos: i64,
}

/// The time from `earlier` to `later`, and none where `earlier` is
/// the later of the two.
pub open spec fn elapsed(later: Moment, earlier: Moment) -> nat {
    if later.nanos >= earlier.nanos {
        (later.nanos - earlier.nanos) as nat
    } else {
        0
    }
}

impl Span {
    /// No time at all.
    pub fn zero() -> (span: Span)
        ensures
            span.nanos == 0,
    {
        Span { nanos: 0 }
    }

    /// A length of time in nanoseconds.
    pub fn from_nanos(nanos: u64) -> (span: Span)
        ensures
            span.nanos == nanos,
    {
        Span { nanos }
    }

    /// A length of time in milliseconds, as far as the nanoseconds fit.
    pub fn from_millis(millis: u64) -> (span: Span)
        ensures
            span.nanos == if millis * 1_000_000 <= u64::MAX {
                millis * 1_000_000
            } else {
                u64::MAX as int
            },
    {
        if millis <= u64::MAX / 1_000_000 {
            Span { nanos: millis * 1_000_000 }
        } else {
            Span { nanos: u64::MAX }
        }
    }

    /// A length of time in seconds, as far as the nanoseconds fit.
    pub fn from_secs(secs: u64) -> (span: Span)
        ensures
            span.nanos == if secs * 1_000_000_000 <= u64::MAX {
                secs * 1_000_000_000
            } else {
                u64::MAX as int
            },
    {
        if secs <= u64::MAX / 1_000_000_000 {
            Span { nanos: secs * 1_000_000_000 }
        } else {
            Span { nanos: u64::MAX }
        }
    }

    /// The whole seconds of the span.
    pub fn as_secs(self) -> (secs: u64)
        ensures
            secs == self.nanos / 1_000_000_000,
    {
        self.nanos / 1_000_000_000
    }

    /// The whole milliseconds of the span.
    pub fn as_millis(self) -> (millis: u64)
        ensures
            millis == self.nanos / 1_000_000,
    {
        self.nanos / 1_000_000
    }
}

impl Moment {
    /// The point `nanos` nanoseconds from the start of the clock.
    pub fn from_nanos(nanos: i64) -> (moment: Moment)
        ensures
            moment.nanos == nanos,
    {
        Moment { nanos }
    }

    /// The time that has passed since `earlier`, and none where
    /// `earlier` is the later of the two.
    pub fn since(self, earlier: Moment) -> (span: Span)
        ensures
            span.nanos == elapsed(self, earlier),
    {
        if self.nanos >= earlier.nanos {
            let d: i128 = self.nanos as i128 - earlier.nanos as i128;
            Span { nanos: d as u64 }
        } else {
            Span { nanos: 0 }
        }
    }

    /// The point `span` after this one.
    pub fn later(self, span: Span) -> (moment: Moment)
        requires
            self.nanos + span.nanos <= i64::MAX,
        ensures
            moment.nanos == self.nanos + span.nanos,
    {
        let n: i128 = self.nanos as i128 + span.nanos as i128;
        Moment { nanos: n as i64 }
    }

    /// The point `span` before this one.
    pub fn earlier(self, span: Span) -> (moment: Moment)
        requires
            self.nanos - span.nanos >= i64::MIN,
        ensures
            moment.nanos == self.nanos - span.nanos,
    {
        let n: i128 = self.nanos as i128 - span.nanos as i128;
        Moment { nanos: n as i64 }
    }
}

} // verus!
