//! Points in time, as whole seconds since the Unix epoch plus a sub-second part.

use vstd::prelude::*;

verus! {

/// A wall-clock instant: seconds since 1970-01-01T00:00:00Z and the
/// nanoseconds past that second.
#[derive(Clone, Copy, PartialEq, Eq, Structural, Debug)]
pub struct Instant {
    pub secs: i64,
    pub nanos: u32,
}

/// The mathematical value of an [`Instant`]: the same pair without machine
/// bounds, so that shifting a moment never overflows.
pub struct Moment {
    pub secs: int,
    pub nanos: int,
}

impl Moment {
    /// `self` is not earlier than `other`: seconds decide, nanoseconds break ties.
    pub open spec fn at_or_after(self, other: Moment) -> bool {
        self.secs > other.secs || (self.secs == other.secs && self.nanos >= other.nanos)
    }

    /// The moment `seconds` whole seconds after `self`.
    pub open spec fn later_by(self, seconds: int) -> Moment {
        Moment { secs: self.secs + seconds, nanos: self.nanos }
    }

    /// Whole seconds on the clock face between `self` and `deadline`:
    /// the difference of the two second counts, never below zero.
    pub open spec fn seconds_until(self, deadline: Moment) -> nat {
        if deadline.secs > self.secs {
            (deadline.secs - self.secs) as nat
        } else {
            0
        }
    }
}

impl View for Instant {
    type V = Moment;

    open spec fn view(&self) -> Moment {
        Moment { secs: self.secs as int, nanos: self.nanos as int }
    }
}

impl Instant {
    /// Whether shifting this instant `seconds` into the future still fits the
    /// second counter.
    pub open spec fn can_shift(self, seconds: u32) -> bool {
        self.secs + seconds <= i64::MAX
    }

    /// Tells whether this instant is at or past `deadline`.
    pub fn has_reached(&self, deadline: &Instant) -> (reached: bool)
        ensures
            reached == self@.at_or_after(deadline@),
    {
        self.secs > deadline.secs || (self.secs == deadline.secs && self.nanos >= deadline.nanos)
    }

    /// The instant `seconds` whole seconds after this one.
    pub fn after_seconds(&self, seconds: u32) -> (later: Instant)
        requires
            self.can_shift(seconds),
        ensures
            later@ == self@.later_by(seconds as int),
    {
        Instant { secs: self.secs + (seconds as i64), nanos: self.nanos }
    }

    /// Whole seconds left until `deadline`, zero once its second has come.
    pub fn seconds_until(&self, deadline: &Instant) -> (left: u64)
        ensures
            left == self@.seconds_until(deadline@),
    {
        if deadline.secs > self.secs {
            let gap: i128 = (deadline.secs as i128) - (self.secs as i128);
            gap as u64
        } else {
            0
        }
    }
}

} // verus!
