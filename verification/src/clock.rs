//! The system clock.

use vstd::prelude::*;
use crate::instant::Instant;

verus! {

/// Days between 0001-01-01 and 1970-01-01 in the proleptic Gregorian calendar.
pub const UNIX_EPOCH_DAY: i64 = 719_163;

/// The second counts whose calendar day, counted from 0001-01-01, fits in an
/// `i32`. Every reading of the system clock lies in this range.
pub open spec fn on_calendar(secs: int) -> bool {
    i32::MIN <= secs / 86_400 + UNIX_EPOCH_DAY <= i32::MAX
}

/// A second count on the calendar leaves room for any `u32` of seconds.
pub proof fn lemma_on_calendar_can_shift(at: Instant, seconds: u32)
    requires
        on_calendar(at.secs as int),
    ensures
        at.can_shift(seconds),
{
}

/// Reads the wall clock with `chrono::Local::now` and returns the reading as
/// its Unix timestamp (`DateTime::timestamp`) and sub-second nanoseconds
/// (`DateTime::timestamp_subsec_nanos`).
///
/// Trusted, not proved: that the second count is on the calendar. chrono
/// builds the reading with `DateTime::from_timestamp`, which only accepts
/// second counts whose day number fits in an `i32`, and `timestamp` gives the
/// same count back. chrono aborts instead of returning when the system clock
/// is set before 1970.
#[verifier::external_body]
pub(crate) fn wall_clock() -> (now: Instant)
    ensures
        on_calendar(now.secs as int),
{
    let now = chrono::Local::now();
    Instant { secs: now.timestamp(), nanos: now.timestamp_subsec_nanos() }
}

} // verus!
