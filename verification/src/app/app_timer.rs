//! The interval timer: four phases walked in a fixed cycle, two of them timed.

use vstd::prelude::*;
use crate::clock::{lemma_on_calendar_can_shift, on_calendar, wall_clock};
use crate::instant::{Instant, Moment};

verus! {

/// The phase a timer is in.
///
/// The phases form one cycle, `Ready → Working → Finished → Relaxing → Ready`,
/// and a timer never moves along any other edge.
#[derive(Debug, PartialEq, Eq, Structural, Clone, Copy)]
pub enum Status {
    Ready,
    Working,
    Finished,
    Relaxing,
}

impl Status {
    /// The phase that follows `self` in the cycle.
    pub open spec fn successor(self) -> Status {
        match self {
            Status::Ready => Status::Working,
            Status::Working => Status::Finished,
            Status::Finished => Status::Relaxing,
            Status::Relaxing => Status::Ready,
        }
    }

    /// Whether the phase has a duration of its own and ends by itself.
    pub open spec fn is_timed(self) -> bool {
        self == Status::Working || self == Status::Relaxing
    }

    /// The text shown for the phase.
    pub open spec fn label(self) -> Seq<char> {
        match self {
            Status::Ready => "Ready"@,
            Status::Working => "Working"@,
            Status::Finished => "Finished"@,
            Status::Relaxing => "Relax"@,
        }
    }

    /// How long the phase lasts, given the two configured lengths: the work
    /// length for `Working`, the rest length for `Relaxing`, nothing otherwise.
    pub open spec fn span(self, working_time: nat, rest_time: nat) -> nat {
        match self {
            Status::Working => working_time,
            Status::Relaxing => rest_time,
            _ => 0,
        }
    }

    /// Computes [`Status::successor`].
    pub fn next(self) -> (following: Status)
        ensures
            following == self.successor(),
    {
        match self {
            Status::Ready => Status::Working,
            Status::Working => Status::Finished,
            Status::Finished => Status::Relaxing,
            Status::Relaxing => Status::Ready,
        }
    }

    /// The text shown for the phase, as an owned string.
    pub fn text(self) -> (text: String)
        ensures
            text@ == self.label(),
    {
        match self {
            Status::Ready => "Ready".to_owned(),
            Status::Working => "Working".to_owned(),
            Status::Finished => "Finished".to_owned(),
            Status::Relaxing => "Relax".to_owned(),
        }
    }
}

/// The mathematical model of a [`Timer`].
pub struct TimerView {
    /// Configured length of a work phase, in seconds.
    pub working_time: nat,
    /// Configured length of a rest phase, in seconds.
    pub rest_time: nat,
    /// Seconds left as of the latest tick.
    pub time: nat,
    /// The current phase.
    pub status: Status,
    /// The label as of the latest tick.
    pub text: Seq<char>,
    /// When the current phase began.
    pub started_at: Moment,
    /// When the current phase is due to end; equal to `started_at` in an
    /// untimed phase.
    pub finished_at: Moment,
}

impl TimerView {
    /// A timer just created at `now`: ready, nothing configured, nothing shown.
    pub open spec fn created(now: Moment) -> TimerView {
        TimerView {
            working_time: 0,
            rest_time: 0,
            time: 0,
            status: Status::Ready,
            text: Seq::empty(),
            started_at: now,
            finished_at: now,
        }
    }

    /// The timer after its two lengths were set: back in `Ready`, everything
    /// else as it was.
    pub open spec fn configured(self, working_time: nat, rest_time: nat) -> TimerView {
        TimerView { working_time, rest_time, status: Status::Ready, ..self }
    }

    /// Whether a tick at `now` finds the current phase run out.
    pub open spec fn expires(self, now: Moment) -> bool {
        self.status.is_timed() && now.at_or_after(self.finished_at)
    }

    /// The seconds a tick at `now` shows: the work length while ready, the
    /// whole seconds up to the deadline in a timed phase, zero when finished.
    pub open spec fn remaining(self, now: Moment) -> nat {
        match self.status {
            Status::Ready => self.working_time,
            Status::Finished => 0,
            _ => now.seconds_until(self.finished_at),
        }
    }

    /// The timer after a tick at `now`: the display is recomputed for the
    /// phase the tick found, and a timed phase that has run out gives way to
    /// its successor. Lengths and schedule are untouched.
    pub open spec fn advanced(self, now: Moment) -> TimerView {
        TimerView {
            time: self.remaining(now),
            text: self.status.label(),
            status: if self.expires(now) {
                self.status.successor()
            } else {
                self.status
            },
            ..self
        }
    }

    /// The timer after a manual step at `now` with the lengths given anew:
    /// one phase further, started at `now` and due after the new phase's span.
    /// The display is left for the next tick.
    pub open spec fn stepped(self, now: Moment, working_time: nat, rest_time: nat) -> TimerView {
        let status = self.status.successor();
        TimerView {
            working_time,
            rest_time,
            status,
            started_at: now,
            finished_at: now.later_by(status.span(working_time, rest_time) as int),
            ..self
        }
    }

    /// What the timer shows: the label and the seconds left, both as of the
    /// latest tick.
    pub open spec fn shown(self) -> (Seq<char>, nat) {
        (self.text, self.time)
    }

    /// The schedule is sound: a timed phase never ends before it began.
    pub open spec fn wf(self) -> bool {
        self.status.is_timed() ==> self.finished_at.at_or_after(self.started_at)
    }

    /// Whether a manual step at `now` with these lengths keeps the deadline
    /// within the second counter of an [`Instant`].
    pub open spec fn can_step(self, now: Moment, working_time: nat, rest_time: nat) -> bool {
        now.secs + self.status.successor().span(working_time, rest_time) <= i64::MAX
    }
}

/// A work/rest interval timer.
pub struct Timer {
    working_time: u32,
    rest_time: u32,
    time: u64,
    status: Status,
    text: String,
    started_at: Instant,
    finished_at: Instant,
}

impl View for Timer {
    type V = TimerView;

    closed spec fn view(&self) -> TimerView {
        TimerView {
            working_time: self.working_time as nat,
            rest_time: self.rest_time as nat,
            time: self.time as nat,
            status: self.status,
            text: self.text@,
            started_at: self.started_at@,
            finished_at: self.finished_at@,
        }
    }
}

impl Timer {
    /// A timer created at the instant the system clock reads, which is on the calendar.
    pub fn new() -> (timer: Timer)
        ensures
            timer@ == TimerView::created(timer@.started_at),
            on_calendar(timer@.started_at.secs),
            timer@.wf(),
    {
        Timer::created_at(wall_clock())
    }

    /// A timer created at `now`.
    pub fn created_at(now: Instant) -> (timer: Timer)
        ensures
            timer@ == TimerView::created(now@),
            timer@.wf(),
    {
        Timer {
            working_time: 0,
            rest_time: 0,
            time: 0,
            status: Status::Ready,
            text: String::new(),
            started_at: now,
            finished_at: now,
        }
    }

    /// Sets the work and rest lengths, in seconds, and returns to `Ready`.
    pub fn setup(&mut self, worktime: u32, resttime: u32)
        ensures
            final(self)@ == old(self)@.configured(worktime as nat, resttime as nat),
            final(self)@.wf(),
    {
        self.working_time = worktime;
        self.rest_time = resttime;
        self.status = Status::Ready;
    }

    /// One tick, timed by the system clock: see [`Timer::advance_clock`].
    pub fn processing(&mut self)
        ensures
            exists|now: Moment| final(self)@ == old(self)@.advanced(now),
            old(self)@.wf() ==> final(self)@.wf(),
    {
        let now = wall_clock();
        self.advance_clock(now);
    }

    /// One tick at `now`: recomputes the seconds left and the label, and ends
    /// a timed phase whose deadline `now` has reached.
    pub fn advance_clock(&mut self, now: Instant)
        ensures
            final(self)@ == old(self)@.advanced(now@),
            old(self)@.wf() ==> final(self)@.wf(),
    {
        self.text = self.status.text();
        match self.status {
            Status::Ready => {
                self.time = self.working_time as u64;
            },
            Status::Finished => {
                self.time = 0;
            },
            Status::Working | Status::Relaxing => {
                self.time = now.seconds_until(&self.finished_at);
                if now.has_reached(&self.finished_at) {
                    self.status = self.status.next();
                }
            },
        }
    }

    /// One manual step, timed by the system clock: see
    /// [`Timer::request_next_phase`].
    pub fn next(&mut self, worktime: u32, resttime: u32)
        ensures
            final(self)@ == old(self)@.stepped(
                final(self)@.started_at,
                worktime as nat,
                resttime as nat,
            ),
            final(self)@.wf(),
    {
        let now = wall_clock();
        proof {
            lemma_on_calendar_can_shift(now, worktime);
            lemma_on_calendar_can_shift(now, resttime);
        }
        self.request_next_phase(now, worktime, resttime);
    }

    /// One manual step at `now`: takes the lengths anew, moves to the next
    /// phase of the cycle whatever time is left, and schedules that phase
    /// from `now`.
    pub fn request_next_phase(&mut self, now: Instant, worktime: u32, resttime: u32)
        requires
            old(self)@.can_step(now@, worktime as nat, resttime as nat),
        ensures
            final(self)@ == old(self)@.stepped(now@, worktime as nat, resttime as nat),
            final(self)@.wf(),
    {
        self.working_time = worktime;
        self.rest_time = resttime;
        self.status = self.status.next();
        self.started_at = now;
        self.finished_at = match self.status {
            Status::Working => now.after_seconds(worktime),
            Status::Relaxing => now.after_seconds(resttime),
            _ => now,
        };
    }

    /// The current phase.
    pub fn status(&self) -> (status: Status)
        ensures
            status == self@.status,
    {
        self.status
    }

    /// The seconds left, as the latest tick computed them.
    pub fn time(&self) -> (time: u64)
        ensures
            time == self@.time,
    {
        self.time
    }

    /// The label, as the latest tick computed it.
    pub fn text(&self) -> (text: &str)
        ensures
            text@ == self@.text,
    {
        self.text.as_str()
    }

    /// The configured length of a work phase, in seconds.
    pub fn working_time(&self) -> (seconds: u32)
        ensures
            seconds == self@.working_time,
    {
        self.working_time
    }

    /// The configured length of a rest phase, in seconds.
    pub fn rest_time(&self) -> (seconds: u32)
        ensures
            seconds == self@.rest_time,
    {
        self.rest_time
    }

    /// When the current phase began.
    pub fn started_at(&self) -> (at: Instant)
        ensures
            at@ == self@.started_at,
    {
        self.started_at
    }

    /// When the current phase is due to end.
    pub fn finished_at(&self) -> (at: Instant)
        ensures
            at@ == self@.finished_at,
    {
        self.finished_at
    }

    /// The label and the seconds left, as the latest tick computed them.
    pub fn display(&self) -> (shown: (String, u64))
        ensures
            (shown.0@, shown.1 as nat) == self@.shown(),
    {
        (self.text.clone(), self.time)
    }
}

} // verus!
