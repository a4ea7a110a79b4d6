//! The host of the timer: it keeps the two lengths the user chose, in minutes
//! and within fixed bounds, hands them to the timer in seconds, and tells the
//! renderer what to draw after each tick.

pub mod app_timer;

use vstd::prelude::*;
use crate::app::app_timer::{Status, Timer, TimerView};
use crate::clock::wall_clock;
use crate::instant::{Instant, Moment};

verus! {

/// Shortest work phase the host offers, in minutes.
pub const MIN_WORKING_TIME: u32 = 25;

/// Longest work phase the host offers, in minutes.
pub const MAX_WORKING_TIME: u32 = 45;

/// Shortest rest phase the host offers, in minutes.
pub const MIN_REST_TIME: u32 = 5;

/// Longest rest phase the host offers, in minutes.
pub const MAX_REST_TIME: u32 = 15;

/// `value` moved into the range from `low` to `high`.
pub open spec fn clamped(value: nat, low: nat, high: nat) -> nat {
    if value < low {
        low
    } else if value > high {
        high
    } else {
        value
    }
}

/// Computes [`clamped`].
fn clamp(value: u32, low: u32, high: u32) -> (within: u32)
    ensures
        within == clamped(value as nat, low as nat, high as nat),
{
    if value < low {
        low
    } else if value > high {
        high
    } else {
        value
    }
}

/// What the renderer draws after a tick.
pub struct Readout {
    /// The label of the phase.
    pub text: String,
    /// Whole minutes left.
    pub minutes: u64,
    /// Seconds left beyond the whole minutes.
    pub seconds: u64,
    /// When the running phase is due to end; `None` unless a timed phase runs.
    pub finish_time: Option<Instant>,
}

/// The mathematical model of a [`Readout`].
pub struct ReadoutView {
    pub text: Seq<char>,
    pub minutes: nat,
    pub seconds: nat,
    pub finish_time: Option<Moment>,
}

impl View for Readout {
    type V = ReadoutView;

    open spec fn view(&self) -> ReadoutView {
        ReadoutView {
            text: self.text@,
            minutes: self.minutes as nat,
            seconds: self.seconds as nat,
            finish_time: match self.finish_time {
                Some(at) => Some(at@),
                None => None,
            },
        }
    }
}

impl ReadoutView {
    /// The readout of a timer: its label, its seconds left split into minutes
    /// and seconds, and its deadline while a timed phase runs.
    pub open spec fn of(timer: TimerView) -> ReadoutView {
        ReadoutView {
            text: timer.text,
            minutes: timer.time / 60,
            seconds: timer.time % 60,
            finish_time: if timer.status.is_timed() {
                Some(timer.finished_at)
            } else {
                None
            },
        }
    }
}

/// The mathematical model of a [`TemplateApp`].
pub struct TemplateAppView {
    /// Chosen length of a rest phase, in minutes.
    pub rest_time: nat,
    /// Chosen length of a work phase, in minutes.
    pub working_time: nat,
    /// The timer.
    pub timer: TimerView,
}

impl TemplateAppView {
    /// Both lengths are within the bounds the host offers.
    pub open spec fn wf(self) -> bool {
        &&& MIN_WORKING_TIME <= self.working_time <= MAX_WORKING_TIME
        &&& MIN_REST_TIME <= self.rest_time <= MAX_REST_TIME
    }

    /// The chosen work length in seconds.
    pub open spec fn working_seconds(self) -> nat {
        self.working_time * 60
    }

    /// The chosen rest length in seconds.
    pub open spec fn rest_seconds(self) -> nat {
        self.rest_time * 60
    }
}

/// The two lengths the user chose, in minutes, each within its bounds.
#[derive(Clone, Copy, Debug)]
pub struct Settings {
    working_time: u32,
    rest_time: u32,
}

impl Settings {
    #[verifier::type_invariant]
    spec fn within_bounds(self) -> bool {
        &&& MIN_WORKING_TIME <= self.working_time <= MAX_WORKING_TIME
        &&& MIN_REST_TIME <= self.rest_time <= MAX_REST_TIME
    }

    /// The chosen work length, in minutes.
    pub closed spec fn spec_working_time(self) -> nat {
        self.working_time as nat
    }

    /// The chosen rest length, in minutes.
    pub closed spec fn spec_rest_time(self) -> nat {
        self.rest_time as nat
    }

    /// The settings for the given minutes, each moved into its bounds: 25 to
    /// 45 for work, 5 to 15 for rest.
    pub fn new(working_time: u32, rest_time: u32) -> (settings: Settings)
        ensures
            settings.spec_working_time() == clamped(
                working_time as nat,
                MIN_WORKING_TIME as nat,
                MAX_WORKING_TIME as nat,
            ),
            settings.spec_rest_time() == clamped(
                rest_time as nat,
                MIN_REST_TIME as nat,
                MAX_REST_TIME as nat,
            ),
    {
        Settings {
            working_time: clamp(working_time, MIN_WORKING_TIME, MAX_WORKING_TIME),
            rest_time: clamp(rest_time, MIN_REST_TIME, MAX_REST_TIME),
        }
    }

    /// The chosen work length, in minutes: always from 25 to 45.
    pub fn working_time(&self) -> (minutes: u32)
        ensures
            minutes == self.spec_working_time(),
            MIN_WORKING_TIME <= minutes <= MAX_WORKING_TIME,
    {
        proof {
            use_type_invariant(self);
        }
        self.working_time
    }

    /// The chosen rest length, in minutes: always from 5 to 15.
    pub fn rest_time(&self) -> (minutes: u32)
        ensures
            minutes == self.spec_rest_time(),
            MIN_REST_TIME <= minutes <= MAX_REST_TIME,
    {
        proof {
            use_type_invariant(self);
        }
        self.rest_time
    }
}

/// A timer together with the lengths its user chose.
pub struct TemplateApp {
    settings: Settings,
    timer: Timer,
}

impl View for TemplateApp {
    type V = TemplateAppView;

    closed spec fn view(&self) -> TemplateAppView {
        TemplateAppView {
            rest_time: self.settings.spec_rest_time(),
            working_time: self.settings.spec_working_time(),
            timer: self.timer@,
        }
    }
}

impl Default for TemplateApp {
    /// A host with the shortest lengths, 25 minutes of work and 5 of rest, and
    /// a timer created now.
    fn default() -> (app: TemplateApp)
        ensures
            app@.working_time == MIN_WORKING_TIME,
            app@.rest_time == MIN_REST_TIME,
            app@.timer == TimerView::created(app@.timer.started_at),
            app@.wf(),
    {
        TemplateApp { settings: Settings::new(MIN_WORKING_TIME, MIN_REST_TIME), timer: Timer::new() }
    }
}

impl TemplateApp {
    /// A host with the shortest lengths and a timer created at `now`.
    pub fn created_at(now: Instant) -> (app: TemplateApp)
        ensures
            app@.working_time == MIN_WORKING_TIME,
            app@.rest_time == MIN_REST_TIME,
            app@.timer == TimerView::created(now@),
            app@.wf(),
    {
        TemplateApp {
            settings: Settings::new(MIN_WORKING_TIME, MIN_REST_TIME),
            timer: Timer::created_at(now),
        }
    }

    /// Takes the lengths the user chose, in minutes, each moved into its
    /// bounds: 25 to 45 for work, 5 to 15 for rest. The timer is left alone.
    pub fn set_times(&mut self, working_time: u32, rest_time: u32)
        ensures
            final(self)@.working_time == clamped(
                working_time as nat,
                MIN_WORKING_TIME as nat,
                MAX_WORKING_TIME as nat,
            ),
            final(self)@.rest_time == clamped(
                rest_time as nat,
                MIN_REST_TIME as nat,
                MAX_REST_TIME as nat,
            ),
            final(self)@.timer == old(self)@.timer,
            final(self)@.wf(),
    {
        self.settings = Settings::new(working_time, rest_time);
    }

    /// The chosen work length, in minutes.
    pub fn working_time(&self) -> (minutes: u32)
        ensures
            minutes == self@.working_time,
            self@.wf(),
    {
        proof {
            use_type_invariant(&self.settings);
        }
        self.settings.working_time()
    }

    /// The chosen rest length, in minutes.
    pub fn rest_time(&self) -> (minutes: u32)
        ensures
            minutes == self@.rest_time,
            self@.wf(),
    {
        proof {
            use_type_invariant(&self.settings);
        }
        self.settings.rest_time()
    }

    /// The timer.
    pub fn timer(&self) -> (timer: &Timer)
        ensures
            timer@ == self@.timer,
    {
        &self.timer
    }

    /// Configures the timer with the chosen lengths, turned into seconds.
    pub fn setup(&mut self)
        ensures
            final(self)@.timer == old(self)@.timer.configured(
                old(self)@.working_seconds(),
                old(self)@.rest_seconds(),
            ),
            final(self)@.working_time == old(self)@.working_time,
            final(self)@.rest_time == old(self)@.rest_time,
            final(self)@.wf(),
    {
        let working_time: u32 = self.settings.working_time();
        let rest_time: u32 = self.settings.rest_time();
        self.timer.setup(working_time * 60, rest_time * 60);
    }

    /// One frame, timed by the system clock: see [`TemplateApp::update_at`].
    pub fn update(&mut self) -> (readout: Readout)
        ensures
            exists|now: Moment| final(self)@.timer == old(self)@.timer.advanced(now),
            readout@ == ReadoutView::of(final(self)@.timer),
            final(self)@.working_time == old(self)@.working_time,
            final(self)@.rest_time == old(self)@.rest_time,
            final(self)@.wf(),
    {
        let now = wall_clock();
        self.update_at(now)
    }

    /// One frame at `now`: ticks the timer and tells what to draw.
    pub fn update_at(&mut self, now: Instant) -> (readout: Readout)
        ensures
            final(self)@.timer == old(self)@.timer.advanced(now@),
            readout@ == ReadoutView::of(final(self)@.timer),
            final(self)@.working_time == old(self)@.working_time,
            final(self)@.rest_time == old(self)@.rest_time,
            final(self)@.wf(),
    {
        proof {
            use_type_invariant(&self.settings);
        }
        self.timer.advance_clock(now);
        self.readout()
    }

    /// What to draw for the timer as it stands.
    pub fn readout(&self) -> (readout: Readout)
        ensures
            readout@ == ReadoutView::of(self@.timer),
    {
        let (text, time) = self.timer.display();
        let finish_time = match self.timer.status() {
            Status::Working | Status::Relaxing => Some(self.timer.finished_at()),
            _ => None,
        };
        Readout { text, minutes: time / 60, seconds: time % 60, finish_time }
    }

    /// The user's "Next", timed by the system clock: see
    /// [`TemplateApp::next_at`].
    pub fn next(&mut self)
        ensures
            final(self)@.timer == old(self)@.timer.stepped(
                final(self)@.timer.started_at,
                old(self)@.working_seconds(),
                old(self)@.rest_seconds(),
            ),
            final(self)@.working_time == old(self)@.working_time,
            final(self)@.rest_time == old(self)@.rest_time,
            final(self)@.wf(),
    {
        let working_time: u32 = self.settings.working_time();
        let rest_time: u32 = self.settings.rest_time();
        self.timer.next(working_time * 60, rest_time * 60);
    }

    /// The user's "Next" at `now`: steps the timer to its next phase with the
    /// chosen lengths, turned into seconds.
    pub fn next_at(&mut self, now: Instant)
        requires
            old(self)@.timer.can_step(
                now@,
                old(self)@.working_seconds(),
                old(self)@.rest_seconds(),
            ),
        ensures
            final(self)@.timer == old(self)@.timer.stepped(
                now@,
                old(self)@.working_seconds(),
                old(self)@.rest_seconds(),
            ),
            final(self)@.working_time == old(self)@.working_time,
            final(self)@.rest_time == old(self)@.rest_time,
            final(self)@.wf(),
    {
        let working_time: u32 = self.settings.working_time();
        let rest_time: u32 = self.settings.rest_time();
        self.timer.request_next_phase(now, working_time * 60, rest_time * 60);
    }
}

} // verus!
