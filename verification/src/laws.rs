//! What holds of the timer whatever the clock reads, stated over its model.

use vstd::prelude::*;
use crate::app::app_timer::{Status, TimerView};
use crate::instant::Moment;

verus! {

/// The timer after each of `ticks` in turn.
pub open spec fn ticked(timer: TimerView, ticks: Seq<Moment>) -> TimerView
    decreases ticks.len(),
{
    if ticks.len() == 0 {
        timer
    } else {
        ticked(timer, ticks.drop_last()).advanced(ticks.last())
    }
}

/// None of `ticks` is at or past `deadline`.
pub open spec fn all_before(ticks: Seq<Moment>, deadline: Moment) -> bool {
    forall|i: int| 0 <= i < ticks.len() ==> !(#[trigger] ticks[i]).at_or_after(deadline)
}

/// A timer that was just configured shows, at its first tick, the whole work
/// length under the label "Ready", and stays ready.
pub proof fn lemma_ready_shows_work_length(
    timer: TimerView,
    working_time: nat,
    rest_time: nat,
    now: Moment,
)
    ensures
        timer.configured(working_time, rest_time).advanced(now).time == working_time,
        timer.configured(working_time, rest_time).advanced(now).text == "Ready"@,
        timer.configured(working_time, rest_time).advanced(now).status == Status::Ready,
{
}

/// While working, a tick that is not earlier than the one before never shows
/// more seconds than that one did; a tick at or past the deadline shows zero.
pub proof fn lemma_work_countdown_never_rises(timer: TimerView, first: Moment, second: Moment)
    requires
        timer.status == Status::Working,
        second.at_or_after(first),
    ensures
        timer.advanced(first).advanced(second).time <= timer.advanced(first).time,
        first.at_or_after(timer.finished_at) ==> timer.advanced(first).time == 0,
{
}

/// While relaxing, and as long as the rest has not run out, a tick that is
/// not earlier than the one before never shows more seconds than that one did.
pub proof fn lemma_rest_countdown_never_rises(timer: TimerView, first: Moment, second: Moment)
    requires
        timer.status == Status::Relaxing,
        !first.at_or_after(timer.finished_at),
        second.at_or_after(first),
    ensures
        timer.advanced(first).advanced(second).time <= timer.advanced(first).time,
        second.at_or_after(timer.finished_at) ==> timer.advanced(first).advanced(second).time == 0,
{
}

/// A tick at or past the deadline of a work phase ends it, showing zero; the
/// timer then stays finished through any further tick.
pub proof fn lemma_expired_work_finishes_once(timer: TimerView, now: Moment, later: Moment)
    requires
        timer.status == Status::Working,
        now.at_or_after(timer.finished_at),
    ensures
        timer.advanced(now).status == Status::Finished,
        timer.advanced(now).time == 0,
        timer.advanced(now).advanced(later).status == Status::Finished,
        timer.advanced(now).advanced(later).time == 0,
{
}

/// A tick at or past the deadline of a rest phase makes the timer ready
/// again; further ticks leave it ready and show the work length.
pub proof fn lemma_expired_rest_readies_once(timer: TimerView, now: Moment, later: Moment)
    requires
        timer.status == Status::Relaxing,
        now.at_or_after(timer.finished_at),
    ensures
        timer.advanced(now).status == Status::Ready,
        timer.advanced(now).time == 0,
        timer.advanced(now).advanced(later).status == Status::Ready,
        timer.advanced(now).advanced(later).time == timer.working_time,
{
}

/// A tick changes nothing but the display and, at most, moves one phase on:
/// it leaves the phase alone unless that phase is timed and has run out.
pub proof fn lemma_tick_moves_one_phase_at_most(timer: TimerView, now: Moment)
    ensures
        timer.advanced(now).status == if timer.expires(now) {
            timer.status.successor()
        } else {
            timer.status
        },
        timer.advanced(now).working_time == timer.working_time,
        timer.advanced(now).rest_time == timer.rest_time,
        timer.advanced(now).started_at == timer.started_at,
        timer.advanced(now).finished_at == timer.finished_at,
{
}

/// A tick that ends no phase, repeated at the same moment, changes nothing more.
pub proof fn lemma_tick_repeats(timer: TimerView, now: Moment)
    requires
        !timer.expires(now),
    ensures
        timer.advanced(now).advanced(now) == timer.advanced(now),
{
}

/// Whenever a tick leaves the timer finished, it shows zero seconds.
pub proof fn lemma_finished_shows_zero(timer: TimerView, now: Moment)
    requires
        timer.advanced(now).status == Status::Finished,
    ensures
        timer.advanced(now).time == 0,
{
}

/// Reading the display changes nothing, so two readings in a row, with no
/// tick or step between them, agree.
pub proof fn lemma_display_repeats(
    timer: TimerView,
    first: (Seq<char>, nat),
    second: (Seq<char>, nat),
)
    requires
        first == timer.shown(),
        second == timer.shown(),
    ensures
        first == second,
        first == (timer.text, timer.time),
{
}

/// A manual step moves exactly one phase on, whatever time was left, starts
/// the new phase at `now` and sets its deadline by the lengths just given.
pub proof fn lemma_step_schedules_next_phase(
    timer: TimerView,
    now: Moment,
    working_time: nat,
    rest_time: nat,
)
    ensures
        ({
            let next = timer.stepped(now, working_time, rest_time);
            &&& next.status == timer.status.successor()
            &&& next.started_at == now
            &&& timer.status == Status::Ready ==> next.finished_at == now.later_by(
                working_time as int,
            )
            &&& timer.status == Status::Finished ==> next.finished_at == now.later_by(
                rest_time as int,
            )
            &&& !next.status.is_timed() ==> next.finished_at == now
            &&& next.time == timer.time
            &&& next.text == timer.text
        }),
{
}

/// The schedule stays sound: creating, configuring and stepping a timer give
/// a sound schedule, and a tick keeps one.
pub proof fn lemma_schedule_stays_sound(
    timer: TimerView,
    now: Moment,
    working_time: nat,
    rest_time: nat,
)
    ensures
        TimerView::created(now).wf(),
        timer.configured(working_time, rest_time).wf(),
        timer.stepped(now, working_time, rest_time).wf(),
        timer.wf() ==> timer.advanced(now).wf(),
{
}

/// Ticks that all come before the deadline of a timed phase, or that fall in
/// an untimed phase, leave phase, lengths and schedule as they were.
pub proof fn lemma_early_ticks_keep_phase(timer: TimerView, ticks: Seq<Moment>)
    requires
        timer.status.is_timed() ==> all_before(ticks, timer.finished_at),
    ensures
        ticked(timer, ticks).status == timer.status,
        ticked(timer, ticks).working_time == timer.working_time,
        ticked(timer, ticks).rest_time == timer.rest_time,
        ticked(timer, ticks).started_at == timer.started_at,
        ticked(timer, ticks).finished_at == timer.finished_at,
    decreases ticks.len(),
{
    if ticks.len() > 0 {
        let earlier = ticks.drop_last();
        assert forall|i: int| 0 <= i < earlier.len() implies earlier[i] == ticks[i] by {}
        lemma_early_ticks_keep_phase(timer, earlier);
        assert(ticks.last() == ticks[ticks.len() - 1]);
    }
}

/// Four manual steps from `Ready` lead back to `Ready`, through `Working`,
/// `Finished` and `Relaxing` in turn, whatever lengths each step brings and
/// however many ticks fall between the steps, as long as no tick finds the
/// work or the rest phase run out (such a tick moves the timer on by itself).
pub proof fn lemma_four_steps_close_cycle(
    timer: TimerView,
    starts: (Moment, Moment, Moment, Moment),
    working_times: (nat, nat, nat, nat),
    rest_times: (nat, nat, nat, nat),
    work_ticks: Seq<Moment>,
    pause_ticks: Seq<Moment>,
    rest_ticks: Seq<Moment>,
)
    requires
        timer.status == Status::Ready,
        all_before(work_ticks, starts.0.later_by(working_times.0 as int)),
        all_before(rest_ticks, starts.2.later_by(rest_times.2 as int)),
    ensures
        ({
            let working = ticked(
                timer.stepped(starts.0, working_times.0, rest_times.0),
                work_ticks,
            );
            let finished = ticked(
                working.stepped(starts.1, working_times.1, rest_times.1),
                pause_ticks,
            );
            let relaxing = ticked(
                finished.stepped(starts.2, working_times.2, rest_times.2),
                rest_ticks,
            );
            let ready = relaxing.stepped(starts.3, working_times.3, rest_times.3);
            &&& working.status == Status::Working
            &&& finished.status == Status::Finished
            &&& relaxing.status == Status::Relaxing
            &&& ready.status == Status::Ready
        }),
{
    let working = timer.stepped(starts.0, working_times.0, rest_times.0);
    lemma_early_ticks_keep_phase(working, work_ticks);
    let finished = ticked(working, work_ticks).stepped(starts.1, working_times.1, rest_times.1);
    lemma_early_ticks_keep_phase(finished, pause_ticks);
    let relaxing = ticked(finished, pause_ticks).stepped(starts.2, working_times.2, rest_times.2);
    lemma_early_ticks_keep_phase(relaxing, rest_ticks);
}

} // verus!
