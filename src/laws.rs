//! What holds of every stopwatch, whatever its clock reads.
use crate::duration::capped_sum;
use crate::instant::{span, Instant};
use crate::stopwatch::{Step, SwView};
use vstd::prelude::*;

verus! {

/// A single call never lowers the elapsed time, and keeps it within what a
/// `Duration` can hold.
pub proof fn step_never_decreases<I: Instant>(v: SwView<I>, step: Step<I>)
    requires
        v.valid(),
    ensures
        v.elapsed <= v.after(step).elapsed,
        v.after(step).valid(),
{
}

/// Any sequence of calls keeps a valid state valid.
proof fn run_stays_valid<I: Instant>(v: SwView<I>, steps: Seq<Step<I>>)
    requires
        v.valid(),
    ensures
        v.run(steps).valid(),
    decreases steps.len(),
{
    if steps.len() > 0 {
        run_stays_valid(v, steps.drop_last());
        step_never_decreases(v.run(steps.drop_last()), steps.last());
    }
}

/// Over any sequence of starts and stops, the elapsed time after a longer
/// prefix of the calls is never less than after a shorter one.
pub proof fn elapsed_never_decreases<I: Instant>(
    v: SwView<I>,
    steps: Seq<Step<I>>,
    i: int,
    j: int,
)
    requires
        v.valid(),
        0 <= i <= j <= steps.len(),
    ensures
        v.run(steps.take(i)).elapsed <= v.run(steps.take(j)).elapsed,
    decreases j - i,
{
    if i < j {
        elapsed_never_decreases(v, steps, i, j - 1);
        let prefix = steps.take(j);
        assert(prefix.drop_last() =~= steps.take(j - 1));
        run_stays_valid(v, steps.take(j - 1));
        step_never_decreases(v.run(steps.take(j - 1)), prefix.last());
    }
}

/// A stopwatch that was never started finishes with nothing measured.
pub proof fn finish_unstarted_is_zero<I: Instant>(now: I)
    ensures
        SwView::<I>::stopped().total_at(now) == 0,
{
}

/// A second stop with no start between changes nothing.
pub proof fn stop_is_idempotent<I: Instant>(v: SwView<I>, first: I, second: I)
    ensures
        v.after_stop(first).after_stop(second) == v.after_stop(first),
{
}

/// Starting again while running drops the earlier segment: only the time since
/// the second start is added on the stop.
pub proof fn restart_discards_running_segment<I: Instant>(
    v: SwView<I>,
    first: I,
    second: I,
    stop: I,
)
    ensures
        v.after_start(first).after_start(second).after_stop(stop) == v.after_start(
            second,
        ).after_stop(stop),
        v.after_start(first).after_start(second).after_stop(stop).elapsed == capped_sum(
            v.elapsed,
            span(stop.ticks(), second.ticks()),
        ),
{
}

/// Two start/stop cycles from a fresh stopwatch measure the sum of the two
/// segments (held at the largest duration).
pub proof fn cycles_accumulate<I: Instant>(start1: I, stop1: I, start2: I, stop2: I)
    ensures
        SwView::<I>::stopped().after_start(start1).after_stop(stop1).after_start(
            start2,
        ).after_stop(stop2).elapsed == capped_sum(
            span(stop1.ticks(), start1.ticks()),
            span(stop2.ticks(), start2.ticks()),
        ),
{
}

/// A stop whose instant comes before the segment's start adds nothing: the
/// segment counts as zero.
pub proof fn reversed_instants_add_nothing<I: Instant>(v: SwView<I>, now: I)
    requires
        v.valid(),
        v.running_since matches Some(since) && now.ticks() < since.ticks(),
    ensures
        v.after_stop(now) == (SwView { elapsed: v.elapsed, running_since: None::<I> }),
{
}

/// A stopwatch made already started is the same as one made stopped and then
/// started at that instant; finished at once, it measures nothing.
pub proof fn started_is_new_then_start<I: Instant>(at: I)
    ensures
        SwView::<I>::started(at) == SwView::<I>::stopped().after_start(at),
        SwView::<I>::started(at).total_at(at) == 0,
{
}

} // verus!
