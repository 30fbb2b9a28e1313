//! The stopwatch: elapsed time of the finished segments, and the instant the
//! current segment began, if one is running.
use crate::duration::{capped_sum, nanos_of, zero, MAX_NANOS};
use crate::instant::{span, Instant};
use core::time::Duration;
use quanta::Instant as QuantaInstant;
use vstd::prelude::*;

verus! {

/// What a stopwatch holds, as plain values.
pub struct SwView<I> {
    /// Nanoseconds of all finished segments.
    pub elapsed: nat,
    /// Where the running segment began; `None` while stopped.
    pub running_since: Option<I>,
}

impl<I: Instant> SwView<I> {
    /// A stopwatch that is stopped and has measured nothing.
    pub open spec fn stopped() -> SwView<I> {
        SwView { elapsed: 0, running_since: None }
    }

    /// A stopwatch that has measured nothing and has run since `at`.
    pub open spec fn started(at: I) -> SwView<I> {
        SwView { elapsed: 0, running_since: Some(at) }
    }

    /// Elapsed time never exceeds what a `Duration` can hold.
    pub open spec fn valid(self) -> bool {
        self.elapsed <= MAX_NANOS
    }

    /// Starting at `now`: a running segment, if any, is dropped unmeasured.
    pub open spec fn after_start(self, now: I) -> SwView<I> {
        SwView { elapsed: self.elapsed, running_since: Some(now) }
    }

    /// Stopping at `now`: the running segment, if any, is added (held at the
    /// largest duration) and the stopwatch stops.
    pub open spec fn after_stop(self, now: I) -> SwView<I> {
        match self.running_since {
            None => self,
            Some(since) => SwView {
                elapsed: capped_sum(self.elapsed, span(now.ticks(), since.ticks())),
                running_since: None,
            },
        }
    }

    /// What finishing at `now` returns, in nanoseconds.
    pub open spec fn total_at(self, now: I) -> nat {
        self.after_stop(now).elapsed
    }

    /// The state after one call.
    pub open spec fn after(self, step: Step<I>) -> SwView<I> {
        match step {
            Step::Start(now) => self.after_start(now),
            Step::Stop(now) => self.after_stop(now),
        }
    }

    /// The state after a sequence of calls, made in order.
    pub open spec fn run(self, steps: Seq<Step<I>>) -> SwView<I>
        decreases steps.len(),
    {
        if steps.len() == 0 {
            self
        } else {
            self.run(steps.drop_last()).after(steps.last())
        }
    }
}

/// One call on a stopwatch, with the instant its clock gave.
pub enum Step<I> {
    Start(I),
    Stop(I),
}

/// A stopwatch over the clock `I`.
#[derive(Copy, Debug)]
pub struct Sw<I> {
    elapsed: Duration,
    started: Option<I>,
}

impl<I: Copy> Clone for Sw<I> {
    fn clone(&self) -> (r: Self)
        ensures
            r == *self,
    {
        *self
    }
}

impl<I: Instant> View for Sw<I> {
    type V = SwView<I>;

    closed spec fn view(&self) -> SwView<I> {
        SwView { elapsed: nanos_of(self.elapsed), running_since: self.started }
    }
}

impl<I> Sw<I> {
    #[verifier::type_invariant]
    closed spec fn inv(self) -> bool {
        nanos_of(self.elapsed) <= MAX_NANOS
    }
}

impl<I: Instant> Sw<I> {
    /// Creates a stopwatch without starting it.
    ///
    /// This is how a stopwatch over a clock other than the default one is made.
    pub fn new() -> (r: Self)
        ensures
            r@ == SwView::<I>::stopped(),
    {
        Sw { elapsed: zero(), started: None }
    }

    /// Starts the stopwatch at the clock's current instant.
    ///
    /// Starting a stopwatch that is already running resets the running
    /// segment: the time since the earlier start is not counted.
    pub fn start(&mut self)
        ensures
            final(self)@.elapsed == old(self)@.elapsed,
            final(self)@.running_since is Some,
    {
        self.start_at(I::now());
    }

    /// Starts the stopwatch at `now`, dropping the running segment, if any.
    pub fn start_at(&mut self, now: I)
        ensures
            final(self)@ == old(self)@.after_start(now),
    {
        proof {
            use_type_invariant(&*self);
        }
        self.started = Some(now);
    }

    /// Stops the stopwatch at `now`, adding the running segment, if any.
    pub fn stop_at(&mut self, now: I)
        ensures
            final(self)@ == old(self)@.after_stop(now),
    {
        proof {
            use_type_invariant(&*self);
        }
        if let Some(earlier) = self.started {
            let segment = now.saturating_duration_since(earlier);
            self.elapsed = self.elapsed.saturating_add(segment);
            self.started = None;
        }
    }

    /// Stops the stopwatch at the clock's current instant.
    ///
    /// Stopping a stopwatch that is not running has no effect.
    pub fn stop(&mut self)
        ensures
            final(self)@.running_since is None,
            old(self)@.running_since is None ==> final(self)@ == old(self)@,
            old(self)@.elapsed <= final(self)@.elapsed <= MAX_NANOS,
    {
        proof {
            use_type_invariant(&*self);
        }
        self.stop_at(I::now());
    }

    /// Stops the stopwatch at `now` and returns the time it measured.
    pub fn finish_at(self, now: I) -> (r: Duration)
        ensures
            nanos_of(r) == self@.total_at(now),
    {
        let mut sw = self;
        sw.stop_at(now);
        sw.elapsed
    }

    /// Stops the stopwatch, consuming it, and returns the time it measured.
    pub fn finish(self) -> (r: Duration)
        ensures
            self@.running_since is None ==> nanos_of(r) == self@.elapsed,
            self@.elapsed <= nanos_of(r) <= MAX_NANOS,
    {
        proof {
            use_type_invariant(&self);
        }
        self.finish_at(I::now())
    }
}

impl<I: Instant> Default for Sw<I> {
    fn default() -> (r: Self)
        ensures
            r@ == SwView::<I>::stopped(),
    {
        Sw::new()
    }
}

/// Starts and returns a new stopwatch over the clock of `quanta`.
pub fn start() -> (r: Sw<QuantaInstant>)
    ensures
        r@.running_since matches Some(at) && r@ == SwView::<QuantaInstant>::started(at),
{
    Sw { elapsed: zero(), started: Some(<QuantaInstant as Instant>::now()) }
}

} // verus!
