//! The monotonic-instant capability a stopwatch is built on, and its binding
//! to the clock of the `quanta` crate.
use crate::duration::nanos_of;
use core::fmt::Debug;
use core::time::Duration;
use quanta::Instant as QuantaInstant;
use vstd::prelude::*;

verus! {

/// The length from `earlier` to `later` on a clock's time line, or zero where
/// `earlier` comes after `later`.
pub open spec fn span(later: int, earlier: int) -> nat {
    if earlier <= later {
        (later - earlier) as nat
    } else {
        0
    }
}

/// A point in monotonic time, as some clock source gives it.
///
/// Each instant stands at a place on its clock's time line, counted in
/// nanoseconds (`ticks`). A clock can hold only some of those places
/// (`representable`); shifting an instant to any other place fails.
pub trait Instant: Copy + Debug + Sized {
    /// The place of this instant on its clock's time line, in nanoseconds.
    ///
    /// Each clock defines its own; the default, which puts every instant at
    /// the same place, only lets clocks written outside verified code leave
    /// it out.
    open spec fn ticks(&self) -> int {
        0
    }

    /// Whether the clock can hold an instant at this place of its time line.
    ///
    /// Each clock defines its own; the default, which holds every place, only
    /// lets clocks written outside verified code leave it out.
    open spec fn representable(ticks: int) -> bool {
        true
    }

    /// The current instant of the clock.
    fn now() -> Self;

    /// This instant shifted forward by `duration`, or `None` where the clock
    /// cannot hold the result.
    fn checked_add(&self, duration: Duration) -> (r: Option<Self>)
        ensures
            r.is_some() == Self::representable(self.ticks() + nanos_of(duration)),
            r matches Some(t) ==> t.ticks() == self.ticks() + nanos_of(duration),
    ;

    /// This instant shifted back by `duration`, or `None` where the clock
    /// cannot hold the result.
    fn checked_sub(&self, duration: Duration) -> (r: Option<Self>)
        ensures
            r.is_some() == Self::representable(self.ticks() - nanos_of(duration)),
            r matches Some(t) ==> t.ticks() == self.ticks() - nanos_of(duration),
    ;

    /// The time from `earlier` to this instant, or zero where `earlier` comes
    /// after it.
    fn saturating_duration_since(&self, earlier: Self) -> (r: Duration)
        ensures
            nanos_of(r) == span(self.ticks(), earlier.ticks()),
    ;
}

#[verifier::external_type_specification]
#[verifier::external_body]
pub struct ExQuantaInstant(QuantaInstant);

/// The reading that a `quanta::Instant` holds: nanoseconds of the crate's
/// reference clock, kept as a `u64`. It is what
/// `quanta::Instant::saturating_duration_since` measures from.
pub uninterp spec fn quanta_ticks(i: QuantaInstant) -> u64;

/// Relies on `quanta::Instant::now`: the clock's current reading; nothing is
/// known of its value.
#[verifier::external_body]
fn quanta_now() -> (r: QuantaInstant) {
    QuantaInstant::now()
}

/// Relies on `quanta::Instant::checked_add`: the reading plus the duration's
/// nanoseconds, or `None` where that does not fit in a `u64`.
#[verifier::external_body]
fn quanta_checked_add(i: &QuantaInstant, duration: Duration) -> (r: Option<QuantaInstant>)
    ensures
        r.is_some() == (quanta_ticks(*i) + nanos_of(duration) <= u64::MAX),
        r matches Some(t) ==> quanta_ticks(t) == quanta_ticks(*i) + nanos_of(duration),
{
    i.checked_add(duration)
}

/// Relies on `quanta::Instant::checked_sub`: the reading less the duration's
/// nanoseconds, or `None` where that would go below zero.
#[verifier::external_body]
fn quanta_checked_sub(i: &QuantaInstant, duration: Duration) -> (r: Option<QuantaInstant>)
    ensures
        r.is_some() == (nanos_of(duration) <= quanta_ticks(*i)),
        r matches Some(t) ==> quanta_ticks(t) == quanta_ticks(*i) - nanos_of(duration),
{
    i.checked_sub(duration)
}

/// Relies on `quanta::Instant::saturating_duration_since`: the difference of
/// the two readings in nanoseconds, or zero where `earlier` reads more.
#[verifier::external_body]
fn quanta_duration_since(i: &QuantaInstant, earlier: QuantaInstant) -> (r: Duration)
    ensures
        nanos_of(r) == span(quanta_ticks(*i) as int, quanta_ticks(earlier) as int),
{
    i.saturating_duration_since(earlier)
}

/// The default clock: the high-resolution monotonic clock of `quanta`.
impl Instant for QuantaInstant {
    open spec fn ticks(&self) -> int {
        quanta_ticks(*self) as int
    }

    open spec fn representable(ticks: int) -> bool {
        0 <= ticks <= u64::MAX
    }

    fn now() -> Self {
        quanta_now()
    }

    fn checked_add(&self, duration: Duration) -> (r: Option<Self>) {
        quanta_checked_add(self, duration)
    }

    fn checked_sub(&self, duration: Duration) -> (r: Option<Self>) {
        quanta_checked_sub(self, duration)
    }

    fn saturating_duration_since(&self, earlier: Self) -> (r: Duration) {
        quanta_duration_since(self, earlier)
    }
}

} // verus!
