//! What the library knows of `core::time::Duration`: its length in
//! nanoseconds, and the two operations on it that the stopwatch uses.
use core::time::Duration;
use vstd::prelude::*;

verus! {

/// The largest length a `Duration` can have, in nanoseconds
/// (`u64::MAX` seconds and 999_999_999 nanoseconds).
pub const MAX_NANOS: u128 = 18_446_744_073_709_551_615_999_999_999;

/// The whole nanoseconds that a duration spans, which is what
/// `Duration::as_nanos` returns for it.
pub uninterp spec fn nanos_of(d: Duration) -> nat;

/// The sum of two lengths, held at the largest length a `Duration` can have.
pub open spec fn capped_sum(a: nat, b: nat) -> nat {
    if a + b <= MAX_NANOS {
        a + b
    } else {
        MAX_NANOS as nat
    }
}

/// Relies on `Duration::from_nanos`: a duration of exactly `nanos` nanoseconds.
pub assume_specification[ core::time::Duration::from_nanos ](nanos: u64) -> (r: Duration)
    ensures
        nanos_of(r) == nanos,
;

/// Relies on `Duration::saturating_add`: the sum, or `Duration::MAX` where the
/// sum does not fit.
pub assume_specification[ core::time::Duration::saturating_add ](
    a: Duration,
    b: Duration,
) -> (r: Duration)
    ensures
        nanos_of(r) == capped_sum(nanos_of(a), nanos_of(b)),
;

/// A duration of zero length.
pub(crate) fn zero() -> (r: Duration)
    ensures
        nanos_of(r) == 0,
{
    Duration::from_nanos(0)
}

} // verus!
