use std::time::Duration;
use vstd::prelude::*;

verus! {

/// Length of a duration in whole nanoseconds, as `Duration::as_nanos` counts it.
pub uninterp spec fn nanos_of(d: Duration) -> int;

/// Nanoseconds in one millisecond.
pub const NANOS_PER_MILLI: u64 = 1_000_000;

/// The longest duration that `Duration` holds: `u64::MAX` seconds and
/// 999 999 999 nanoseconds.
pub open spec fn max_duration_nanos() -> int {
    u64::MAX as int * 1_000_000_000 + 999_999_999
}

/// Relies on `Duration::from_millis`: the duration of `millis` milliseconds.
pub assume_specification[ core::time::Duration::from_millis ](millis: u64) -> (r: Duration)
    ensures
        nanos_of(r) == millis * NANOS_PER_MILLI,
;

/// Relies on `Duration::checked_add`: the sum of the two lengths, or `None`
/// where it does not fit in a `Duration`.
pub assume_specification[ core::time::Duration::checked_add ](
    a: Duration,
    b: Duration,
) -> (r: Option<Duration>)
    ensures
        r is Some <==> nanos_of(a) + nanos_of(b) <= max_duration_nanos(),
        r matches Some(d) ==> nanos_of(d) == nanos_of(a) + nanos_of(b),
;

/// Relies on `Duration`'s `Clone`: `Duration` is `Copy`, so a clone is the
/// same value.
pub assume_specification[ <core::time::Duration as core::clone::Clone>::clone ](
    d: &Duration,
) -> (r: Duration)
    ensures
        r == *d,
;

} // verus!
