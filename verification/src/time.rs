//! Durations and the monotonic clock of std, as far as the library reads
//! them: in whole milliseconds.

use vstd::prelude::*;

verus! {

/// `std::time::Instant`, carried through as it is.
#[verifier::external_type_specification]
#[verifier::external_body]
pub struct ExInstant(std::time::Instant);

/// The whole milliseconds that a duration holds.
pub uninterp spec fn millis_of(duration: core::time::Duration) -> nat;

/// `Duration::as_millis` of std: the total number of whole milliseconds
/// contained by the duration.
pub assume_specification[ core::time::Duration::as_millis ](duration: &core::time::Duration) -> (ms:
    u128)
    ensures
        ms == millis_of(*duration),
;

/// `Duration::from_millis` of std: the duration of so many milliseconds.
pub assume_specification[ core::time::Duration::from_millis ](millis: u64) -> (duration:
    core::time::Duration)
    ensures
        millis_of(duration) == millis,
;

/// `Duration::from_secs` of std: the duration of so many seconds.
pub assume_specification[ core::time::Duration::from_secs ](secs: u64) -> (duration:
    core::time::Duration)
    ensures
        millis_of(duration) == secs * 1000,
;

/// `Clone::clone` of `Duration`: an equal duration.
pub assume_specification[ <core::time::Duration as Clone>::clone ](
    duration: &core::time::Duration,
) -> (copy: core::time::Duration)
    ensures
        copy == *duration,
;

/// `Instant::now` of std: the present moment on the monotonic clock.
/// Nothing is said of it.
pub assume_specification[ std::time::Instant::now ]() -> std::time::Instant;

/// `Instant::elapsed` of std: the time since the instant on the monotonic
/// clock. Nothing is said of it.
pub assume_specification[ std::time::Instant::elapsed ](instant: &std::time::Instant) -> core::time::Duration;

/// The whole milliseconds since `origin` on the monotonic clock.
pub fn millis_since(origin: &std::time::Instant) -> u128 {
    origin.elapsed().as_millis()
}

/// `chrono::Utc::now` and `DateTime::timestamp`: the present moment on the
/// wall clock, in whole seconds since the Unix epoch. Nothing is said of it.
/// On a machine whose clock stands before 1970 chrono stops the program.
#[verifier::external_body]
pub(crate) fn unix_now() -> i64 {
    chrono::Utc::now().timestamp()
}

} // verus!
