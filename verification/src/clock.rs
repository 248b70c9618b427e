//! The monotonic clock and std durations, as far as the library reads them.

use vstd::prelude::*;

verus! {

/// `std::time::Instant`, a point on the monotonic clock; the library only
/// carries it and asks how long ago it was.
#[verifier::external_type_specification]
#[verifier::external_body]
pub struct ExInstant(std::time::Instant);

/// The current instant (`Instant::now`). Nothing is promised of the value:
/// it depends on when the call is made.
#[verifier::external_body]
pub(crate) fn now() -> std::time::Instant {
    std::time::Instant::now()
}

/// The time elapsed since `at` (`Instant::elapsed`). Nothing is promised of
/// the value: it depends on when the call is made.
#[verifier::external_body]
pub(crate) fn elapsed(at: std::time::Instant) -> std::time::Duration {
    at.elapsed()
}

/// What `Duration::as_secs` gives: the whole seconds in the duration.
pub uninterp spec fn whole_secs_of(d: std::time::Duration) -> u64;

/// What `Duration::as_millis` gives: the whole milliseconds in the duration.
pub uninterp spec fn whole_millis_of(d: std::time::Duration) -> u128;

/// The whole seconds in `d` (`Duration::as_secs`); the result is named by
/// [`whole_secs_of`].
#[verifier::external_body]
pub(crate) fn duration_secs(d: std::time::Duration) -> (r: u64)
    ensures
        r == whole_secs_of(d),
{
    d.as_secs()
}

/// The whole milliseconds in `d` (`Duration::as_millis`); the result is named
/// by [`whole_millis_of`].
#[verifier::external_body]
pub(crate) fn duration_millis(d: std::time::Duration) -> (r: u128)
    ensures
        r == whole_millis_of(d),
{
    d.as_millis()
}

} // verus!
