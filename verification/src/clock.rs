//! The monotonic clock of std, declared for use in verified code.
//! Readings of the clock depend on when they are taken, so nothing is
//! promised of their values.

use vstd::prelude::*;

verus! {

#[verifier::external_type_specification]
#[verifier::external_body]
pub struct ExInstant(std::time::Instant);

/// Reads the clock with `Instant::now`. Nothing is claimed of the reading.
#[verifier::external_body]
pub(crate) fn clock_now() -> std::time::Instant {
    std::time::Instant::now()
}

/// Time passed since `start`, by `Instant::elapsed`. Nothing is claimed of it.
#[verifier::external_body]
pub(crate) fn clock_elapsed(start: &std::time::Instant) -> std::time::Duration {
    start.elapsed()
}

/// Whole milliseconds in `d`, by `Duration::as_millis`. Nothing is claimed of
/// the value, since the duration itself is not known to the verifier.
#[verifier::external_body]
pub(crate) fn duration_millis(d: &std::time::Duration) -> u128 {
    d.as_millis()
}

} // verus!
