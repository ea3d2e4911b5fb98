//! The monotonic clock that admissions are timed by.

use crate::window::Nanos;
use tokio::time::Instant;
use vstd::prelude::*;

verus! {

#[verifier::external_type_specification]
#[verifier::external_body]
pub struct ExInstant(tokio::time::Instant);

/// Reads the clock through `tokio::time::Instant::now`.
///
/// Nothing is claimed of the instant that comes back.
#[verifier::external_body]
pub(crate) fn clock_start() -> Instant {
    Instant::now()
}

/// Reads the clock through `tokio::time::Instant::now` and gives the time
/// since `start` in nanoseconds, as `Instant::duration_since` and
/// `Duration::as_nanos` compute it.
///
/// Nothing is claimed of the number that comes back: it depends on when the
/// call is made.
#[verifier::external_body]
pub(crate) fn clock_read(start: &Instant) -> Nanos {
    Instant::now().duration_since(*start).as_nanos()
}

} // verus!
