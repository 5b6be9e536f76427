//! The monotonic clock that the overlay reads.

use std::time::{Duration, Instant};
use vstd::prelude::*;

verus! {

/// `std::time::Instant`: a reading of the system's monotonic clock. Nothing
/// is known of what a value holds.
#[verifier::external_type_specification]
#[verifier::external_body]
pub struct ExInstant(Instant);

/// `Instant::now` reads the system's monotonic clock. Nothing is claimed of
/// the instant it returns.
pub assume_specification[ Instant::now ]() -> (instant: Instant)
;

/// `Instant::elapsed` gives the time that has passed since the instant was
/// taken. Nothing is claimed of its length.
pub assume_specification[ Instant::elapsed ](instant: &Instant) -> (passed: Duration)
;

/// `Duration::as_nanos` gives the length of the duration in whole
/// nanoseconds. Nothing is claimed of the number.
pub assume_specification[ Duration::as_nanos ](duration: &Duration) -> (nanos: u128)
;

/// A clock that counts nanoseconds from the moment it was made.
pub(crate) struct Clock {
    origin: Instant,
}

impl Clock {
    /// A clock whose origin is now. The origin is whatever instant the
    /// system gives, so nothing is promised of the clock that comes back.
    pub(crate) fn start() -> Clock {
        Clock { origin: Instant::now() }
    }

    /// The nanoseconds since the clock's origin. The reading depends on the
    /// system's clock alone, so nothing is promised of it: the overlay puts
    /// the readings in order itself and is proved for every reading.
    pub(crate) fn now(&self) -> u128 {
        self.origin.elapsed().as_nanos()
    }
}

} // verus!
