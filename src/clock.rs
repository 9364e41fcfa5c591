//! Readings of the monotonic clock, as points after an origin of one's own.
use vstd::prelude::*;

use std::time::Instant;

use crate::time::{Moment, Span, CLOCK_END};

verus! {

/// A point of the monotonic clock, kept as the origin of a [`Clock`].
#[verifier::external_type_specification]
#[verifier::external_body]
pub struct ExInstant(Instant);

/// Relies on `Instant::now`: a reading of the monotonic clock. Nothing is
/// known of its value.
pub assume_specification[ Instant::now ]() -> Instant;

/// Relies on `Instant::elapsed` and `Duration::as_nanos`: the nanoseconds
/// that have passed since `origin`. It depends on the time of the call, so
/// nothing is stated of its value.
#[verifier::external_body]
fn nanos_since(origin: &Instant) -> u128 {
    origin.elapsed().as_nanos()
}

/// The monotonic clock, read as points after the moment the clock was
/// started.
#[derive(Clone, Copy, Debug)]
pub struct Clock {
    origin: Instant,
}

impl Clock {
    /// A clock whose origin is the moment of the call.
    pub fn start() -> (r: Clock) {
        Clock { origin: Instant::now() }
    }

    /// The present point on this clock; the end of the clock where more
    /// time than it can represent has passed.
    pub fn now(&self) -> (r: Moment)
        ensures
            r@ <= CLOCK_END,
    {
        Moment::from_span(Span::saturating_from_nanos(nanos_since(&self.origin)))
    }
}

} // verus!
