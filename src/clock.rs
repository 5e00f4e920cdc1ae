//! The monotonic clock that timestamps match events, in milliseconds since the
//! clock was created.
use vstd::prelude::*;
use std::time::{Duration, Instant};

verus! {

#[verifier::external_type_specification]
#[verifier::external_body]
pub struct ExInstant(Instant);

/// Relies on `Instant::now`: a reading of the operating system's monotonic
/// clock.
#[verifier::external_body]
fn instant_now() -> Instant {
    Instant::now()
}

/// Relies on `Instant::elapsed`: the time since `origin` was read.
#[verifier::external_body]
fn elapsed_since(origin: &Instant) -> Duration {
    origin.elapsed()
}

/// Relies on `Duration::as_millis`: the whole milliseconds of `d`.
#[verifier::external_body]
fn whole_millis(d: &Duration) -> u128 {
    d.as_millis()
}

/// A millisecond counter that starts near zero when created and only moves
/// forward.
pub struct MonotonicClock {
    origin: Instant,
}

impl MonotonicClock {
    pub fn new() -> MonotonicClock {
        MonotonicClock { origin: instant_now() }
    }

    /// Milliseconds since the clock was created, saturating at `u64::MAX`.
    pub fn now_ms(&self) -> u64 {
        let ms = whole_millis(&elapsed_since(&self.origin));
        if ms > u64::MAX as u128 {
            u64::MAX
        } else {
            ms as u64
        }
    }
}

} // verus!
