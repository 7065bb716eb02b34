//! Monotonic timestamps for telemetry samples.
//!
//! Nothing can be promised of a clock reading, so the trusted items
//! here carry no contracts; everything computed from an elapsed time is
//! verified for every value the clock could hand back.

use vstd::prelude::*;

verus! {

#[verifier::external_type_specification]
#[verifier::external_body]
pub struct ExInstant(std::time::Instant);

/// Relies on Instant::now: an opaque monotonic timestamp.
pub assume_specification[ std::time::Instant::now ]() -> std::time::Instant;

/// Relies on Instant::elapsed: the time since this instant was taken.
pub assume_specification[ std::time::Instant::elapsed ](i: &std::time::Instant) -> core::time::Duration;

/// Relies on Duration::as_millis: the duration in whole milliseconds.
pub assume_specification[ core::time::Duration::as_millis ](d: &core::time::Duration) -> u128;

/// A session clock: elapsed time is measured from the moment the clock
/// was started.
pub struct SessionClock {
    started: std::time::Instant,
}

impl SessionClock {
    /// Start counting from now.
    pub fn start() -> SessionClock {
        SessionClock { started: std::time::Instant::now() }
    }

    /// Whole milliseconds elapsed since the clock started, saturating
    /// at `u64::MAX`.
    pub fn elapsed_ms(&self) -> u64 {
        let d = self.started.elapsed();
        let ms: u128 = d.as_millis();
        if ms > u64::MAX as u128 {
            u64::MAX
        } else {
            ms as u64
        }
    }
}

} // verus!
