//! Readings of the monotonic and wall clocks.

use vstd::prelude::*;

verus! {

#[verifier::external_type_specification]
#[verifier::external_body]
pub struct ExInstant(std::time::Instant);

/// Relies on `std::time::Instant::now`: a reading of the monotonic clock.
pub assume_specification[ std::time::Instant::now ]() -> std::time::Instant;

/// Relies on `std::time::Instant::elapsed`: the time since `start` on the
/// monotonic clock, in whole milliseconds. Any value may come back.
#[verifier::external_body]
pub(crate) fn millis_since(start: &std::time::Instant) -> (r: u64) {
    start.elapsed().as_millis() as u64
}

/// Relies on `std::time::SystemTime::now`: wall-clock milliseconds since the
/// Unix epoch, zero for a clock set before it. Any value may come back.
#[verifier::external_body]
pub(crate) fn unix_time_ms() -> (r: u64) {
    std::time::SystemTime::now()
        .duration_since(std::time::UNIX_EPOCH)
        .map(|elapsed| elapsed.as_millis() as u64)
        .unwrap_or(0)
}

} // verus!
