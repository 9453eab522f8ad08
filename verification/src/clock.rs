//! Deadline support: readings of the monotonic clock.

use vstd::prelude::*;

verus! {

/// The standard monotonic clock reading, opaque to the verifier.
#[verifier::external_type_specification]
#[verifier::external_body]
pub struct ExInstant(std::time::Instant);

/// Relies on `std::time::Instant::now`: a reading of the monotonic clock.
#[verifier::external_body]
pub fn monotonic_now() -> std::time::Instant {
    std::time::Instant::now()
}

/// Relies on `std::time::Instant::elapsed`: whole milliseconds since the
/// reading was taken. Nothing is promised of the value: it depends on the
/// clock.
#[verifier::external_body]
pub fn elapsed_ms(start: &std::time::Instant) -> u64 {
    start.elapsed().as_millis() as u64
}

} // verus!
