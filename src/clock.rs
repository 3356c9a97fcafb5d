//! Wall-clock measurement of a call.

use vstd::prelude::*;

verus! {

#[verifier::external_type_specification]
#[verifier::external_body]
pub struct ExInstant(std::time::Instant);

/// Relies on std's `Instant::now`: the current instant, of which nothing is
/// promised.
#[verifier::external_body]
pub(crate) fn now() -> (r: std::time::Instant) {
    std::time::Instant::now()
}

/// Relies on std's `Instant::elapsed`: the time since `start`, of which
/// nothing is promised.
#[verifier::external_body]
fn elapsed(start: &std::time::Instant) -> (r: std::time::Duration) {
    start.elapsed()
}

/// Relies on std's `Duration::as_nanos`: the duration in nanoseconds.
#[verifier::external_body]
fn as_nanos(d: &std::time::Duration) -> (r: u128) {
    d.as_nanos()
}

/// Nanoseconds since `start`, saturating at `u64::MAX`.
pub(crate) fn nanos_since(start: &std::time::Instant) -> (r: u64) {
    let n = as_nanos(&elapsed(start));
    if n > u64::MAX as u128 {
        u64::MAX
    } else {
        n as u64
    }
}

} // verus!
