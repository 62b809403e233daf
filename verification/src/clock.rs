//! Readings of the monotonic clock, used by the acquisition state machine to
//! enforce its wall-clock deadline.
//!
//! The clock decides the values; nothing is assumed about them beyond their
//! type, and every function that branches on an elapsed time takes it as an
//! ordinary argument, so the surrounding logic is verified for every reading
//! the clock could produce.

use std::time::Instant;
use vstd::prelude::*;

verus! {

#[verifier::external_type_specification]
#[verifier::external_body]
pub struct ExInstant(Instant);

/// Relies on `std::time::Instant::now`: an opaque reading of the monotonic
/// clock, used only as the anchor that later elapsed times are measured from.
#[verifier::external_body]
pub(crate) fn monotonic_now() -> (r: Instant) {
    Instant::now()
}

/// Relies on `std::time::Instant::elapsed` and `Duration::as_millis`: whole
/// milliseconds since `start`, saturating at `u64::MAX`. The value depends on
/// the clock, so no clause constrains it.
#[verifier::external_body]
pub(crate) fn elapsed_millis(start: &Instant) -> (r: u64) {
    u64::try_from(start.elapsed().as_millis()).unwrap_or(u64::MAX)
}

} // verus!
