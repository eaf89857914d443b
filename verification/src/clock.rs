//! Readings of the monotonic clock.

use std::time::Instant;
use vstd::prelude::*;

verus! {

#[verifier::external_type_specification]
#[verifier::external_body]
pub struct ExInstant(Instant);

/// `Instant::now()`: a reading of the monotonic clock. Nothing is claimed of it.
#[verifier::external_body]
pub(crate) fn instant_now() -> Instant {
    Instant::now()
}

/// `Instant::elapsed()` in whole microseconds (truncated to 64 bits). Nothing
/// is claimed of the value: it depends on the time of the call.
#[verifier::external_body]
pub(crate) fn micros_since(origin: &Instant) -> u64 {
    origin.elapsed().as_micros() as u64
}

} // verus!
