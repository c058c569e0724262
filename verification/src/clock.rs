//! Reading the monotonic clock.

use vstd::prelude::*;
use std::time::Instant;

verus! {

#[verifier::external_type_specification]
#[verifier::external_body]
pub struct ExInstant(std::time::Instant);

/// `Instant::now()`: the current instant. Nothing is stated of it.
#[verifier::external_body]
pub(crate) fn now() -> Instant {
    Instant::now()
}

/// Milliseconds elapsed since `start` (`Instant::elapsed`, truncated to `u64`). It depends on
/// the time of the call, so nothing is stated of it.
#[verifier::external_body]
pub(crate) fn elapsed_ms(start: &Instant) -> u64 {
    start.elapsed().as_millis() as u64
}

} // verus!
