//! The wall clock, used only to observe how long a cache lookup took.
//! Nothing is assumed of it: every contract downstream holds whatever
//! readings it gives.

use vstd::prelude::*;

verus! {

#[verifier::external_type_specification]
#[verifier::external_body]
pub struct ExInstant(std::time::Instant);

/// Relies on std::time::Instant::now; no property of the clock is assumed.
#[verifier::external_body]
pub(crate) fn instant_now() -> std::time::Instant {
    std::time::Instant::now()
}

/// Relies on std::time::Instant::elapsed; the reading is arbitrary.
#[verifier::external_body]
pub(crate) fn elapsed_ms(start: &std::time::Instant) -> u64 {
    start.elapsed().as_millis() as u64
}

} // verus!
