//! Wall-clock measurement of elapsed time.
use vstd::prelude::*;

verus! {

/// `std::time::Instant`, carried through opaquely.
#[verifier::external_type_specification]
#[verifier::external_body]
pub struct ExInstant(std::time::Instant);

/// `Instant::now()`.  Nothing is promised of the value: it depends on the clock.
#[verifier::external_body]
pub(crate) fn instant_now() -> std::time::Instant {
    std::time::Instant::now()
}

/// `start.elapsed().as_millis()` narrowed to `u64`.  Nothing is promised of the
/// value: it depends on the clock.
#[verifier::external_body]
pub(crate) fn elapsed_millis(start: &std::time::Instant) -> u64 {
    start.elapsed().as_millis() as u64
}

} // verus!
