use vstd::prelude::*;

verus! {

/// A point in time of the monotonic clock of the machine.
#[verifier::external_type_specification]
#[verifier::external_body]
pub struct ExInstant(std::time::Instant);

/// `Clone` of `std::time::Instant`: the type is `Copy`, so a clone is the
/// same point in time.
pub assume_specification[ <std::time::Instant as std::clone::Clone>::clone ](
    instant: &std::time::Instant,
) -> (copy: std::time::Instant)
    ensures
        copy == *instant,
;

/// The current time.
///
/// Calls `std::time::Instant::now()`; the time depends on the machine, so
/// nothing is stated of it.
#[verifier::external_body]
pub(crate) fn now() -> std::time::Instant {
    std::time::Instant::now()
}

} // verus!
