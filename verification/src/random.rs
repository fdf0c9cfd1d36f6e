//! Random numbers of the thread-local generator of `rand`.
use vstd::prelude::*;

verus! {

/// A random number, `rand::random::<u64>()`: it comes from the thread-local
/// generator, so nothing is stated of it.
#[verifier::external_body]
pub(crate) fn random_u64() -> u64 {
    rand::random::<u64>()
}

} // verus!
