//! The source of randomness: the thread-local generator of the `rand` crate.
//!
//! Nothing in this file is proved. Of a draw only the two certain cases are
//! stated; every other draw may come out either way.

use vstd::prelude::*;

verus! {

/// `rand::rngs::ThreadRng`, a handle to the thread-local generator. Opaque
/// to the verifier.
#[verifier::external_type_specification]
#[verifier::external_body]
pub struct ExThreadRng(rand::rngs::ThreadRng);

/// `rand::thread_rng()`: a handle to the generator of the current thread,
/// seeded by the operating system.
#[verifier::external_body]
pub(crate) fn thread_rng() -> (rng: rand::rngs::ThreadRng) {
    rand::thread_rng()
}

/// `Rng::gen_ratio(numerator, denominator)`: true with probability
/// `numerator / denominator`. As `rand` documents, the draw is certainly
/// true when the two are equal and certainly false when the numerator is
/// zero. `rand` panics on a zero denominator and on a numerator above the
/// denominator, so those are left out.
#[verifier::external_body]
pub(crate) fn gen_ratio(rng: &mut rand::rngs::ThreadRng, numerator: u32, denominator: u32) -> (hit:
    bool)
    requires
        denominator > 0,
        numerator <= denominator,
    ensures
        numerator == denominator ==> hit,
        numerator == 0 ==> !hit,
{
    rand::Rng::gen_ratio(rng, numerator, denominator)
}

} // verus!
