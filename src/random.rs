//! The random source that every randomised operation draws from.
use vstd::prelude::*;
use rand::Rng;
use rand_chacha::ChaCha8Rng;

verus! {

/// rand_chacha's ChaCha8 generator, the random source that every randomised
/// operation draws from in turn; seeded by the caller.
#[verifier::external_type_specification]
#[verifier::external_body]
pub struct ExChaCha8Rng(ChaCha8Rng);

/// Relies on rand::Rng::gen_ratio: true with probability
/// `numerator / denominator`, always false for a zero numerator and always
/// true where numerator and denominator are equal. It panics where the
/// denominator is zero or below the numerator.
#[verifier::external_body]
pub(crate) fn gen_ratio(rng: &mut ChaCha8Rng, numerator: u32, denominator: u32) -> (r: bool)
    requires
        0 < denominator,
        numerator <= denominator,
    ensures
        numerator == 0 ==> !r,
        numerator == denominator ==> r,
{
    rng.gen_ratio(numerator, denominator)
}

} // verus!
