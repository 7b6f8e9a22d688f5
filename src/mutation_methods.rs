//! Perturbing a child chromosome in place.
use vstd::prelude::*;
use rand_chacha::ChaCha8Rng;
use crate::chromosome::Chromosome;

verus! {

/// A way to perturb the genes of a freshly crossed child, in place: the
/// child keeps its length.
pub trait MutationMethod<G> {
    fn mutate(&self, rng: &mut ChaCha8Rng, child: &mut Chromosome<G>)
        ensures
            final(child)@.len() == old(child)@.len(),
    ;
}

} // verus!
