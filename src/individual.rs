//! What the engine needs of a candidate solution.
use vstd::prelude::*;
use crate::chromosome::Chromosome;

verus! {

/// A candidate solution, implemented by the host application.
///
/// The engine reads the fitness only through a selection method, reads the
/// chromosome only position by position, and never changes an individual:
/// it only builds new ones with `create`.
pub trait Individual: Sized {
    /// The type of one gene.
    type Gene: Copy;

    /// The type of the fitness score, a non-negative weight in practice.
    type Fitness;

    fn create(chromosome: Chromosome<Self::Gene>) -> Self;

    fn fitness(&self) -> Self::Fitness;

    fn chromosome(&self) -> &Chromosome<Self::Gene>;

    /// Whether the fitness values of `population`, added up in order as
    /// `Fitness` values, stay within what that type can hold: a finite sum
    /// where fitness is floating point, no overflow where it is an integer.
    /// Fitness-weighted selection is defined only on such populations.
    ///
    /// No population counts as summable unless the implementation says so:
    /// one whose fitness values are known to stay in range overrides this.
    open spec fn fitness_summable(population: Seq<Self>) -> bool {
        false
    }
}

} // verus!
