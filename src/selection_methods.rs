//! Choosing parents from a population.
use vstd::prelude::*;
use rand::seq::SliceRandom;
use rand_chacha::ChaCha8Rng;
use crate::individual::Individual;

verus! {

/// A way to draw one parent from a non-empty population whose fitness values
/// can be added up. What it hands back, if anything, is a member of the
/// population.
pub trait SelectionMethod {
    fn select<'a, I: Individual>(&self, rng: &mut ChaCha8Rng, population: &'a Vec<I>) -> (r: Option<&'a I>)
        where
            I::Fitness: rand::distributions::uniform::SampleUniform
                + for<'w> core::ops::AddAssign<&'w I::Fitness>
                + PartialOrd
                + Clone
                + Default,
        requires
            population@.len() > 0,
            I::fitness_summable(population@),
        ensures
            r matches Some(x) ==> exists|i: int| 0 <= i < population@.len() && *x == population@[i],
    ;
}

/// Fitness-proportional selection with replacement.
#[derive(Clone, Copy, Debug)]
pub struct RouletteWheelSelection;

impl RouletteWheelSelection {
    pub fn new() -> (r: Self) {
        RouletteWheelSelection
    }
}

/// Relies on rand::seq::SliceRandom::choose_weighted, weighting each member by
/// its fitness: on success it hands back a member of the slice; it fails on an
/// empty slice and where a weight is negative or not a number, or all are zero.
/// It panics where the weights add up to more than their type can hold (an
/// infinite floating-point sum, an integer overflow): `requires` leaves that out.
#[verifier::external_body]
fn choose_by_fitness<'a, I: Individual>(rng: &mut ChaCha8Rng, population: &'a Vec<I>) -> (r: Option<&'a I>)
    where
        I::Fitness: rand::distributions::uniform::SampleUniform
            + for<'w> core::ops::AddAssign<&'w I::Fitness>
            + PartialOrd
            + Clone
            + Default,
    requires
        I::fitness_summable(population@),
    ensures
        r matches Some(x) ==> exists|i: int| 0 <= i < population@.len() && *x == population@[i],
        population@.len() == 0 ==> r.is_none(),
{
    population.choose_weighted(rng, |individual| individual.fitness()).ok()
}

impl SelectionMethod for RouletteWheelSelection {
    fn select<'a, I: Individual>(&self, rng: &mut ChaCha8Rng, population: &'a Vec<I>) -> (r: Option<&'a I>)
        where
            I::Fitness: rand::distributions::uniform::SampleUniform
                + for<'w> core::ops::AddAssign<&'w I::Fitness>
                + PartialOrd
                + Clone
                + Default,
    {
        choose_by_fitness(rng, population)
    }
}

} // verus!
