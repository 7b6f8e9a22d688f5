//! One generational step: select, cross, mutate, create.
use vstd::prelude::*;
use rand_chacha::ChaCha8Rng;
use crate::chromosome::Chromosome;
use crate::crossover_methods::CrossoverMethod;
use crate::individual::Individual;
use crate::mutation_methods::MutationMethod;
use crate::selection_methods::SelectionMethod;

verus! {

/// Drives evolution with one selection, one crossover and one mutation method.
pub struct GeneticAlgorithm<S, C, M> {
    selection_method: S,
    crossover_method: C,
    mutation_method: M,
}

impl<S, C, M> GeneticAlgorithm<S, C, M> {
    /// The selection method in use.
    pub closed spec fn selection(&self) -> S {
        self.selection_method
    }

    /// The crossover method in use.
    pub closed spec fn crossover(&self) -> C {
        self.crossover_method
    }

    /// The mutation method in use.
    pub closed spec fn mutation(&self) -> M {
        self.mutation_method
    }
}

impl<S: SelectionMethod, C: CrossoverMethod, M> GeneticAlgorithm<S, C, M> {
    pub fn new(selection_method: S, crossover_method: C, mutation_method: M) -> (r: Self)
        ensures
            r.selection() == selection_method,
            r.crossover() == crossover_method,
            r.mutation() == mutation_method,
    {
        GeneticAlgorithm { selection_method, crossover_method, mutation_method }
    }

    /// The child chromosome of two parents: crossed, then mutated in place.
    /// There is one exactly where the parents have equal lengths.
    pub fn breed<G: Copy>(
        &self,
        rng: &mut ChaCha8Rng,
        genes_a: &Chromosome<G>,
        genes_b: &Chromosome<G>,
    ) -> (r: Option<Chromosome<G>>)
        where
            M: MutationMethod<G>,
        ensures
            r.is_some() == (genes_a@.len() == genes_b@.len()),
            r matches Some(child) ==> child@.len() == genes_a@.len(),
    {
        if genes_a.len() != genes_b.len() {
            return None;
        }
        let mut child = self.crossover_method.crossover(rng, genes_a, genes_b);
        self.mutation_method.mutate(rng, &mut child);
        Some(child)
    }

    /// Builds the next generation, of the same size as `population`.
    ///
    /// For each slot in turn it selects parent A, then parent B, crosses their
    /// chromosomes, mutates the child in place and creates a new individual
    /// from it. The fitness values must add up within their type (see
    /// `Individual::fitness_summable`). It gives up with `None` where the selection method yields no
    /// parent, or where the two parents' chromosomes differ in length.
    pub fn evolve<I: Individual>(&self, rng: &mut ChaCha8Rng, population: &Vec<I>) -> (r: Option<Vec<I>>)
        where
            I::Fitness: rand::distributions::uniform::SampleUniform
                + for<'w> core::ops::AddAssign<&'w I::Fitness>
                + PartialOrd
                + Clone
                + Default,
            M: MutationMethod<I::Gene>,
        requires
            population@.len() > 0,
            I::fitness_summable(population@),
        ensures
            r matches Some(next) ==> next@.len() == population@.len(),
    {
        let n = population.len();
        let mut next: Vec<I> = Vec::new();
        let mut k: usize = 0;
        while k < n
            invariant
                n == population@.len(),
                n > 0,
                I::fitness_summable(population@),
                k <= n,
                next@.len() == k,
            decreases n - k,
        {
            let parent_a = match self.selection_method.select(rng, population) {
                Some(p) => p,
                None => {
                    return None;
                },
            };
            let parent_b = match self.selection_method.select(rng, population) {
                Some(p) => p,
                None => {
                    return None;
                },
            };
            let child = match self.breed(rng, parent_a.chromosome(), parent_b.chromosome()) {
                Some(c) => c,
                None => {
                    return None;
                },
            };
            next.push(I::create(child));
            k = k + 1;
        }
        Some(next)
    }
}

} // verus!
