//! A fixed-length, ordered sequence of genes.
use vstd::prelude::*;

verus! {

/// The genetic material of one individual.
#[derive(Clone, Debug)]
pub struct Chromosome<G> {
    genes: Vec<G>,
}

impl<G> View for Chromosome<G> {
    type V = Seq<G>;

    closed spec fn view(&self) -> Seq<G> {
        self.genes@
    }
}

impl<G: Copy> Chromosome<G> {
    /// Builds a chromosome holding `genes` in their order.
    pub fn new(genes: Vec<G>) -> (r: Self)
        ensures
            r@ == genes@,
    {
        Chromosome { genes }
    }

    /// The number of genes.
    pub fn len(&self) -> (r: usize)
        ensures
            r == self@.len(),
    {
        self.genes.len()
    }

    /// Whether the chromosome holds no gene.
    pub fn is_empty(&self) -> (r: bool)
        ensures
            r == (self@.len() == 0),
    {
        self.genes.len() == 0
    }

    /// The gene at position `i`.
    pub fn gene(&self, i: usize) -> (r: G)
        requires
            i < self@.len(),
        ensures
            r == self@[i as int],
    {
        self.genes[i]
    }

    /// The gene at position `i`, if there is one.
    pub fn get(&self, i: usize) -> (r: Option<G>)
        ensures
            i < self@.len() ==> r == Some(self@[i as int]),
            i >= self@.len() ==> r.is_none(),
    {
        if i < self.genes.len() {
            Some(self.genes[i])
        } else {
            None
        }
    }

    /// Replaces the gene at position `i`; the length never changes.
    pub fn set(&mut self, i: usize, gene: G)
        requires
            i < old(self)@.len(),
        ensures
            final(self)@ == old(self)@.update(i as int, gene),
    {
        self.genes.set(i, gene);
    }

    /// All genes, in order.
    pub fn genes(&self) -> (r: &Vec<G>)
        ensures
            r@ == self@,
    {
        &self.genes
    }

    /// Gives the genes back, in order.
    pub fn into_genes(self) -> (r: Vec<G>)
        ensures
            r@ == self@,
    {
        self.genes
    }
}

} // verus!
