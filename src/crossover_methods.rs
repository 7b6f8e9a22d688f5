//! Combining two parent chromosomes into one child.
use vstd::prelude::*;
use rand_chacha::ChaCha8Rng;
use crate::chromosome::Chromosome;
use crate::random::gen_ratio;

verus! {

/// A way to combine two parents of equal length into a child of that length.
pub trait CrossoverMethod {
    fn crossover<G: Copy>(
        &self,
        rng: &mut ChaCha8Rng,
        parent_a: &Chromosome<G>,
        parent_b: &Chromosome<G>,
    ) -> (r: Chromosome<G>)
        requires
            parent_a@.len() == parent_b@.len(),
        ensures
            r@.len() == parent_a@.len(),
            r@.len() == parent_b@.len(),
    ;
}

/// The child whose gene `i` is taken from `a` where `coins[i]` holds and
/// from `b` elsewhere.
pub open spec fn uniform_child<G>(coins: Seq<bool>, a: Seq<G>, b: Seq<G>) -> Seq<G> {
    Seq::new(a.len(), |i: int| if coins[i] { a[i] } else { b[i] })
}

/// The number of positions below `n` at which `coins` holds.
pub open spec fn heads_below(coins: Seq<bool>, n: int) -> nat
    decreases n,
{
    if n <= 0 {
        0
    } else {
        heads_below(coins, n - 1) + if coins[n - 1] { 1nat } else { 0nat }
    }
}

/// The number of positions below `n` at which `x` and `y` differ.
pub open spec fn differences_below<G>(x: Seq<G>, y: Seq<G>, n: int) -> nat
    decreases n,
{
    if n <= 0 {
        0
    } else {
        differences_below(x, y, n - 1) + if x[n - 1] != y[n - 1] { 1nat } else { 0nat }
    }
}

/// Where the two parents differ at every position, the child differs from
/// parent B exactly at the positions whose coin chose parent A, and from
/// parent A at all the others: so the genes taken from each parent are
/// counted by the coin flips.
pub proof fn lemma_uniform_child_counts<G>(coins: Seq<bool>, a: Seq<G>, b: Seq<G>, n: int)
    requires
        a.len() == b.len(),
        coins.len() == a.len(),
        0 <= n <= a.len(),
        forall|i: int| 0 <= i < a.len() ==> a[i] != b[i],
    ensures
        differences_below(uniform_child(coins, a, b), b, n) == heads_below(coins, n),
        differences_below(uniform_child(coins, a, b), a, n) + heads_below(coins, n) == n,
    decreases n,
{
    if n > 0 {
        lemma_uniform_child_counts(coins, a, b, n - 1);
    }
}

/// Picks each gene from one of the two parents by an unbiased coin flip.
#[derive(Clone, Copy, Debug)]
pub struct UniformCrossover;

impl UniformCrossover {
    pub fn new() -> (r: Self) {
        UniformCrossover
    }

    /// The child that the coin flips `coins` give: gene `i` comes from
    /// `parent_a` where `coins[i]` is true, from `parent_b` otherwise.
    pub fn combine<G: Copy>(
        &self,
        coins: &Vec<bool>,
        parent_a: &Chromosome<G>,
        parent_b: &Chromosome<G>,
    ) -> (r: Chromosome<G>)
        requires
            parent_a@.len() == parent_b@.len(),
            coins@.len() == parent_a@.len(),
        ensures
            r@ == uniform_child(coins@, parent_a@, parent_b@),
    {
        let n = parent_a.len();
        let mut genes: Vec<G> = Vec::new();
        let mut i: usize = 0;
        while i < n
            invariant
                n == parent_a@.len(),
                parent_a@.len() == parent_b@.len(),
                coins@.len() == n,
                i <= n,
                genes@ =~= uniform_child(coins@, parent_a@, parent_b@).take(i as int),
            decreases n - i,
        {
            if coins[i] {
                genes.push(parent_a.gene(i));
            } else {
                genes.push(parent_b.gene(i));
            }
            i = i + 1;
        }
        assert(genes@ =~= uniform_child(coins@, parent_a@, parent_b@));
        Chromosome::new(genes)
    }
}

impl CrossoverMethod for UniformCrossover {
    /// Flips one coin per position, in order, then combines the parents by them.
    fn crossover<G: Copy>(
        &self,
        rng: &mut ChaCha8Rng,
        parent_a: &Chromosome<G>,
        parent_b: &Chromosome<G>,
    ) -> (r: Chromosome<G>)
        ensures
            forall|i: int| 0 <= i < r@.len() ==> r@[i] == parent_a@[i] || r@[i] == parent_b@[i],
    {
        let n = parent_a.len();
        let mut coins: Vec<bool> = Vec::new();
        let mut i: usize = 0;
        while i < n
            invariant
                i <= n,
                coins@.len() == i,
            decreases n - i,
        {
            // one chance in two, drawn as `gen_bool` would draw probability one half
            coins.push(gen_ratio(rng, 1, 2));
            i = i + 1;
        }
        self.combine(&coins, parent_a, parent_b)
    }
}

} // verus!
