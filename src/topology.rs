//! The shape of a fully connected feed-forward network.
use vstd::prelude::*;

verus! {

/// The number of neurons at one layer boundary.
#[derive(Clone, Copy, Debug, PartialEq, Eq)]
pub struct LayerTopology {
    pub neurons: usize,
}

/// The (inputs, outputs) arity of layer `i` of a network built from `topology`:
/// one layer for each adjacent pair of boundaries.
pub open spec fn layer_shape(topology: Seq<LayerTopology>, i: int) -> (usize, usize) {
    (topology[i].neurons, topology[i + 1].neurons)
}

/// The arities of every layer of a network built from `topology`, in order.
pub open spec fn shapes_of(topology: Seq<LayerTopology>) -> Seq<(usize, usize)> {
    Seq::new((topology.len() - 1) as nat, |i: int| layer_shape(topology, i))
}

/// The (inputs, outputs) arity of each layer of a network with the given
/// boundaries: layer `i` reads `topology[i].neurons` values and yields
/// `topology[i + 1].neurons`.
pub fn layer_shapes(topology: &Vec<LayerTopology>) -> (r: Vec<(usize, usize)>)
    requires
        topology@.len() > 1,
    ensures
        r@ == shapes_of(topology@),
{
    let n = topology.len() - 1;
    let mut shapes: Vec<(usize, usize)> = Vec::new();
    let mut i: usize = 0;
    while i < n
        invariant
            n == topology@.len() - 1,
            i <= n,
            shapes@ =~= shapes_of(topology@).take(i as int),
        decreases n - i,
    {
        shapes.push((topology[i].neurons, topology[i + 1].neurons));
        i = i + 1;
    }
    assert(shapes@ =~= shapes_of(topology@));
    shapes
}

/// The layers of a network built from a topology chain: each layer reads as
/// many values as the one before it yields, the first reads the input size and
/// the last yields the output size, and there is one layer fewer than there
/// are boundaries.
pub proof fn lemma_shapes_chain(topology: Seq<LayerTopology>)
    requires
        topology.len() > 1,
    ensures
        shapes_of(topology).len() == topology.len() - 1,
        shapes_of(topology)[0].0 == topology[0].neurons,
        shapes_of(topology)[shapes_of(topology).len() - 1].1 == topology[topology.len() - 1].neurons,
        forall|i: int| 0 <= i < shapes_of(topology).len() - 1
            ==> #[trigger] shapes_of(topology)[i].1 == shapes_of(topology)[i + 1].0,
{
}

} // verus!
