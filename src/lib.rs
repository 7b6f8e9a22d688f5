//! Evolving feed-forward networks: a genetic-algorithm engine generic over
//! its genes, and the shape rules of a layered network.
pub mod chromosome;
pub mod crossover_methods;
pub mod genetic_algorithm;
pub mod individual;
pub mod mutation_methods;
pub mod random;
pub mod selection_methods;
pub mod topology;

pub use chromosome::Chromosome;
pub use crossover_methods::{CrossoverMethod, UniformCrossover};
pub use genetic_algorithm::GeneticAlgorithm;
pub use individual::Individual;
pub use mutation_methods::MutationMethod;
pub use selection_methods::{RouletteWheelSelection, SelectionMethod};
pub use topology::{layer_shapes, LayerTopology};
