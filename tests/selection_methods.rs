use neuroevolution::{Chromosome, Individual, RouletteWheelSelection, SelectionMethod};
use rand::SeedableRng;
use rand_chacha::ChaCha8Rng;
use std::collections::BTreeMap;

#[derive(Clone, Debug)]
struct FitnessOnly {
    fitness: f32,
}

impl FitnessOnly {
    fn new(fitness: f32) -> Self {
        Self { fitness }
    }
}

impl Individual for FitnessOnly {
    type Gene = f32;
    type Fitness = f32;

    fn create(_chromosome: Chromosome<f32>) -> Self {
        panic!()
    }

    fn fitness(&self) -> f32 {
        self.fitness
    }

    fn chromosome(&self) -> &Chromosome<f32> {
        panic!()
    }
}

#[test]
fn selection_methods_test() {
    let method = RouletteWheelSelection::new();
    let mut rng = ChaCha8Rng::from_seed(Default::default());

    let population = vec![
        FitnessOnly::new(2.0),
        FitnessOnly::new(1.0),
        FitnessOnly::new(4.0),
        FitnessOnly::new(3.0),
    ];

    let mut actual_histogram: BTreeMap<i32, usize> = BTreeMap::new();
    for _ in 0..1000 {
        let individual = method.select(&mut rng, &population).unwrap();
        *actual_histogram.entry(individual.fitness() as i32).or_default() += 1;
    }

    let mut expected_histogram: BTreeMap<i32, usize> = BTreeMap::new();
    expected_histogram.insert(1, 98);
    expected_histogram.insert(2, 202);
    expected_histogram.insert(3, 278);
    expected_histogram.insert(4, 422);

    assert_eq!(actual_histogram, expected_histogram);
}

#[test]
fn selection_never_picks_a_zero_weight_member() {
    let method = RouletteWheelSelection::new();
    let mut rng = ChaCha8Rng::from_seed([3; 32]);
    let population = vec![FitnessOnly::new(0.0), FitnessOnly::new(5.0), FitnessOnly::new(0.0)];
    for _ in 0..100 {
        assert_eq!(method.select(&mut rng, &population).unwrap().fitness(), 5.0);
    }
}

#[test]
fn selection_fails_when_all_weights_are_zero() {
    let method = RouletteWheelSelection::new();
    let mut rng = ChaCha8Rng::from_seed(Default::default());
    let population = vec![FitnessOnly::new(0.0), FitnessOnly::new(0.0)];
    assert!(method.select(&mut rng, &population).is_none());
}
