use neuroevolution::{layer_shapes, LayerTopology};

#[test]
fn network_random_test() {
    let topology = vec![
        LayerTopology { neurons: 3 },
        LayerTopology { neurons: 2 },
        LayerTopology { neurons: 1 },
    ];
    let shapes = layer_shapes(&topology);

    // two layers: two neurons of three weights each, then one of two weights
    assert_eq!(shapes.len(), 2);
    assert_eq!(shapes[0], (3, 2));
    assert_eq!(shapes[1], (2, 1));
}

#[test]
fn two_boundaries_give_one_layer() {
    let topology = vec![LayerTopology { neurons: 4 }, LayerTopology { neurons: 7 }];
    assert_eq!(layer_shapes(&topology), vec![(4, 7)]);
}

#[test]
fn consecutive_layers_chain() {
    let topology: Vec<LayerTopology> = [5, 8, 8, 3, 1].iter().map(|&n| LayerTopology { neurons: n }).collect();
    let shapes = layer_shapes(&topology);
    assert_eq!(shapes, vec![(5, 8), (8, 8), (8, 3), (3, 1)]);
    for pair in shapes.windows(2) {
        assert_eq!(pair[0].1, pair[1].0);
    }
}
