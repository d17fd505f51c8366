use syron::nn::{Activation, Layout, ShapeError, Update};
use syron::shape::{dot, elementwise, transpose, Shape};

fn s(rows: usize, cols: usize) -> Shape {
    Shape::new(rows, cols)
}

#[test]
fn weight_shapes_of_three_layers() {
    let layout = Layout::new(2, 3);
    assert_eq!(layout.weight_shapes(), vec![s(2, 3), s(3, 3), s(3, 1)]);
}

#[test]
fn weight_shapes_count_equals_layers_from_three() {
    for n_hidden in 3..8 {
        let layout = Layout::new(4, n_hidden);
        let w = layout.weight_shapes();
        assert_eq!(w.len(), n_hidden);
        assert_eq!(w[0], s(4, 5));
        for k in 1..n_hidden - 1 {
            assert_eq!(w[k], s(5, 5));
        }
        assert_eq!(w[n_hidden - 1], s(5, 1));
    }
}

#[test]
fn weight_shapes_of_one_and_two_layers_are_first_and_last() {
    assert_eq!(Layout::new(3, 1).weight_shapes(), vec![s(3, 4), s(4, 1)]);
    assert_eq!(Layout::new(3, 2).weight_shapes(), vec![s(3, 4), s(4, 1)]);
}

#[test]
fn single_input_network() {
    assert_eq!(Layout::new(1, 4).weight_shapes(), vec![s(1, 2), s(2, 2), s(2, 2), s(2, 1)]);
}

#[test]
fn check_input_accepts_matching_columns() {
    let layout = Layout::new(2, 3);
    assert_eq!(layout.check_input(s(4, 2)), Ok(()));
    assert_eq!(layout.check_input(s(0, 2)), Ok(()));
}

#[test]
fn check_input_rejects_other_columns() {
    let layout = Layout::new(2, 3);
    assert_eq!(layout.check_input(s(4, 3)), Err(ShapeError::InputCount { expected: 2, found: 3 }));
    assert_eq!(layout.check_input(s(1, 0)), Err(ShapeError::InputCount { expected: 2, found: 0 }));
}

#[test]
fn layer_shapes_of_xor_batch() {
    let layout = Layout::new(2, 3);
    assert_eq!(layout.layer_shapes(s(4, 2)), Ok(vec![s(4, 2), s(4, 3), s(4, 3), s(4, 1)]));
}

#[test]
fn layer_shapes_reject_wrong_columns_every_time() {
    let layout = Layout::new(2, 3);
    for _ in 0..3 {
        assert_eq!(
            layout.layer_shapes(s(4, 5)),
            Err(ShapeError::InputCount { expected: 2, found: 5 })
        );
    }
}

#[test]
fn output_is_one_column_from_two_layers() {
    for n_hidden in 2..6 {
        let layout = Layout::new(3, n_hidden);
        assert_eq!(layout.output_shape(s(7, 3)), Ok(s(7, 1)));
    }
}

#[test]
fn output_of_one_layer_is_hidden_width() {
    let layout = Layout::new(2, 1);
    assert_eq!(layout.output_shape(s(4, 2)), Ok(s(4, 3)));
}

#[test]
fn output_of_single_xor_row() {
    let layout = Layout::new(2, 3);
    assert_eq!(layout.output_shape(s(1, 2)), Ok(s(1, 1)));
}

#[test]
fn output_shape_rejects_wrong_columns() {
    let layout = Layout::new(2, 3);
    assert_eq!(layout.output_shape(s(1, 1)), Err(ShapeError::InputCount { expected: 2, found: 1 }));
}

#[test]
fn output_shape_is_the_same_on_repeated_calls() {
    let layout = Layout::new(2, 3);
    assert_eq!(layout.output_shape(s(3, 2)), layout.output_shape(s(3, 2)));
}

#[test]
fn check_training_on_xor() {
    let layout = Layout::new(2, 3);
    assert_eq!(layout.check_training(s(4, 2), s(4, 1)), Ok(vec![s(4, 1), s(4, 3), s(4, 3)]));
}

#[test]
fn check_training_with_one_layer() {
    let layout = Layout::new(2, 1);
    assert_eq!(layout.check_training(s(4, 2), s(4, 3)), Ok(vec![s(4, 3)]));
}

#[test]
fn check_training_rejects_wrong_input_columns() {
    let layout = Layout::new(2, 3);
    assert_eq!(
        layout.check_training(s(4, 3), s(4, 1)),
        Err(ShapeError::InputCount { expected: 2, found: 3 })
    );
}

#[test]
fn check_training_rejects_misaligned_targets() {
    let layout = Layout::new(2, 3);
    assert_eq!(
        layout.check_training(s(4, 2), s(3, 1)),
        Err(ShapeError::TargetShape { output: s(4, 1), target: s(3, 1) })
    );
    assert_eq!(
        layout.check_training(s(4, 2), s(4, 2)),
        Err(ShapeError::TargetShape { output: s(4, 1), target: s(4, 2) })
    );
}

#[test]
fn delta_layers_count_down_from_output() {
    assert_eq!(Layout::new(2, 3).delta_layers(), vec![3, 2, 1]);
    assert_eq!(Layout::new(2, 1).delta_layers(), vec![1]);
}

#[test]
fn updates_pair_deltas_with_weights_in_reverse() {
    let u = Layout::new(2, 3).updates();
    assert_eq!(
        u,
        vec![
            Update { weight: 2, layer: 2, delta: 0 },
            Update { weight: 1, layer: 1, delta: 1 },
            Update { weight: 0, layer: 0, delta: 2 },
        ]
    );
}

#[test]
fn updates_have_the_weights_shapes() {
    let layout = Layout::new(2, 3);
    let layers = layout.layer_shapes(s(4, 2)).unwrap();
    let deltas = layout.check_training(s(4, 2), s(4, 1)).unwrap();
    let weights = layout.weight_shapes();
    for u in layout.updates() {
        assert_eq!(dot(transpose(layers[u.layer]), deltas[u.delta]), Some(weights[u.weight]));
    }
}

#[test]
fn layout_getters() {
    let layout = Layout::new(5, 4);
    assert_eq!(layout.n_inputs(), 5);
    assert_eq!(layout.n_hidden(), 4);
}

#[test]
fn shape_algebra() {
    assert_eq!(dot(s(4, 2), s(2, 3)), Some(s(4, 3)));
    assert_eq!(dot(s(4, 2), s(3, 3)), None);
    assert_eq!(transpose(s(4, 1)), s(1, 4));
    assert_eq!(elementwise(s(4, 1), s(4, 1)), Some(s(4, 1)));
    assert_eq!(elementwise(s(4, 1), s(1, 4)), None);
    assert_eq!(elementwise(s(4, 1), s(4, 3)), None);
}

#[test]
fn activation_is_sigmoid() {
    let a = Activation::Sigmoid;
    let b = a;
    assert_eq!(a, b);
    assert_eq!(format!("{:?}", a), "Sigmoid");
}
