use feedforward::backward::{
    backpropagate, get_dc_dz, get_gradients_from_dc_dz, gradient_shapes, DeltaSource, DeltaStep,
    GradientStep, Gradients,
};
use feedforward::forward::get_activations;
use feedforward::init::{bias_lengths, weight_shapes};
use feedforward::shape::{MatrixShape, ShapeError};
use feedforward::topology::NetworkParameters;
use feedforward::update::gradient_descent;

fn shape(rows: usize, cols: usize) -> MatrixShape {
    MatrixShape { rows, cols }
}

fn step(delta: usize, activation: usize, weights: MatrixShape, biases: usize) -> GradientStep {
    GradientStep { delta, activation, gradients: Gradients { weights, biases } }
}

#[test]
fn forward_gives_the_length_of_every_layer() {
    let weights = vec![shape(10, 2), shape(10, 10), shape(5, 10)];
    let biases = vec![10, 10, 5];
    assert_eq!(get_activations(2, &weights, &biases), Ok(vec![2, 10, 10, 5]));
}

#[test]
fn forward_without_parameters_gives_the_input_alone() {
    assert_eq!(get_activations(7, &vec![], &vec![]), Ok(vec![7]));
}

#[test]
fn forward_on_a_topology_ends_with_the_output_size() {
    let topology = NetworkParameters::new(3, 4, 2, 5).unwrap();
    let lengths =
        get_activations(3, &weight_shapes(&topology), &bias_lengths(&topology)).unwrap();
    assert_eq!(lengths.len(), 7);
    assert_eq!(lengths, vec![3, 4, 4, 4, 4, 4, 2]);
    assert_eq!(*lengths.last().unwrap(), topology.output_size);
}

#[test]
fn forward_without_hidden_layers_is_a_single_layer() {
    let topology = NetworkParameters::new(3, 4, 2, 0).unwrap();
    let lengths =
        get_activations(3, &weight_shapes(&topology), &bias_lengths(&topology)).unwrap();
    assert_eq!(lengths, vec![3, 2]);
}

#[test]
fn forward_twice_gives_the_same() {
    let weights = vec![shape(10, 2), shape(5, 10)];
    let biases = vec![10, 5];
    assert_eq!(get_activations(2, &weights, &biases), get_activations(2, &weights, &biases));
}

#[test]
fn forward_refuses_unequal_parameter_counts() {
    let weights = vec![shape(10, 2), shape(5, 10)];
    assert_eq!(
        get_activations(2, &weights, &vec![10]),
        Err(ShapeError::ParameterCount { weights: 2, biases: 1 })
    );
}

#[test]
fn forward_refuses_an_input_of_the_wrong_length() {
    let weights = vec![shape(10, 2), shape(5, 10)];
    assert_eq!(
        get_activations(3, &weights, &vec![10, 5]),
        Err(ShapeError::WeightColumns { layer: 0, columns: 2, activation: 3 })
    );
}

#[test]
fn forward_refuses_a_matrix_that_does_not_follow_the_one_before() {
    let weights = vec![shape(10, 2), shape(5, 9)];
    assert_eq!(
        get_activations(2, &weights, &vec![10, 5]),
        Err(ShapeError::WeightColumns { layer: 1, columns: 9, activation: 10 })
    );
}

#[test]
fn forward_refuses_a_bias_of_the_wrong_length() {
    let weights = vec![shape(10, 2), shape(5, 10)];
    assert_eq!(
        get_activations(2, &weights, &vec![10, 4]),
        Err(ShapeError::BiasLength { layer: 1, rows: 5, bias: 4 })
    );
}

#[test]
fn forward_names_the_first_disagreement() {
    let weights = vec![shape(10, 2), shape(5, 9)];
    assert_eq!(
        get_activations(2, &weights, &vec![11, 4]),
        Err(ShapeError::BiasLength { layer: 0, rows: 10, bias: 11 })
    );
    assert_eq!(
        get_activations(3, &weights, &vec![11, 4]),
        Err(ShapeError::WeightColumns { layer: 0, columns: 2, activation: 3 })
    );
}

#[test]
fn sweep_goes_from_the_output_layer_down_to_the_first_hidden_layer() {
    let weights = vec![shape(10, 2), shape(10, 10), shape(5, 10)];
    let activations = vec![2, 10, 10, 5];
    assert_eq!(
        get_dc_dz(&weights, &activations, 5),
        Ok(vec![
            DeltaStep { layer: 3, source: DeltaSource::Cost, length: 5 },
            DeltaStep { layer: 2, source: DeltaSource::Successor { weights: 2, delta: 0 }, length: 10 },
            DeltaStep { layer: 1, source: DeltaSource::Successor { weights: 1, delta: 1 }, length: 10 },
        ])
    );
}

#[test]
fn sweep_of_a_single_layer_is_the_output_step_alone() {
    assert_eq!(
        get_dc_dz(&vec![shape(5, 2)], &vec![2, 5], 5),
        Ok(vec![DeltaStep { layer: 1, source: DeltaSource::Cost, length: 5 }])
    );
}

#[test]
fn sweep_never_visits_the_input_layer() {
    let weights = vec![shape(4, 3), shape(4, 4), shape(4, 4), shape(2, 4)];
    let steps = get_dc_dz(&weights, &vec![3, 4, 4, 4, 2], 2).unwrap();
    assert_eq!(steps.len(), 4);
    assert!(steps.iter().all(|step| step.layer >= 1));
}

#[test]
fn sweep_without_weights_has_no_step() {
    assert_eq!(get_dc_dz(&vec![], &vec![3], 3), Ok(vec![]));
}

#[test]
fn sweep_refuses_a_wrong_number_of_activations() {
    let weights = vec![shape(10, 2), shape(5, 10)];
    assert_eq!(
        get_dc_dz(&weights, &vec![2, 10], 5),
        Err(ShapeError::ActivationCount { activations: 2, weights: 2 })
    );
    assert_eq!(
        get_dc_dz(&weights, &vec![], 5),
        Err(ShapeError::ActivationCount { activations: 0, weights: 2 })
    );
    assert_eq!(
        get_dc_dz(&weights, &vec![2, 10, 5, 5], 5),
        Err(ShapeError::ActivationCount { activations: 4, weights: 2 })
    );
}

#[test]
fn sweep_refuses_an_expected_vector_of_the_wrong_length() {
    let weights = vec![shape(10, 2), shape(5, 10)];
    assert_eq!(
        get_dc_dz(&weights, &vec![2, 10, 5], 4),
        Err(ShapeError::ExpectedLength { expected: 4, output: 5 })
    );
}

#[test]
fn sweep_refuses_activations_that_do_not_fit_the_weights() {
    let weights = vec![shape(10, 2), shape(5, 10)];
    assert_eq!(
        get_dc_dz(&weights, &vec![3, 10, 5], 5),
        Err(ShapeError::WeightColumns { layer: 0, columns: 2, activation: 3 })
    );
    assert_eq!(
        get_dc_dz(&weights, &vec![2, 9, 5], 5),
        Err(ShapeError::WeightRows { layer: 0, rows: 10, activation: 9 })
    );
    assert_eq!(
        get_dc_dz(&weights, &vec![2, 10, 6], 6),
        Err(ShapeError::WeightRows { layer: 1, rows: 5, activation: 6 })
    );
}

#[test]
fn sweep_looks_at_the_expected_vector_before_the_layers() {
    let weights = vec![shape(10, 2), shape(5, 10)];
    assert_eq!(
        get_dc_dz(&weights, &vec![3, 10, 5], 4),
        Err(ShapeError::ExpectedLength { expected: 4, output: 5 })
    );
}

#[test]
fn gradients_come_front_to_back() {
    let activations = vec![2, 10, 10, 5];
    let steps = vec![
        DeltaStep { layer: 3, source: DeltaSource::Cost, length: 5 },
        DeltaStep { layer: 2, source: DeltaSource::Successor { weights: 2, delta: 0 }, length: 10 },
        DeltaStep { layer: 1, source: DeltaSource::Successor { weights: 1, delta: 1 }, length: 10 },
    ];
    assert_eq!(
        get_gradients_from_dc_dz(&steps, &activations),
        vec![
            step(2, 0, shape(10, 2), 10),
            step(1, 1, shape(10, 10), 10),
            step(0, 2, shape(5, 10), 5),
        ]
    );
}

#[test]
fn gradients_leave_out_what_has_no_partner() {
    let steps = vec![
        DeltaStep { layer: 3, source: DeltaSource::Cost, length: 5 },
        DeltaStep { layer: 2, source: DeltaSource::Successor { weights: 2, delta: 0 }, length: 10 },
        DeltaStep { layer: 1, source: DeltaSource::Successor { weights: 1, delta: 1 }, length: 10 },
    ];
    assert_eq!(
        get_gradients_from_dc_dz(&steps, &vec![7, 8, 9]),
        vec![
            step(1, 0, shape(10, 7), 10),
            step(0, 1, shape(5, 8), 5),
        ]
    );
    assert_eq!(
        get_gradients_from_dc_dz(&steps[..1].to_vec(), &vec![6, 7, 8, 9]),
        vec![step(0, 2, shape(5, 8), 5)]
    );
    assert_eq!(get_gradients_from_dc_dz(&steps, &vec![]), vec![]);
    assert_eq!(get_gradients_from_dc_dz(&steps, &vec![4]), vec![]);
    assert_eq!(get_gradients_from_dc_dz(&vec![], &vec![4, 5]), vec![]);
}

#[test]
fn backpropagation_gives_a_gradient_pair_of_the_right_shape_for_each_layer() {
    let topology = NetworkParameters::new(2, 10, 5, 2).unwrap();
    let weights = weight_shapes(&topology);
    let biases = bias_lengths(&topology);
    let activations = get_activations(2, &weights, &biases).unwrap();
    let gradients = backpropagate(&weights, &activations, 5).unwrap();
    assert_eq!(gradients.len(), topology.hidden_layer_count + 1);
    for layer in 0..weights.len() {
        assert_eq!(gradients[layer].gradients.weights, weights[layer]);
        assert_eq!(gradients[layer].gradients.biases, biases[layer]);
        assert_eq!(gradients[layer].activation, layer);
        assert_eq!(gradients[layer].delta, weights.len() - 1 - layer);
    }
}

#[test]
fn backpropagation_is_the_sweep_followed_by_the_pairing() {
    let weights = vec![shape(2, 1), shape(1, 2)];
    let activations = vec![1, 2, 1];
    let steps = get_dc_dz(&weights, &activations, 1).unwrap();
    assert_eq!(
        backpropagate(&weights, &activations, 1),
        Ok(get_gradients_from_dc_dz(&steps, &activations))
    );
    assert_eq!(
        backpropagate(&weights, &activations, 1),
        Ok(vec![
            step(1, 0, shape(2, 1), 2),
            step(0, 1, shape(1, 2), 1),
        ])
    );
}

#[test]
fn backpropagation_refuses_what_the_sweep_refuses() {
    let weights = vec![shape(10, 2), shape(5, 10)];
    assert_eq!(
        backpropagate(&weights, &vec![2, 10], 5),
        Err(ShapeError::ActivationCount { activations: 2, weights: 2 })
    );
    assert_eq!(
        backpropagate(&weights, &vec![2, 10, 5], 3),
        Err(ShapeError::ExpectedLength { expected: 3, output: 5 })
    );
    assert_eq!(
        backpropagate(&weights, &vec![2, 11, 5], 5),
        Err(ShapeError::WeightRows { layer: 0, rows: 10, activation: 11 })
    );
}

#[test]
fn update_takes_the_gradients_of_backpropagation() {
    let topology = NetworkParameters::new(2, 10, 5, 2).unwrap();
    let weights = weight_shapes(&topology);
    let biases = bias_lengths(&topology);
    let activations = get_activations(2, &weights, &biases).unwrap();
    let steps = backpropagate(&weights, &activations, 5).unwrap();
    assert_eq!(gradient_descent(&weights, &biases, &gradient_shapes(&steps)), Ok(3));
}

#[test]
fn update_without_layers_updates_nothing() {
    assert_eq!(gradient_descent(&vec![], &vec![], &vec![]), Ok(0));
}

#[test]
fn update_refuses_unequal_parameter_counts() {
    let gradients = vec![Gradients { weights: shape(5, 2), biases: 5 }];
    assert_eq!(
        gradient_descent(&vec![shape(5, 2)], &vec![5, 5], &gradients),
        Err(ShapeError::ParameterCount { weights: 1, biases: 2 })
    );
}

#[test]
fn update_refuses_a_wrong_number_of_gradients() {
    assert_eq!(
        gradient_descent(&vec![shape(5, 2)], &vec![5], &vec![]),
        Err(ShapeError::GradientCount { gradients: 0, weights: 1 })
    );
}

#[test]
fn update_refuses_a_weight_gradient_of_another_shape() {
    let gradients = vec![Gradients { weights: shape(2, 5), biases: 5 }];
    assert_eq!(
        gradient_descent(&vec![shape(5, 2)], &vec![5], &gradients),
        Err(ShapeError::WeightGradientShape {
            layer: 0,
            matrix: shape(5, 2),
            matrix_gradient: shape(2, 5),
        })
    );
}

#[test]
fn update_refuses_a_bias_gradient_of_another_length() {
    let gradients = vec![
        Gradients { weights: shape(5, 2), biases: 5 },
        Gradients { weights: shape(3, 5), biases: 4 },
    ];
    assert_eq!(
        gradient_descent(&vec![shape(5, 2), shape(3, 5)], &vec![5, 3], &gradients),
        Err(ShapeError::BiasGradientLength { layer: 1, bias: 3, gradient: 4 })
    );
}

#[test]
fn gradient_shapes_keep_the_order_of_the_steps() {
    let steps = vec![step(1, 0, shape(2, 1), 2), step(0, 1, shape(1, 2), 1)];
    assert_eq!(
        gradient_shapes(&steps),
        vec![
            Gradients { weights: shape(2, 1), biases: 2 },
            Gradients { weights: shape(1, 2), biases: 1 },
        ]
    );
    assert_eq!(gradient_shapes(&vec![]), vec![]);
}
