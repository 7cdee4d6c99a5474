//! What holds between the parts of the crate: the shapes that a topology
//! gives run through the forward pass, what the forward pass gives runs
//! through backpropagation, and what backpropagation gives fits the update.

use vstd::prelude::*;
use crate::backward::{
    lemma_gradients_fit, lemma_no_link_fault, spec_backpropagate, spec_backward_fault,
    spec_gradient_shapes, spec_link_fault_at,
};
use crate::forward::{lemma_no_fault, spec_activation_lengths, spec_fault_at, spec_forward};
use crate::init::{spec_bias_lengths, spec_weight_shapes};
use crate::shape::MatrixShape;
use crate::topology::NetworkParameters;
use crate::update::{lemma_no_update_fault, spec_gradient_descent, spec_update_fault_at};

verus! {

/// A network without hidden layers is a single layer: it has one weight
/// matrix, with a row for each output and a column for each input, one bias
/// vector, with an entry for each output, and its forward pass gives the
/// input and the output and nothing between them.
pub proof fn law_single_layer(topology: NetworkParameters)
    requires
        topology.valid(),
        topology.hidden_layer_count == 0,
    ensures
        spec_weight_shapes(topology) == seq![
            (MatrixShape { rows: topology.output_size, cols: topology.input_size }),
        ],
        spec_bias_lengths(topology) == seq![topology.output_size],
        spec_forward(topology.input_size, spec_weight_shapes(topology), spec_bias_lengths(topology))
            == Ok::<Seq<usize>, crate::shape::ShapeError>(seq![topology.input_size, topology.output_size]),
{
    let weights = spec_weight_shapes(topology);
    let biases = spec_bias_lengths(topology);
    assert(weights =~= seq![(MatrixShape { rows: topology.output_size, cols: topology.input_size })]);
    assert(biases =~= seq![topology.output_size]);
    law_forward_lengths(topology);
    assert(spec_activation_lengths(topology.input_size, weights) =~= seq![
        topology.input_size,
        topology.output_size,
    ]);
}

/// On the parameters that a valid topology gives, and an input of the
/// topology's input size, the forward pass runs. It gives one activation
/// vector for each layer, the input layer included, each as long as its
/// layer is large, so that the last is as long as the output layer.
pub proof fn law_forward_lengths(topology: NetworkParameters)
    requires
        topology.valid(),
    ensures
        spec_forward(topology.input_size, spec_weight_shapes(topology), spec_bias_lengths(topology))
            == Ok::<Seq<usize>, crate::shape::ShapeError>(
            Seq::new(topology.spec_layer_count(), |layer: int| topology.spec_layer_size(layer)),
        ),
        Seq::new(topology.spec_layer_count(), |layer: int| topology.spec_layer_size(layer)).len()
            == topology.hidden_layer_count + 2,
        Seq::new(topology.spec_layer_count(), |layer: int| topology.spec_layer_size(layer)).last()
            == topology.output_size,
{
    let weights = spec_weight_shapes(topology);
    let biases = spec_bias_lengths(topology);
    assert forall|l: int| 0 <= l < weights.len() implies spec_fault_at(
        topology.input_size,
        weights,
        biases,
        l,
    ) is None by {}
    lemma_no_fault(topology.input_size, weights, biases, 0);
    assert(spec_activation_lengths(topology.input_size, weights) =~= Seq::new(
        topology.spec_layer_count(),
        |layer: int| topology.spec_layer_size(layer),
    ));
}

/// Where the forward pass runs on a set of parameters, backpropagation runs
/// on its activations and an expected vector as long as the last of them.
/// It gives one gradient pair for each layer, the weight gradient has the
/// shape of the layer's weight matrix and the bias gradient the length of
/// its bias vector, and the update step takes these gradients for these
/// parameters and updates every layer.
pub proof fn law_gradient_shapes(input_len: usize, weights: Seq<MatrixShape>, biases: Seq<usize>)
    requires
        weights.len() < usize::MAX,
        spec_forward(input_len, weights, biases) is Ok,
    ensures
        ({
            let activations = spec_forward(input_len, weights, biases)->Ok_0;
            let steps = spec_backpropagate(weights, activations, activations.last());
            &&& steps is Ok
            &&& steps->Ok_0.len() == weights.len()
            &&& forall|layer: int|
                0 <= layer < weights.len() ==> {
                    &&& (#[trigger] steps->Ok_0[layer]).gradients.weights == weights[layer]
                    &&& steps->Ok_0[layer].gradients.biases == biases[layer]
                }
            &&& spec_gradient_descent(weights, biases, spec_gradient_shapes(steps->Ok_0)) == Ok::<
                usize,
                crate::shape::ShapeError,
            >(weights.len() as usize)
        }),
{
    let activations = spec_forward(input_len, weights, biases)->Ok_0;
    assert(activations == spec_activation_lengths(input_len, weights));
    lemma_no_fault(input_len, weights, biases, 0);
    assert forall|l: int| 0 <= l < weights.len() implies spec_link_fault_at(
        weights,
        activations,
        l,
    ) is None by {
        assert(spec_fault_at(input_len, weights, biases, l) is None);
    }
    lemma_no_link_fault(weights, activations, 0);
    assert(spec_backward_fault(weights, activations, activations.last()) is None);
    lemma_gradients_fit(weights, activations, activations.last());
    let steps = spec_backpropagate(weights, activations, activations.last())->Ok_0;
    let gradients = spec_gradient_shapes(steps);
    assert forall|l: int| 0 <= l < weights.len() implies spec_update_fault_at(
        weights,
        biases,
        gradients,
        l,
    ) is None by {
        assert(spec_fault_at(input_len, weights, biases, l) is None);
        assert(steps[l].gradients.weights == weights[l]);
    }
    lemma_no_update_fault(weights, biases, gradients, 0);
    assert forall|layer: int| 0 <= layer < weights.len() implies {
        &&& (#[trigger] steps[layer]).gradients.weights == weights[layer]
        &&& steps[layer].gradients.biases == biases[layer]
    } by {
        assert(spec_fault_at(input_len, weights, biases, layer) is None);
    }
}

} // verus!
