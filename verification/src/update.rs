//! The update step over shapes: whether a set of gradients can be added to
//! a set of parameters, layer by layer.

use vstd::prelude::*;
use crate::backward::Gradients;
use crate::shape::{MatrixShape, ShapeError};

verus! {

/// What is wrong between the parameters of one layer and its gradients: the
/// weight gradient must have the shape of the weight matrix and the bias
/// gradient the length of the bias vector. The weights are looked at first.
pub open spec fn spec_update_fault(
    weights: MatrixShape,
    bias: usize,
    gradients: Gradients,
    layer: usize,
) -> Option<ShapeError> {
    if gradients.weights != weights {
        Some(
            ShapeError::WeightGradientShape { layer, matrix: weights, matrix_gradient: gradients.weights },
        )
    } else if gradients.biases != bias {
        Some(ShapeError::BiasGradientLength { layer, bias, gradient: gradients.biases })
    } else {
        None
    }
}

/// What is wrong between the parameters of layer `layer` and its gradients.
pub open spec fn spec_update_fault_at(
    weights: Seq<MatrixShape>,
    biases: Seq<usize>,
    gradients: Seq<Gradients>,
    layer: int,
) -> Option<ShapeError> {
    spec_update_fault(weights[layer], biases[layer], gradients[layer], layer as usize)
}

/// The fault of the first layer at or after `from` that has one.
pub open spec fn spec_first_update_fault(
    weights: Seq<MatrixShape>,
    biases: Seq<usize>,
    gradients: Seq<Gradients>,
    from: int,
) -> Option<ShapeError>
    decreases weights.len() - from,
{
    if from < 0 || from >= weights.len() {
        None
    } else if spec_update_fault_at(weights, biases, gradients, from) is Some {
        spec_update_fault_at(weights, biases, gradients, from)
    } else {
        spec_first_update_fault(weights, biases, gradients, from + 1)
    }
}

/// Result of the update step over shapes: the number of layers that are
/// updated, which is all of them, or the first disagreement. There must be
/// as many bias vectors as weight matrices and as many gradient pairs, and
/// the gradients of every layer must fit its parameters.
pub open spec fn spec_gradient_descent(
    weights: Seq<MatrixShape>,
    biases: Seq<usize>,
    gradients: Seq<Gradients>,
) -> Result<usize, ShapeError> {
    if weights.len() != biases.len() {
        Err(ShapeError::ParameterCount { weights: weights.len() as usize, biases: biases.len() as usize })
    } else if gradients.len() != weights.len() {
        Err(
            ShapeError::GradientCount {
                gradients: gradients.len() as usize,
                weights: weights.len() as usize,
            },
        )
    } else if spec_first_update_fault(weights, biases, gradients, 0) is Some {
        Err(spec_first_update_fault(weights, biases, gradients, 0)->Some_0)
    } else {
        Ok(weights.len() as usize)
    }
}

/// Where no layer from `from` on has a fault, there is no first fault, and
/// the other way round.
pub proof fn lemma_no_update_fault(
    weights: Seq<MatrixShape>,
    biases: Seq<usize>,
    gradients: Seq<Gradients>,
    from: int,
)
    requires
        0 <= from,
    ensures
        spec_first_update_fault(weights, biases, gradients, from) is None <==> forall|l: int|
            from <= l < weights.len() ==> spec_update_fault_at(weights, biases, gradients, l) is None,
    decreases weights.len() - from,
{
    if from < weights.len() {
        lemma_no_update_fault(weights, biases, gradients, from + 1);
    }
}

/// Validates the update step over shapes. Gives the number of layers to
/// update, each by adding its gradients times the learning rate to its
/// parameters, or the first pair of dimensions that disagrees.
pub fn gradient_descent(
    weights: &Vec<MatrixShape>,
    biases: &Vec<usize>,
    gradients: &Vec<Gradients>,
) -> (r: Result<usize, ShapeError>)
    ensures
        r == spec_gradient_descent(weights@, biases@, gradients@),
{
    let layers: usize = weights.len();
    if layers != biases.len() {
        return Err(ShapeError::ParameterCount { weights: layers, biases: biases.len() });
    }
    if gradients.len() != layers {
        return Err(ShapeError::GradientCount { gradients: gradients.len(), weights: layers });
    }
    let mut layer: usize = 0;
    while layer < layers
        invariant
            layers == weights.len(),
            layers == biases.len(),
            layers == gradients.len(),
            layer <= layers,
            spec_first_update_fault(weights@, biases@, gradients@, 0)
                == spec_first_update_fault(weights@, biases@, gradients@, layer as int),
        decreases layers - layer,
    {
        let shape = weights[layer];
        let pair = gradients[layer];
        if pair.weights.rows != shape.rows || pair.weights.cols != shape.cols {
            return Err(
                ShapeError::WeightGradientShape { layer, matrix: shape, matrix_gradient: pair.weights },
            );
        }
        if pair.biases != biases[layer] {
            return Err(
                ShapeError::BiasGradientLength { layer, bias: biases[layer], gradient: pair.biases },
            );
        }
        assert(spec_update_fault_at(weights@, biases@, gradients@, layer as int) is None);
        layer += 1;
    }
    Ok(layers)
}

} // verus!
