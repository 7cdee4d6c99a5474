//! The forward pass over shapes: which activation vectors a set of
//! parameters produces from an input of a given length, or where the
//! parameters do not fit.

use vstd::prelude::*;
use crate::shape::{MatrixShape, ShapeError};

verus! {

/// Lengths of the activation vectors of a forward pass, the input first:
/// every weight matrix adds a vector with one entry for each of its rows.
pub open spec fn spec_activation_lengths(input_len: usize, weights: Seq<MatrixShape>) -> Seq<usize> {
    Seq::new(
        weights.len() + 1,
        |k: int| if k == 0 { input_len } else { weights[k - 1].rows },
    )
}

/// What is wrong with one layer, given the length of the activation vector
/// that enters it: the matrix must have one column for each entry of that
/// vector, and the bias vector one entry for each row of the matrix. The
/// columns are looked at first.
pub open spec fn spec_layer_fault(
    incoming: usize,
    weights: MatrixShape,
    bias: usize,
    layer: usize,
) -> Option<ShapeError> {
    if weights.cols != incoming {
        Some(ShapeError::WeightColumns { layer, columns: weights.cols, activation: incoming })
    } else if bias != weights.rows {
        Some(ShapeError::BiasLength { layer, rows: weights.rows, bias })
    } else {
        None
    }
}

/// What is wrong with layer `layer` of a forward pass.
pub open spec fn spec_fault_at(
    input_len: usize,
    weights: Seq<MatrixShape>,
    biases: Seq<usize>,
    layer: int,
) -> Option<ShapeError> {
    spec_layer_fault(
        spec_activation_lengths(input_len, weights)[layer],
        weights[layer],
        biases[layer],
        layer as usize,
    )
}

/// The fault of the first layer at or after `from` that has one.
pub open spec fn spec_first_fault(
    input_len: usize,
    weights: Seq<MatrixShape>,
    biases: Seq<usize>,
    from: int,
) -> Option<ShapeError>
    decreases weights.len() - from,
{
    if from < 0 || from >= weights.len() {
        None
    } else if spec_fault_at(input_len, weights, biases, from) is Some {
        spec_fault_at(input_len, weights, biases, from)
    } else {
        spec_first_fault(input_len, weights, biases, from + 1)
    }
}

/// Result of a forward pass over shapes: the activation lengths where
/// everything fits, else the first disagreement, the counts of matrices and
/// bias vectors being compared before any layer.
pub open spec fn spec_forward(
    input_len: usize,
    weights: Seq<MatrixShape>,
    biases: Seq<usize>,
) -> Result<Seq<usize>, ShapeError> {
    if weights.len() != biases.len() {
        Err(ShapeError::ParameterCount { weights: weights.len() as usize, biases: biases.len() as usize })
    } else if spec_first_fault(input_len, weights, biases, 0) is Some {
        Err(spec_first_fault(input_len, weights, biases, 0)->Some_0)
    } else {
        Ok(spec_activation_lengths(input_len, weights))
    }
}

/// Where no layer from `from` on has a fault, there is no first fault, and
/// the other way round.
pub proof fn lemma_no_fault(
    input_len: usize,
    weights: Seq<MatrixShape>,
    biases: Seq<usize>,
    from: int,
)
    requires
        0 <= from,
    ensures
        spec_first_fault(input_len, weights, biases, from) is None <==> forall|l: int|
            from <= l < weights.len() ==> spec_fault_at(input_len, weights, biases, l) is None,
    decreases weights.len() - from,
{
    if from < weights.len() {
        lemma_no_fault(input_len, weights, biases, from + 1);
    }
}

/// Runs the forward pass over shapes. Gives the length of every activation
/// vector, the input's first, or the first pair of dimensions that
/// disagrees.
pub fn get_activations(
    input_len: usize,
    weights: &Vec<MatrixShape>,
    biases: &Vec<usize>,
) -> (r: Result<Vec<usize>, ShapeError>)
    ensures
        match spec_forward(input_len, weights@, biases@) {
            Ok(lengths) => r is Ok && r->Ok_0@ == lengths,
            Err(e) => r == Err::<Vec<usize>, ShapeError>(e),
        },
{
    if weights.len() != biases.len() {
        return Err(ShapeError::ParameterCount { weights: weights.len(), biases: biases.len() });
    }
    let ghost all = spec_activation_lengths(input_len, weights@);
    let mut lengths: Vec<usize> = Vec::new();
    lengths.push(input_len);
    let mut incoming: usize = input_len;
    let mut layer: usize = 0;
    assert(lengths@ =~= all.take(1));
    while layer < weights.len()
        invariant
            weights.len() == biases.len(),
            all == spec_activation_lengths(input_len, weights@),
            layer <= weights.len(),
            lengths@ == all.take(layer + 1),
            incoming == all[layer as int],
            spec_first_fault(input_len, weights@, biases@, 0)
                == spec_first_fault(input_len, weights@, biases@, layer as int),
        decreases weights.len() - layer,
    {
        let shape = weights[layer];
        let bias = biases[layer];
        if shape.cols != incoming {
            return Err(ShapeError::WeightColumns { layer, columns: shape.cols, activation: incoming });
        }
        if bias != shape.rows {
            return Err(ShapeError::BiasLength { layer, rows: shape.rows, bias });
        }
        assert(spec_fault_at(input_len, weights@, biases@, layer as int) is None);
        lengths.push(shape.rows);
        incoming = shape.rows;
        layer += 1;
        assert(lengths@ =~= all.take(layer + 1));
    }
    assert(lengths@ =~= all);
    Ok(lengths)
}

} // verus!
