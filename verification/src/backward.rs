//! The backward sweep over shapes: in which order the gradients with
//! respect to the layers' weighted sums are computed, from what, and which
//! activation vector each is paired with to give a layer's gradients.

use vstd::prelude::*;
use crate::shape::{MatrixShape, ShapeError};

verus! {

/// What the gradient with respect to a layer's activations is computed from.
#[derive(Clone, Copy, Debug, PartialEq, Eq, Structural)]
pub enum DeltaSource {
    /// The cost: twice the difference of the expected vector and the
    /// layer's activations. Only the output layer has this source.
    Cost,
    /// The layer's successor: every unit's gradient is the dot product of
    /// the unit's column of weight matrix `weights` with the entry at
    /// `delta` of the sweep's results so far.
    Successor { weights: usize, delta: usize },
}

/// One step of the backward sweep: the gradient with respect to the
/// weighted sums of layer `layer`, which is the gradient with respect to
/// its activations times, unit by unit, the derivative of the activation
/// function at activation vector `layer`. It has `length` entries.
#[derive(Clone, Copy, Debug, PartialEq, Eq, Structural)]
pub struct DeltaStep {
    pub layer: usize,
    pub source: DeltaSource,
    pub length: usize,
}

/// The shapes of the gradients of one layer.
#[derive(Clone, Copy, Debug, PartialEq, Eq, Structural)]
pub struct Gradients {
    /// Shape of the weight gradient.
    pub weights: MatrixShape,
    /// Length of the bias gradient.
    pub biases: usize,
}

/// How the gradients of one layer are made: the weight gradient is the
/// outer product of the sweep's result at `delta` with activation vector
/// `activation`, the bias gradient is the sweep's result at `delta` itself,
/// and `gradients` are the shapes that this gives them.
#[derive(Clone, Copy, Debug, PartialEq, Eq, Structural)]
pub struct GradientStep {
    pub delta: usize,
    pub activation: usize,
    pub gradients: Gradients,
}

/// What is wrong between one weight matrix and the two activation vectors
/// around it: it must have one column for each entry of the vector before
/// it and one row for each entry of the vector after it. The columns are
/// looked at first.
pub open spec fn spec_link_fault(
    weights: MatrixShape,
    before: usize,
    after: usize,
    layer: usize,
) -> Option<ShapeError> {
    if weights.cols != before {
        Some(ShapeError::WeightColumns { layer, columns: weights.cols, activation: before })
    } else if weights.rows != after {
        Some(ShapeError::WeightRows { layer, rows: weights.rows, activation: after })
    } else {
        None
    }
}

/// What is wrong between weight matrix `layer` and the activations.
pub open spec fn spec_link_fault_at(
    weights: Seq<MatrixShape>,
    activations: Seq<usize>,
    layer: int,
) -> Option<ShapeError> {
    spec_link_fault(weights[layer], activations[layer], activations[layer + 1], layer as usize)
}

/// The fault of the first weight matrix at or after `from` that has one.
pub open spec fn spec_first_link_fault(
    weights: Seq<MatrixShape>,
    activations: Seq<usize>,
    from: int,
) -> Option<ShapeError>
    decreases weights.len() - from,
{
    if from < 0 || from >= weights.len() {
        None
    } else if spec_link_fault_at(weights, activations, from) is Some {
        spec_link_fault_at(weights, activations, from)
    } else {
        spec_first_link_fault(weights, activations, from + 1)
    }
}

/// Why a backward sweep cannot run on these shapes, if it cannot: there must
/// be one activation vector more than weight matrices, the expected vector
/// must be as long as the last activation vector, and every weight matrix
/// must fit the activation vectors around it. The first that fails, in this
/// order, is named.
pub open spec fn spec_backward_fault(
    weights: Seq<MatrixShape>,
    activations: Seq<usize>,
    expected: usize,
) -> Option<ShapeError> {
    if activations.len() != weights.len() + 1 {
        Some(
            ShapeError::ActivationCount {
                activations: activations.len() as usize,
                weights: weights.len() as usize,
            },
        )
    } else if expected != activations.last() {
        Some(ShapeError::ExpectedLength { expected, output: activations.last() })
    } else {
        spec_first_link_fault(weights, activations, 0)
    }
}

/// Step `position` of the backward sweep of a network with `layers` weight
/// matrices. The sweep starts at the output layer, which is layer `layers`,
/// and goes down to layer 1; after the first step, each step reads the
/// weight matrix that leaves its layer and the result of the step before.
pub open spec fn spec_delta_step(layers: int, activations: Seq<usize>, position: int) -> DeltaStep {
    DeltaStep {
        layer: (layers - position) as usize,
        source: if position == 0 {
            DeltaSource::Cost
        } else {
            DeltaSource::Successor {
                weights: (layers - position) as usize,
                delta: (position - 1) as usize,
            }
        },
        length: activations[layers - position],
    }
}

/// The backward sweep, back to front: one step for each layer that has
/// incoming weights, and none for the input layer.
pub open spec fn spec_dc_dz(weights: Seq<MatrixShape>, activations: Seq<usize>) -> Seq<DeltaStep> {
    Seq::new(
        weights.len(),
        |position: int| spec_delta_step(weights.len() as int, activations, position),
    )
}

/// Number of gradients that `deltas` sweep results and `activations`
/// activation vectors give: the results are paired with the activation
/// vectors but the last, and what finds no partner is left out.
pub open spec fn spec_gradient_count(deltas: int, activations: int) -> int {
    if activations <= 0 {
        0
    } else if deltas <= activations - 1 {
        deltas
    } else {
        activations - 1
    }
}

/// Gradients at `index`, front to back: made of the sweep result `index`
/// places before the last one that has a partner, and of the activation
/// vector that lies as far before the second to last one as that result
/// lies after the sweep's first.
pub open spec fn spec_gradient(
    dc_dzs: Seq<DeltaStep>,
    activations: Seq<usize>,
    index: int,
) -> GradientStep {
    let position = spec_gradient_count(dc_dzs.len() as int, activations.len() as int) - 1 - index;
    let activation = activations.len() - 2 - position;
    GradientStep {
        delta: position as usize,
        activation: activation as usize,
        gradients: Gradients {
            weights: MatrixShape::spec_outer(dc_dzs[position].length, activations[activation]),
            biases: dc_dzs[position].length,
        },
    }
}

/// The gradients of all layers, front to back.
pub open spec fn spec_gradients(dc_dzs: Seq<DeltaStep>, activations: Seq<usize>) -> Seq<GradientStep> {
    Seq::new(
        spec_gradient_count(dc_dzs.len() as int, activations.len() as int) as nat,
        |index: int| spec_gradient(dc_dzs, activations, index),
    )
}

/// The shapes of the gradients that a sequence of steps gives, in the
/// order of the steps.
pub open spec fn spec_gradient_shapes(steps: Seq<GradientStep>) -> Seq<Gradients> {
    Seq::new(steps.len(), |index: int| steps[index].gradients)
}

/// Result of backpropagation over shapes.
pub open spec fn spec_backpropagate(
    weights: Seq<MatrixShape>,
    activations: Seq<usize>,
    expected: usize,
) -> Result<Seq<GradientStep>, ShapeError> {
    match spec_backward_fault(weights, activations, expected) {
        Some(e) => Err(e),
        None => Ok(spec_gradients(spec_dc_dz(weights, activations), activations)),
    }
}

/// Plans the backward sweep. Gives its steps back to front, the output
/// layer's first, or the first pair of dimensions that disagrees.
pub fn get_dc_dz(
    weights: &Vec<MatrixShape>,
    activations: &Vec<usize>,
    expected: usize,
) -> (r: Result<Vec<DeltaStep>, ShapeError>)
    ensures
        match spec_backward_fault(weights@, activations@, expected) {
            Some(e) => r == Err::<Vec<DeltaStep>, ShapeError>(e),
            None => r is Ok && r->Ok_0@ == spec_dc_dz(weights@, activations@),
        },
{
    let layers: usize = weights.len();
    if activations.len() == 0 || activations.len() - 1 != layers {
        return Err(ShapeError::ActivationCount { activations: activations.len(), weights: layers });
    }
    let output: usize = activations[layers];
    if expected != output {
        return Err(ShapeError::ExpectedLength { expected, output });
    }
    let mut layer: usize = 0;
    while layer < layers
        invariant
            layers == weights.len(),
            activations.len() == layers + 1,
            layer <= layers,
            expected == activations@.last(),
            spec_first_link_fault(weights@, activations@, 0)
                == spec_first_link_fault(weights@, activations@, layer as int),
        decreases layers - layer,
    {
        let shape = weights[layer];
        if shape.cols != activations[layer] {
            return Err(
                ShapeError::WeightColumns { layer, columns: shape.cols, activation: activations[layer] },
            );
        }
        if shape.rows != activations[layer + 1] {
            return Err(
                ShapeError::WeightRows { layer, rows: shape.rows, activation: activations[layer + 1] },
            );
        }
        assert(spec_link_fault_at(weights@, activations@, layer as int) is None);
        layer += 1;
    }
    let mut steps: Vec<DeltaStep> = Vec::new();
    let mut position: usize = 0;
    while position < layers
        invariant
            layers == weights.len(),
            activations.len() == layers + 1,
            position <= layers,
            spec_backward_fault(weights@, activations@, expected) is None,
            steps@ == Seq::new(
                position as nat,
                |p: int| spec_delta_step(layers as int, activations@, p),
            ),
        decreases layers - position,
    {
        let source = if position == 0 {
            DeltaSource::Cost
        } else {
            DeltaSource::Successor { weights: layers - position, delta: position - 1 }
        };
        steps.push(DeltaStep { layer: layers - position, source, length: activations[layers - position] });
        position += 1;
        assert(steps@ =~= Seq::new(
            position as nat,
            |p: int| spec_delta_step(layers as int, activations@, p),
        ));
    }
    Ok(steps)
}

/// Pairs the results of a backward sweep, which come back to front, with
/// the activation vectors before their layers, and gives the gradients of
/// the layers front to back.
pub fn get_gradients_from_dc_dz(dc_dzs: &Vec<DeltaStep>, activations: &Vec<usize>) -> (r: Vec<GradientStep>)
    ensures
        r@ == spec_gradients(dc_dzs@, activations@),
{
    let count: usize = if activations.len() == 0 {
        0
    } else if dc_dzs.len() <= activations.len() - 1 {
        dc_dzs.len()
    } else {
        activations.len() - 1
    };
    let mut gradients: Vec<GradientStep> = Vec::new();
    let mut index: usize = 0;
    while index < count
        invariant
            count == spec_gradient_count(dc_dzs.len() as int, activations.len() as int),
            index <= count,
            gradients@ == Seq::new(index as nat, |i: int| spec_gradient(dc_dzs@, activations@, i)),
        decreases count - index,
    {
        let position: usize = count - 1 - index;
        let activation: usize = activations.len() - 2 - position;
        let length: usize = dc_dzs[position].length;
        gradients.push(
            GradientStep {
                delta: position,
                activation,
                gradients: Gradients {
                    weights: MatrixShape::outer(length, activations[activation]),
                    biases: length,
                },
            },
        );
        index += 1;
        assert(gradients@ =~= Seq::new(
            index as nat,
            |i: int| spec_gradient(dc_dzs@, activations@, i),
        ));
    }
    gradients
}

/// The shapes of the gradients that a sequence of steps gives, in the
/// order of the steps.
pub fn gradient_shapes(steps: &Vec<GradientStep>) -> (r: Vec<Gradients>)
    ensures
        r@ == spec_gradient_shapes(steps@),
{
    let mut shapes: Vec<Gradients> = Vec::new();
    let mut index: usize = 0;
    while index < steps.len()
        invariant
            index <= steps.len(),
            shapes@ == Seq::new(index as nat, |i: int| steps@[i].gradients),
        decreases steps.len() - index,
    {
        shapes.push(steps[index].gradients);
        index += 1;
        assert(shapes@ =~= Seq::new(index as nat, |i: int| steps@[i].gradients));
    }
    shapes
}

/// Runs backpropagation over shapes: plans the backward sweep and pairs its
/// results into the gradients of the layers, front to back. Where it
/// succeeds there is one gradient pair for each weight matrix, and each has
/// the shape of the matrix and of the bias vector it belongs to.
pub fn backpropagate(
    weights: &Vec<MatrixShape>,
    activations: &Vec<usize>,
    expected: usize,
) -> (r: Result<Vec<GradientStep>, ShapeError>)
    ensures
        match spec_backpropagate(weights@, activations@, expected) {
            Ok(gradients) => r is Ok && r->Ok_0@ == gradients,
            Err(e) => r == Err::<Vec<GradientStep>, ShapeError>(e),
        },
        r is Ok ==> r->Ok_0@.len() == weights@.len(),
        r is Ok ==> forall|layer: int|
            0 <= layer < weights@.len() ==> {
                &&& (#[trigger] r->Ok_0@[layer]).gradients.weights == weights@[layer]
                &&& r->Ok_0@[layer].gradients.biases == weights@[layer].rows
                &&& r->Ok_0@[layer].activation == layer
                &&& r->Ok_0@[layer].delta == weights@.len() - 1 - layer
            },
{
    match get_dc_dz(weights, activations, expected) {
        Err(e) => Err(e),
        Ok(dc_dzs) => {
            let gradients = get_gradients_from_dc_dz(&dc_dzs, activations);
            proof {
                assert(activations@.len() == activations.len());
                lemma_gradients_fit(weights@, activations@, expected);
            }
            Ok(gradients)
        },
    }
}

/// Where no weight matrix from `from` on has a fault, there is no first
/// fault, and the other way round.
pub proof fn lemma_no_link_fault(weights: Seq<MatrixShape>, activations: Seq<usize>, from: int)
    requires
        0 <= from,
    ensures
        spec_first_link_fault(weights, activations, from) is None <==> forall|l: int|
            from <= l < weights.len() ==> spec_link_fault_at(weights, activations, l) is None,
    decreases weights.len() - from,
{
    if from < weights.len() {
        lemma_no_link_fault(weights, activations, from + 1);
    }
}

/// Where backpropagation runs, it gives one gradient pair for each weight
/// matrix, the weight gradient has the shape of the matrix, the bias
/// gradient has one entry for each of its rows, and gradient `layer` is made
/// of activation vector `layer` and of the sweep's result for layer
/// `layer + 1`.
pub proof fn lemma_gradients_fit(weights: Seq<MatrixShape>, activations: Seq<usize>, expected: usize)
    requires
        activations.len() <= usize::MAX,
        spec_backward_fault(weights, activations, expected) is None,
    ensures
        spec_backpropagate(weights, activations, expected) is Ok,
        spec_backpropagate(weights, activations, expected)->Ok_0.len() == weights.len(),
        forall|layer: int|
            0 <= layer < weights.len() ==> {
                let g = #[trigger] spec_backpropagate(weights, activations, expected)->Ok_0[layer];
                &&& g.gradients.weights == weights[layer]
                &&& g.gradients.biases == weights[layer].rows
                &&& g.activation == layer
                &&& g.delta == weights.len() - 1 - layer
                &&& spec_dc_dz(weights, activations)[g.delta as int].layer == layer + 1
            },
{
    lemma_no_link_fault(weights, activations, 0);
    let dc_dzs = spec_dc_dz(weights, activations);
    let gradients = spec_gradients(dc_dzs, activations);
    assert forall|layer: int| 0 <= layer < weights.len() implies {
        let g = #[trigger] gradients[layer];
        &&& g.gradients.weights == weights[layer]
        &&& g.gradients.biases == weights[layer].rows
        &&& g.activation == layer
        &&& g.delta == weights.len() - 1 - layer
        &&& dc_dzs[g.delta as int].layer == layer + 1
    } by {
        assert(spec_link_fault_at(weights, activations, layer) is None);
        let count = spec_gradient_count(dc_dzs.len() as int, activations.len() as int);
        assert(count == weights.len());
        let position = count - 1 - layer;
        assert(gradients[layer] == spec_gradient(dc_dzs, activations, layer));
        assert(dc_dzs[position] == spec_delta_step(weights.len() as int, activations, position));
    }
}

} // verus!
