//! The shapes that the parameters of a network are created with.

use vstd::prelude::*;
use crate::shape::MatrixShape;
use crate::topology::NetworkParameters;

verus! {

/// Shape of the weight matrix that leads from layer `layer` to the next:
/// one row for each unit of the next layer, one column for each unit of
/// this one.
pub open spec fn spec_weight_shape(topology: NetworkParameters, layer: int) -> MatrixShape {
    MatrixShape {
        rows: topology.spec_layer_size(layer + 1),
        cols: topology.spec_layer_size(layer),
    }
}

/// Shapes of all weight matrices of a network, front to back.
pub open spec fn spec_weight_shapes(topology: NetworkParameters) -> Seq<MatrixShape> {
    Seq::new(topology.spec_parameter_layer_count(), |layer: int| spec_weight_shape(topology, layer))
}

/// Lengths of all bias vectors of a network, front to back: vector `layer`
/// has one entry for each unit of layer `layer + 1`.
pub open spec fn spec_bias_lengths(topology: NetworkParameters) -> Seq<usize> {
    Seq::new(
        topology.spec_parameter_layer_count(),
        |layer: int| topology.spec_layer_size(layer + 1),
    )
}

/// Shapes of the weight matrices to create for a network, front to back.
pub fn weight_shapes(topology: &NetworkParameters) -> (shapes: Vec<MatrixShape>)
    requires
        topology.valid(),
    ensures
        shapes@ == spec_weight_shapes(*topology),
{
    let count: usize = topology.parameter_layer_count();
    let mut shapes: Vec<MatrixShape> = Vec::new();
    let mut layer: usize = 0;
    while layer < count
        invariant
            topology.valid(),
            count == topology.spec_parameter_layer_count(),
            layer <= count,
            shapes@ == Seq::new(layer as nat, |l: int| spec_weight_shape(*topology, l)),
        decreases count - layer,
    {
        let shape = MatrixShape {
            rows: topology.layer_size(layer + 1),
            cols: topology.layer_size(layer),
        };
        shapes.push(shape);
        layer += 1;
        assert(shapes@ =~= Seq::new(layer as nat, |l: int| spec_weight_shape(*topology, l)));
    }
    shapes
}

/// Lengths of the bias vectors to create for a network, front to back.
pub fn bias_lengths(topology: &NetworkParameters) -> (lengths: Vec<usize>)
    requires
        topology.valid(),
    ensures
        lengths@ == spec_bias_lengths(*topology),
{
    let count: usize = topology.parameter_layer_count();
    let mut lengths: Vec<usize> = Vec::new();
    let mut layer: usize = 0;
    while layer < count
        invariant
            topology.valid(),
            count == topology.spec_parameter_layer_count(),
            layer <= count,
            lengths@ == Seq::new(layer as nat, |l: int| topology.spec_layer_size(l + 1)),
        decreases count - layer,
    {
        lengths.push(topology.layer_size(layer + 1));
        layer += 1;
        assert(lengths@ =~= Seq::new(layer as nat, |l: int| topology.spec_layer_size(l + 1)));
    }
    lengths
}

} // verus!
