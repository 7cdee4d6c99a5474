//! Shapes of matrices and the ways in which shapes can disagree.

use vstd::prelude::*;

verus! {

/// Row and column count of a matrix.
#[derive(Clone, Copy, Debug, PartialEq, Eq, Structural)]
pub struct MatrixShape {
    pub rows: usize,
    pub cols: usize,
}

/// A pair of dimensions that should agree and does not. Every variant
/// carries both numbers, and the layer at which they were found where there
/// is one.
#[derive(Clone, Copy, Debug, PartialEq, Eq, Structural)]
pub enum ShapeError {
    /// There are `weights` weight matrices and `biases` bias vectors.
    ParameterCount { weights: usize, biases: usize },
    /// Weight matrix `layer` has `columns` columns, and the activation
    /// vector it is multiplied with has `activation` entries.
    WeightColumns { layer: usize, columns: usize, activation: usize },
    /// Weight matrix `layer` has `rows` rows, and bias vector `layer` has
    /// `bias` entries.
    BiasLength { layer: usize, rows: usize, bias: usize },
    /// There are `activations` activation vectors for `weights` weight
    /// matrices, where one more than the matrices is needed.
    ActivationCount { activations: usize, weights: usize },
    /// Weight matrix `layer` has `rows` rows, and the activation vector it
    /// produced has `activation` entries.
    WeightRows { layer: usize, rows: usize, activation: usize },
    /// The expected vector has `expected` entries and the output layer
    /// `output`.
    ExpectedLength { expected: usize, output: usize },
    /// There are `gradients` gradient pairs for `weights` weight matrices.
    GradientCount { gradients: usize, weights: usize },
    /// Weight matrix `layer` has shape `matrix`, and its gradient has shape
    /// `matrix_gradient`.
    WeightGradientShape { layer: usize, matrix: MatrixShape, matrix_gradient: MatrixShape },
    /// Bias vector `layer` has `bias` entries, and its gradient has
    /// `gradient`.
    BiasGradientLength { layer: usize, bias: usize, gradient: usize },
}

impl MatrixShape {
    /// Shape of the outer product of a vector of `to` entries with a vector
    /// of `from` entries: one row for each entry of the first, one column
    /// for each entry of the second.
    pub open spec fn spec_outer(to: usize, from: usize) -> MatrixShape {
        MatrixShape { rows: to, cols: from }
    }

    /// Shape of the outer product of a vector of `to` entries with a vector
    /// of `from` entries.
    pub fn outer(to: usize, from: usize) -> (r: MatrixShape)
        ensures
            r == Self::spec_outer(to, from),
    {
        MatrixShape { rows: to, cols: from }
    }
}

} // verus!
