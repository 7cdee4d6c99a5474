//! The topology of a network: its layer sizes and layer count.

use vstd::prelude::*;

verus! {

/// Why a topology is refused.
#[derive(Clone, Copy, Debug, PartialEq, Eq, Structural)]
pub enum ConfigError {
    /// The input layer has no unit.
    EmptyInputLayer,
    /// There is at least one hidden layer, and hidden layers have no unit.
    EmptyHiddenLayer,
    /// The output layer has no unit.
    EmptyOutputLayer,
    /// The layer count does not fit in a machine word.
    TooManyLayers,
}

/// Layer sizes and hidden layer count of a network.
#[derive(Clone, Copy, Debug, PartialEq, Eq, Structural)]
pub struct NetworkParameters {
    pub input_size: usize,
    pub hidden_size: usize,
    pub output_size: usize,
    pub hidden_layer_count: usize,
}

impl NetworkParameters {
    /// Number of layers, the input layer included.
    pub open spec fn spec_layer_count(&self) -> nat {
        (self.hidden_layer_count + 2) as nat
    }

    /// Number of layers that carry weights and biases.
    pub open spec fn spec_parameter_layer_count(&self) -> nat {
        (self.hidden_layer_count + 1) as nat
    }

    /// Size of layer `layer`: layer 0 is the input, every layer after the
    /// hidden ones is the output.
    pub open spec fn spec_layer_size(&self, layer: int) -> usize {
        if layer <= 0 {
            self.input_size
        } else if layer <= self.hidden_layer_count {
            self.hidden_size
        } else {
            self.output_size
        }
    }

    /// A topology is valid when every layer it has holds at least one unit
    /// and its layer count fits in a machine word.
    pub open spec fn valid(&self) -> bool {
        &&& self.input_size > 0
        &&& self.output_size > 0
        &&& (self.hidden_layer_count > 0 ==> self.hidden_size > 0)
        &&& self.hidden_layer_count + 2 <= usize::MAX
    }

    /// The first reason, in the order of `ConfigError`'s variants, for which
    /// a topology with these sizes is refused.
    pub open spec fn spec_check(
        input_size: usize,
        hidden_size: usize,
        output_size: usize,
        hidden_layer_count: usize,
    ) -> Option<ConfigError> {
        if input_size == 0 {
            Some(ConfigError::EmptyInputLayer)
        } else if hidden_layer_count > 0 && hidden_size == 0 {
            Some(ConfigError::EmptyHiddenLayer)
        } else if output_size == 0 {
            Some(ConfigError::EmptyOutputLayer)
        } else if hidden_layer_count + 2 > usize::MAX {
            Some(ConfigError::TooManyLayers)
        } else {
            None
        }
    }

    /// Builds a topology, refusing one with an empty layer.
    pub fn new(
        input_size: usize,
        hidden_size: usize,
        output_size: usize,
        hidden_layer_count: usize,
    ) -> (r: Result<NetworkParameters, ConfigError>)
        ensures
            match Self::spec_check(input_size, hidden_size, output_size, hidden_layer_count) {
                Some(e) => r == Err::<NetworkParameters, ConfigError>(e),
                None => r == Ok::<NetworkParameters, ConfigError>(
                    (NetworkParameters { input_size, hidden_size, output_size, hidden_layer_count }),
                ),
            },
            r is Ok ==> r->Ok_0.valid(),
    {
        if input_size == 0 {
            Err(ConfigError::EmptyInputLayer)
        } else if hidden_layer_count > 0 && hidden_size == 0 {
            Err(ConfigError::EmptyHiddenLayer)
        } else if output_size == 0 {
            Err(ConfigError::EmptyOutputLayer)
        } else if hidden_layer_count > usize::MAX - 2 {
            Err(ConfigError::TooManyLayers)
        } else {
            Ok(NetworkParameters { input_size, hidden_size, output_size, hidden_layer_count })
        }
    }

    /// Number of layers, the input layer included.
    pub fn layer_count(&self) -> (r: usize)
        requires
            self.valid(),
        ensures
            r == self.spec_layer_count(),
    {
        self.hidden_layer_count + 2
    }

    /// Number of layers that carry weights and biases.
    pub fn parameter_layer_count(&self) -> (r: usize)
        requires
            self.valid(),
        ensures
            r == self.spec_parameter_layer_count(),
    {
        self.hidden_layer_count + 1
    }

    /// Size of layer `layer`.
    pub fn layer_size(&self, layer: usize) -> (r: usize)
        ensures
            r == self.spec_layer_size(layer as int),
    {
        if layer == 0 {
            self.input_size
        } else if layer <= self.hidden_layer_count {
            self.hidden_size
        } else {
            self.output_size
        }
    }
}

} // verus!
