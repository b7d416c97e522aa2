use vstd::prelude::*;

use super::activation_fn::ActivationFn;

verus! {

/// A group of neurons with similar function: its kind, its activation
/// choice, and how many neurons it holds.
#[derive(Clone, Copy, Debug, PartialEq, Eq, Structural)]
pub struct Layer {
    pub layer_type: LayerType,
    pub activation_fn: ActivationFn,
    pub num_neurons: usize,
}

/// The type of a `Layer`: exactly one input layer stands first, and every
/// later layer feeds forward.
#[derive(Clone, Copy, Debug, PartialEq, Eq, Structural)]
pub enum LayerType {
    Input,
    FeedForward,
}

impl Layer {
    /// An input layer of the given width.
    pub fn input(num_neurons: usize) -> (r: Self)
        ensures
            r == (Layer {
                layer_type: LayerType::Input,
                activation_fn: ActivationFn::Inert,
                num_neurons,
            }),
    {
        Layer { layer_type: LayerType::Input, activation_fn: ActivationFn::Inert, num_neurons }
    }

    /// A feed-forward layer of the given width and activation choice.
    pub fn feed_forward(num_neurons: usize, activation_fn: ActivationFn) -> (r: Self)
        ensures
            r == (Layer { layer_type: LayerType::FeedForward, activation_fn, num_neurons }),
    {
        Layer { layer_type: LayerType::FeedForward, activation_fn, num_neurons }
    }

    /// Returns the layer type of `self`.
    pub fn layer_type(self) -> (r: LayerType)
        ensures
            r == self.layer_type,
    {
        self.layer_type
    }

    /// Returns the activation choice of `self`.
    pub fn activation_fn(self) -> (r: ActivationFn)
        ensures
            r == self.activation_fn,
    {
        self.activation_fn
    }

    /// Returns the number of neurons of `self`.
    pub fn num_neurons(self) -> (r: usize)
        ensures
            r == self.num_neurons,
    {
        self.num_neurons
    }
}

} // verus!
