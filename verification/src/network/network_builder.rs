use vstd::prelude::*;

use super::activation_fn::ActivationFn;
use super::layer::{Layer, LayerType};
use super::layout::Layout;
use super::Network;

verus! {

/// Collects layers one by one before they become a `Network`.
#[derive(Clone, Debug, PartialEq)]
pub struct NetworkBuilder {
    pub layers: Vec<Layer>,
}

impl NetworkBuilder {
    /// Starts with no layers.
    pub fn new() -> (r: Self)
        ensures
            r.layers@ == Seq::<Layer>::empty(),
    {
        NetworkBuilder { layers: Vec::new() }
    }

    /// Appends an input layer of the given width.
    pub fn input_layer(self, num_neurons: usize) -> (r: Self)
        ensures
            r.layers@ == self.layers@.push(
                Layer {
                    layer_type: LayerType::Input,
                    activation_fn: ActivationFn::Inert,
                    num_neurons,
                },
            ),
    {
        let mut this = self;
        this.layers.push(Layer::input(num_neurons));
        this
    }

    /// Appends a feed-forward layer of the given activation choice and
    /// width.
    pub fn feed_forward_layer(self, activation_fn: ActivationFn, num_neurons: usize) -> (r: Self)
        ensures
            r.layers@ == self.layers@.push(
                Layer { layer_type: LayerType::FeedForward, activation_fn, num_neurons },
            ),
    {
        let mut this = self;
        this.layers.push(Layer::feed_forward(num_neurons, activation_fn));
        this
    }

    /// Finishes the network.
    pub fn build(self) -> (r: Network)
        ensures
            r.layout.layers@ == self.layers@,
    {
        Network { layout: Layout { layers: self.layers } }
    }
}

} // verus!
