use vstd::prelude::*;

use super::activation_fn::ActivationFn;
use super::layer::{Layer, LayerType};

verus! {

/// The ordered description of a network: its layers, from the input
/// layer onward.
#[derive(Clone, Debug, PartialEq)]
pub struct Layout {
    pub layers: Vec<Layer>,
}

/// A usable layer list: at least two layers, the first of them the one
/// input layer, every later one feeding forward.
pub open spec fn layers_valid(layers: Seq<Layer>) -> bool {
    &&& layers.len() >= 2
    &&& layers[0].layer_type == LayerType::Input
    &&& forall|l: int|
        1 <= l < layers.len() ==> (#[trigger] layers[l]).layer_type == LayerType::FeedForward
}

/// How many weights the layer list calls for: for every feed-forward
/// layer, one weight per pair of a neuron in it and a neuron in the
/// layer before it.
pub open spec fn num_weights_spec(layers: Seq<Layer>) -> int
    decreases layers.len(),
{
    if layers.len() < 2 {
        0
    } else {
        let last = layers[layers.len() - 1];
        num_weights_spec(layers.drop_last()) + if last.layer_type == LayerType::FeedForward {
            last.num_neurons * layers[layers.len() - 2].num_neurons
        } else {
            0
        }
    }
}

/// How many biases the layer list calls for: one per neuron of every
/// feed-forward layer.
pub open spec fn num_biases_spec(layers: Seq<Layer>) -> int
    decreases layers.len(),
{
    if layers.len() < 2 {
        0
    } else {
        let last = layers[layers.len() - 1];
        num_biases_spec(layers.drop_last()) + if last.layer_type == LayerType::FeedForward {
            last.num_neurons as int
        } else {
            0
        }
    }
}

/// Both counts never shrink as the layer list grows: a prefix calls for
/// at most as many weights and biases as the whole list.
pub proof fn lemma_counts_monotonic(layers: Seq<Layer>, l: int)
    requires
        0 <= l <= layers.len(),
    ensures
        0 <= num_weights_spec(layers.take(l)) <= num_weights_spec(layers),
        0 <= num_biases_spec(layers.take(l)) <= num_biases_spec(layers),
    decreases layers.len() - l,
{
    lemma_counts_nonnegative(layers.take(l));
    if l == layers.len() {
        assert(layers.take(l) =~= layers);
    } else {
        lemma_counts_monotonic(layers, l + 1);
        assert(layers.take(l + 1).drop_last() =~= layers.take(l));
        if l + 1 >= 2 {
            let last = layers.take(l + 1)[l];
            vstd::arithmetic::mul::lemma_mul_nonnegative(
                last.num_neurons as int,
                layers.take(l + 1)[l - 1].num_neurons as int,
            );
        }
    }
}

/// Neither count is ever negative.
pub proof fn lemma_counts_nonnegative(layers: Seq<Layer>)
    ensures
        num_weights_spec(layers) >= 0,
        num_biases_spec(layers) >= 0,
    decreases layers.len(),
{
    if layers.len() >= 2 {
        lemma_counts_nonnegative(layers.drop_last());
        let last = layers[layers.len() - 1];
        vstd::arithmetic::mul::lemma_mul_nonnegative(
            last.num_neurons as int,
            layers[layers.len() - 2].num_neurons as int,
        );
    }
}

impl Layout {
    /// Wraps the given layer list.
    pub fn new(layers: &Vec<Layer>) -> (r: Self)
        ensures
            r.layers@ == layers@,
    {
        Layout { layers: layers.clone() }
    }

    /// Starts an empty layer list.
    pub fn builder() -> (r: LayoutBuilder)
        ensures
            r.layers@ == Seq::<Layer>::empty(),
    {
        LayoutBuilder::new()
    }

    /// The layer list itself.
    pub fn layers(&self) -> (r: &Vec<Layer>)
        ensures
            r == &self.layers,
    {
        &self.layers
    }

    /// Counts the weights the layout calls for.
    pub fn num_weights(&self) -> (r: usize)
        requires
            num_weights_spec(self.layers@) <= usize::MAX,
        ensures
            r == num_weights_spec(self.layers@),
    {
        let len = self.layers.len();
        if len < 2 {
            return 0;
        }
        let mut num_weights: usize = 0;
        for l in 1..len
            invariant
                len == self.layers@.len(),
                2 <= len,
                num_weights_spec(self.layers@) <= usize::MAX,
                num_weights == num_weights_spec(self.layers@.take(l as int)),
        {
            proof {
                assert(self.layers@.take(l + 1).drop_last() =~= self.layers@.take(l as int));
                assert(self.layers@.take(l + 1)[l as int] == self.layers@[l as int]);
                lemma_counts_monotonic(self.layers@, l + 1);
                lemma_counts_nonnegative(self.layers@.take(l as int));
                vstd::arithmetic::mul::lemma_mul_nonnegative(
                    self.layers@[l as int].num_neurons as int,
                    self.layers@[l as int - 1].num_neurons as int,
                );
            }
            if self.layers[l].layer_type() == LayerType::FeedForward {
                num_weights = num_weights + self.layers[l].num_neurons() * self.layers[l
                    - 1].num_neurons();
            }
        }
        proof {
            assert(self.layers@.take(len as int) =~= self.layers@);
        }
        num_weights
    }

    /// Counts the biases the layout calls for.
    pub fn num_biases(&self) -> (r: usize)
        requires
            num_biases_spec(self.layers@) <= usize::MAX,
        ensures
            r == num_biases_spec(self.layers@),
    {
        let len = self.layers.len();
        if len < 2 {
            return 0;
        }
        let mut num_biases: usize = 0;
        for l in 1..len
            invariant
                len == self.layers@.len(),
                2 <= len,
                num_biases_spec(self.layers@) <= usize::MAX,
                num_biases == num_biases_spec(self.layers@.take(l as int)),
        {
            proof {
                assert(self.layers@.take(l + 1).drop_last() =~= self.layers@.take(l as int));
                assert(self.layers@.take(l + 1)[l as int] == self.layers@[l as int]);
                lemma_counts_monotonic(self.layers@, l + 1);
                lemma_counts_nonnegative(self.layers@.take(l as int));
            }
            if self.layers[l].layer_type() == LayerType::FeedForward {
                num_biases = num_biases + self.layers[l].num_neurons();
            }
        }
        proof {
            assert(self.layers@.take(len as int) =~= self.layers@);
        }
        num_biases
    }
}

/// Collects layers one by one before they become a `Layout`.
#[derive(Clone, Debug, PartialEq)]
pub struct LayoutBuilder {
    pub layers: Vec<Layer>,
}

impl LayoutBuilder {
    /// Starts with no layers.
    pub fn new() -> (r: Self)
        ensures
            r.layers@ == Seq::<Layer>::empty(),
    {
        LayoutBuilder { layers: Vec::new() }
    }

    /// Appends an input layer of the given width.
    pub fn input_layer(self, num_neurons: usize) -> (r: Self)
        ensures
            r.layers@ == self.layers@.push(
                Layer {
                    layer_type: LayerType::Input,
                    activation_fn: ActivationFn::Inert,
                    num_neurons,
                },
            ),
    {
        let mut this = self;
        this.layers.push(Layer::input(num_neurons));
        this
    }

    /// Appends a feed-forward layer of the given activation choice and
    /// width.
    pub fn feed_forward_layer(self, activation_fn: ActivationFn, num_neurons: usize) -> (r: Self)
        ensures
            r.layers@ == self.layers@.push(
                Layer { layer_type: LayerType::FeedForward, activation_fn, num_neurons },
            ),
    {
        let mut this = self;
        this.layers.push(Layer::feed_forward(num_neurons, activation_fn));
        this
    }

    /// Finishes the layer list.
    pub fn build(self) -> (r: Layout)
        ensures
            r.layers@ == self.layers@,
    {
        Layout { layers: self.layers }
    }
}

} // verus!
