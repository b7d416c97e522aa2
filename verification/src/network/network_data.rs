use vstd::prelude::*;

use vstd::arithmetic::mul::{lemma_mul_inequality, lemma_mul_is_distributive_add_other_way,
    lemma_mul_nonnegative};

use super::layer::Layer;
use super::layout::{layers_valid, num_biases_spec, num_weights_spec};
use super::params::Params;

verus! {

/// The flattened working form of a network: one record per computing
/// layer, one per neuron, and the weight vector, with every start index
/// precomputed so the forward pass works on flat vectors.
#[derive(Clone, Debug)]
pub struct NetworkData<U> {
    pub layer_data: Vec<LayerData>,
    pub neuron_data: Vec<NeuronData<U>>,
    pub weight_data: Vec<U>,
}

/// One computing layer and where its neurons start in the flat neuron
/// vector.
#[derive(Clone, Copy, Debug)]
pub struct LayerData {
    pub layer: Layer,
    pub neuron_start_idx: usize,
}

/// One neuron's working state: its activation once computed, its bias,
/// and where its weights start in the flat weight vector.
#[derive(Clone, Copy, Debug)]
pub struct NeuronData<U> {
    pub activation: Option<U>,
    pub bias: U,
    pub weight_start_idx: usize,
}

/// The layer records the flattened form holds: layer `l` of the list
/// (for `l >= 1`) with its neurons starting after those of all earlier
/// computing layers.
pub open spec fn layer_data_spec(layers: Seq<Layer>) -> Seq<LayerData> {
    Seq::new(
        (layers.len() - 1) as nat,
        |k: int|
            LayerData {
                layer: layers[k + 1],
                neuron_start_idx: num_biases_spec(layers.take(k + 1)) as usize,
            },
    )
}

/// The neuron records of one computing layer: activation not yet
/// computed, each neuron's own bias taken from the bias vector at the
/// neuron's global position, and the weights starting where the earlier
/// neurons' weights end.
pub open spec fn layer_neurons_spec<U>(layers: Seq<Layer>, biases: Seq<U>, l: int) -> Seq<
    NeuronData<U>,
> {
    Seq::new(
        layers[l].num_neurons as nat,
        |n: int|
            NeuronData {
                activation: Option::None,
                bias: biases[num_biases_spec(layers.take(l)) + n],
                weight_start_idx: (num_weights_spec(layers.take(l)) + n * layers[l
                    - 1].num_neurons) as usize,
            },
    )
}

/// The flat neuron vector for the computing layers before layer `l`.
pub open spec fn neuron_base_spec<U>(layers: Seq<Layer>, biases: Seq<U>, l: int) -> Seq<
    NeuronData<U>,
>
    decreases l,
{
    if l <= 1 {
        Seq::<NeuronData<U>>::empty()
    } else {
        neuron_base_spec(layers, biases, l - 1) + layer_neurons_spec(layers, biases, l - 1)
    }
}

/// The flat neuron vector covers exactly the biases the prefix calls
/// for.
pub proof fn lemma_neuron_base_len<U>(layers: Seq<Layer>, biases: Seq<U>, l: int)
    requires
        layers_valid(layers),
        1 <= l <= layers.len(),
    ensures
        neuron_base_spec(layers, biases, l).len() == num_biases_spec(layers.take(l)),
    decreases l,
{
    if l == 1 {
        assert(layers.take(1).len() == 1);
    } else {
        lemma_neuron_base_len(layers, biases, l - 1);
        lemma_counts_step(layers, l - 1);
    }
}

/// The steps both counts take when one more valid layer is included.
pub proof fn lemma_counts_step(layers: Seq<Layer>, l: int)
    requires
        layers_valid(layers),
        1 <= l < layers.len(),
    ensures
        num_biases_spec(layers.take(l + 1)) == num_biases_spec(layers.take(l))
            + layers[l].num_neurons,
        num_weights_spec(layers.take(l + 1)) == num_weights_spec(layers.take(l))
            + layers[l].num_neurons * layers[l - 1].num_neurons,
{
    assert(layers.take(l + 1).drop_last() =~= layers.take(l));
    assert(layers.take(l + 1)[l] == layers[l]);
    assert(layers.take(l + 1)[l - 1] == layers[l - 1]);
}

/// Prefix counts only grow with the prefix.
pub proof fn lemma_counts_prefix_mono(layers: Seq<Layer>, a: int, b: int)
    requires
        0 <= a <= b <= layers.len(),
    ensures
        num_weights_spec(layers.take(a)) <= num_weights_spec(layers.take(b)),
        num_biases_spec(layers.take(a)) <= num_biases_spec(layers.take(b)),
{
    assert(layers.take(b).take(a) =~= layers.take(a));
    crate::network::layout::lemma_counts_monotonic(layers.take(b), a);
}

/// Where each neuron of a computing layer stands in the flat vector.
pub proof fn lemma_neuron_base_index<U>(layers: Seq<Layer>, biases: Seq<U>, l: int, n: int, m: int)
    requires
        layers_valid(layers),
        1 <= l < m <= layers.len(),
        0 <= n < layers[l].num_neurons,
    ensures
        num_biases_spec(layers.take(l)) + n < neuron_base_spec(layers, biases, m).len(),
        neuron_base_spec(layers, biases, m)[num_biases_spec(layers.take(l)) + n]
            == layer_neurons_spec(layers, biases, l)[n],
    decreases m,
{
    lemma_neuron_base_len(layers, biases, m);
    crate::network::layout::lemma_counts_nonnegative(layers.take(l));
    if m == l + 1 {
        lemma_neuron_base_len(layers, biases, l);
    } else {
        lemma_neuron_base_index(layers, biases, l, n, m - 1);
        lemma_neuron_base_len(layers, biases, m - 1);
        lemma_counts_step(layers, l);
        lemma_counts_prefix_mono(layers, l + 1, m - 1);
    }
}

/// Every record of the flat neuron vector starts with its activation
/// not yet computed.
pub proof fn lemma_neuron_base_unfilled<U>(layers: Seq<Layer>, biases: Seq<U>, l: int)
    ensures
        forall|i: int|
            0 <= i < neuron_base_spec(layers, biases, l).len() ==> (#[trigger] neuron_base_spec(
                layers,
                biases,
                l,
            )[i]).activation is None,
    decreases l,
{
    if l > 1 {
        lemma_neuron_base_unfilled(layers, biases, l - 1);
        let left = neuron_base_spec(layers, biases, l - 1);
        let right = layer_neurons_spec(layers, biases, l - 1);
        assert forall|i: int|
            0 <= i < neuron_base_spec(layers, biases, l).len() implies (#[trigger] neuron_base_spec(
            layers,
            biases,
            l,
        )[i]).activation is None by {
            if i < left.len() {
                assert(neuron_base_spec(layers, biases, l)[i] == left[i]);
            } else {
                assert(neuron_base_spec(layers, biases, l)[i] == right[i - left.len()]);
            }
        }
    }
}

impl<U: Copy> NetworkData<U> {
    /// Flattens a valid layer list and rightly shaped parameters: layer
    /// records with their neuron start indices, neuron records with
    /// their bias and weight start indices, and the weight vector as
    /// given.
    pub fn new(layers: &Vec<Layer>, params: &Params<U>) -> (r: Self)
        requires
            layers_valid(layers@),
            params.weights@.len() == num_weights_spec(layers@),
            params.biases@.len() == num_biases_spec(layers@),
        ensures
            r.layer_data@ == layer_data_spec(layers@),
            r.neuron_data@ == neuron_base_spec(layers@, params.biases@, layers@.len() as int),
            r.weight_data@ == params.weights@,
    {
        let len = layers.len();
        let mut layer_data: Vec<LayerData> = Vec::new();
        let mut neuron_data: Vec<NeuronData<U>> = Vec::new();

        let mut weight_data: Vec<U> = Vec::new();
        let wlen = params.weights.len();
        for i in 0..wlen
            invariant
                wlen == params.weights@.len(),
                weight_data@ == params.weights@.take(i as int),
        {
            weight_data.push(params.weights[i]);
            proof {
                assert(weight_data@ =~= params.weights@.take(i + 1));
            }
        }
        proof {
            assert(weight_data@ =~= params.weights@);
        }

        let blen = params.biases.len();
        let mut neuron_count: usize = 0;
        let mut weight_count: usize = 0;
        for l in 1..len
            invariant
                len == layers@.len(),
                layers_valid(layers@),
                params.weights@.len() == num_weights_spec(layers@),
                params.biases@.len() == num_biases_spec(layers@),
                num_weights_spec(layers@) <= wlen <= usize::MAX,
                num_biases_spec(layers@) <= blen <= usize::MAX,
                layer_data@ == layer_data_spec(layers@).take(l - 1),
                neuron_data@ == neuron_base_spec(layers@, params.biases@, l as int),
                neuron_count == num_biases_spec(layers@.take(l as int)),
                weight_count == num_weights_spec(layers@.take(l as int)),
        {
            let neurons_in_layer = layers[l].num_neurons();
            layer_data.push(LayerData { layer: layers[l], neuron_start_idx: neuron_count });
            proof {
                assert(layer_data@ =~= layer_data_spec(layers@).take(l as int - 1 + 1));
            }

            let weights_per_neuron = layers[l - 1].num_neurons();
            proof {
                assert(layer_neurons_spec(layers@, params.biases@, l as int).take(0)
                    =~= Seq::<NeuronData<U>>::empty());
                assert(neuron_data@ =~= neuron_base_spec(layers@, params.biases@, l as int)
                    + layer_neurons_spec(layers@, params.biases@, l as int).take(0));
                assert(0 * (weights_per_neuron as int) == 0) by (nonlinear_arith);
            }
            for n in 0..neurons_in_layer
                invariant
                    len == layers@.len(),
                    layers_valid(layers@),
                    1 <= l < len,
                    params.weights@.len() == num_weights_spec(layers@),
                    params.biases@.len() == num_biases_spec(layers@),
                    num_weights_spec(layers@) <= wlen <= usize::MAX,
                    num_biases_spec(layers@) <= blen <= usize::MAX,
                    neurons_in_layer == layers@[l as int].num_neurons,
                    weights_per_neuron == layers@[l as int - 1].num_neurons,
                    neuron_count == num_biases_spec(layers@.take(l as int)),
                    neuron_data@ == neuron_base_spec(layers@, params.biases@, l as int)
                        + layer_neurons_spec(layers@, params.biases@, l as int).take(n as int),
                    weight_count == num_weights_spec(layers@.take(l as int)) + n
                        * weights_per_neuron,
            {
                proof {
                    crate::network::layout::lemma_counts_nonnegative(layers@.take(l as int));
                    lemma_counts_step(layers@, l as int);
                    lemma_counts_prefix_mono(layers@, l as int + 1, len as int);
                    lemma_mul_nonnegative(n as int, weights_per_neuron as int);
                    lemma_mul_inequality(
                        n as int + 1,
                        neurons_in_layer as int,
                        weights_per_neuron as int,
                    );
                    lemma_mul_is_distributive_add_other_way(
                        weights_per_neuron as int,
                        n as int,
                        1,
                    );
                    assert(layers@.take(len as int) =~= layers@);
                }
                neuron_data.push(
                    NeuronData {
                        activation: None,
                        bias: params.biases[neuron_count + n],
                        weight_start_idx: weight_count,
                    },
                );
                proof {
                    assert(neuron_data@ =~= neuron_base_spec(layers@, params.biases@, l as int)
                        + layer_neurons_spec(layers@, params.biases@, l as int).take(n + 1));
                }
                weight_count = weight_count + weights_per_neuron;
            }

            proof {
                lemma_counts_step(layers@, l as int);
                assert(layer_neurons_spec(layers@, params.biases@, l as int).take(
                    neurons_in_layer as int,
                ) =~= layer_neurons_spec(layers@, params.biases@, l as int));
                assert(neuron_data@ =~= neuron_base_spec(
                    layers@,
                    params.biases@,
                    l as int + 1,
                ));
                lemma_counts_prefix_mono(layers@, l as int + 1, len as int);
                assert(layers@.take(len as int) =~= layers@);
            }
            neuron_count = neuron_count + neurons_in_layer;
        }

        proof {
            assert(layer_data@ =~= layer_data_spec(layers@));
        }

        NetworkData { layer_data, neuron_data, weight_data }
    }

    /// Reads off the last layer's activations, which the forward pass
    /// has filled in.
    pub fn output(&self) -> (r: Vec<U>)
        requires
            self.layer_data@.len() >= 1,
            self.layer_data@.last().neuron_start_idx + self.layer_data@.last().layer.num_neurons
                <= self.neuron_data@.len(),
            forall|i: int|
                self.layer_data@.last().neuron_start_idx <= i < self.layer_data@.last().neuron_start_idx
                    + self.layer_data@.last().layer.num_neurons ==> (#[trigger] self.neuron_data@[i].activation) is Some,
        ensures
            r@.len() == self.layer_data@.last().layer.num_neurons,
            forall|n: int|
                0 <= n < r@.len() ==> (#[trigger] r@[n]) == self.neuron_data@[
                    self.layer_data@.last().neuron_start_idx + n
                ].activation.unwrap(),
    {
        let last = self.layer_data[self.layer_data.len() - 1];
        let mut output: Vec<U> = Vec::new();
        let count = last.layer.num_neurons();
        let nlen = self.neuron_data.len();
        for n in 0..count
            invariant
                self.layer_data@.len() >= 1,
                last == self.layer_data@.last(),
                count == last.layer.num_neurons,
                nlen == self.neuron_data@.len(),
                last.neuron_start_idx + count <= nlen,
                forall|i: int|
                    last.neuron_start_idx <= i < last.neuron_start_idx + count ==> (
                    #[trigger] self.neuron_data@[i].activation) is Some,
                output@.len() == n,
                forall|k: int|
                    0 <= k < n ==> (#[trigger] output@[k]) == self.neuron_data@[
                        last.neuron_start_idx + k
                    ].activation.unwrap(),
        {
            output.push(self.neuron_data[n + last.neuron_start_idx].activation.unwrap());
        }
        output
    }
}

} // verus!
