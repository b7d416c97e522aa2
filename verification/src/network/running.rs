use vstd::prelude::*;

use vstd::arithmetic::mul::{lemma_mul_inequality, lemma_mul_is_distributive_add_other_way,
    lemma_mul_nonnegative};

use crate::autodiff::scalar::Real;
use crate::autodiff::tape::{extends, Tape};
use crate::autodiff::var::Var;

use super::layer::Layer;
use super::layout::{layers_valid, lemma_counts_nonnegative, num_biases_spec, num_weights_spec};
use super::network_data::{layer_data_spec, lemma_counts_prefix_mono,
    lemma_counts_step, lemma_neuron_base_index, lemma_neuron_base_len, lemma_neuron_base_unfilled,
    neuron_base_spec, NetworkData, NeuronData};
use super::params::{params_shaped, Params};
use super::run_results::RunResults;
use super::Network;

verus! {

/// A neuron's weighted sum: the bias, plus weight times incoming
/// activation for each incoming connection in turn.
pub open spec fn weighted_sum_spec<T: Real>(
    bias: T,
    weights: Seq<T>,
    acts: Seq<T>,
    start: int,
    k: int,
) -> T
    decreases k,
{
    if k <= 0 {
        bias
    } else {
        weighted_sum_spec(bias, weights, acts, start, k - 1).add_spec(
            weights[start + k - 1].mul_spec(acts[k - 1]),
        )
    }
}

/// The activations of layer `l`: the input itself for the input layer,
/// and otherwise each neuron's activation function applied to its
/// weighted sum over the previous layer's activations. Each neuron
/// reads its own bias: the bias vector's entry at the neuron's global
/// position across the computing layers.
pub open spec fn layer_acts_spec<T: Real>(
    layers: Seq<Layer>,
    weights: Seq<T>,
    biases: Seq<T>,
    input: Seq<T>,
    l: int,
) -> Seq<T>
    decreases l,
{
    if l <= 0 {
        input
    } else {
        let prev = layer_acts_spec(layers, weights, biases, input, l - 1);
        Seq::new(
            layers[l].num_neurons as nat,
            |n: int|
                crate::network::activation_fn::compute_spec(
                    layers[l].activation_fn,
                    weighted_sum_spec(
                        biases[num_biases_spec(layers.take(l)) + n],
                        weights,
                        prev,
                        num_weights_spec(layers.take(l)) + n * layers[l - 1].num_neurons,
                        layers[l - 1].num_neurons as int,
                    ),
                ),
        )
    }
}

/// What a forward pass returns: the activations of the last layer.
pub open spec fn forward_spec<T: Real>(
    layers: Seq<Layer>,
    weights: Seq<T>,
    biases: Seq<T>,
    input: Seq<T>,
) -> Seq<T> {
    layer_acts_spec(layers, weights, biases, input, layers.len() - 1)
}

/// The activations of the computing layers up to and including layer
/// `m`, flattened in the order their neurons stand in the flat neuron
/// vector.
pub open spec fn acts_flat_spec<T: Real>(
    layers: Seq<Layer>,
    weights: Seq<T>,
    biases: Seq<T>,
    input: Seq<T>,
    m: int,
) -> Seq<T>
    decreases m,
{
    if m <= 0 {
        Seq::<T>::empty()
    } else {
        acts_flat_spec(layers, weights, biases, input, m - 1) + layer_acts_spec(
            layers,
            weights,
            biases,
            input,
            m,
        )
    }
}

/// The flattened activations cover exactly the neurons of the covered
/// layers.
pub proof fn lemma_acts_flat_len<T: Real>(
    layers: Seq<Layer>,
    weights: Seq<T>,
    biases: Seq<T>,
    input: Seq<T>,
    m: int,
)
    requires
        layers_valid(layers),
        0 <= m < layers.len(),
    ensures
        acts_flat_spec(layers, weights, biases, input, m).len() == num_biases_spec(
            layers.take(m + 1),
        ),
    decreases m,
{
    if m == 0 {
        assert(layers.take(1).len() == 1);
    } else {
        lemma_acts_flat_len(layers, weights, biases, input, m - 1);
        lemma_counts_step(layers, m);
    }
}

/// Where each layer's activations stand in the flattened vector.
pub proof fn lemma_acts_flat_index<T: Real>(
    layers: Seq<Layer>,
    weights: Seq<T>,
    biases: Seq<T>,
    input: Seq<T>,
    m: int,
    l: int,
    w: int,
)
    requires
        layers_valid(layers),
        1 <= l <= m < layers.len(),
        0 <= w < layers[l].num_neurons,
    ensures
        num_biases_spec(layers.take(l)) + w < acts_flat_spec(
            layers,
            weights,
            biases,
            input,
            m,
        ).len(),
        acts_flat_spec(layers, weights, biases, input, m)[num_biases_spec(layers.take(l)) + w]
            == layer_acts_spec(layers, weights, biases, input, l)[w],
    decreases m,
{
    lemma_acts_flat_len(layers, weights, biases, input, m);
    lemma_counts_nonnegative(layers.take(l));
    lemma_counts_step(layers, l);
    if m == l {
        lemma_acts_flat_len(layers, weights, biases, input, m - 1);
    } else {
        lemma_acts_flat_index(layers, weights, biases, input, m - 1, l, w);
        lemma_acts_flat_len(layers, weights, biases, input, m - 1);
        lemma_counts_prefix_mono(layers, l + 1, m);
    }
}

/// The flat neuron vector once the first `acts.len()` activations have
/// been computed and stored: those entries carry their activation, the
/// rest still wait, and nothing else has changed.
pub open spec fn mark_filled<U>(base: Seq<NeuronData<U>>, acts: Seq<U>) -> Seq<NeuronData<U>> {
    Seq::new(
        base.len(),
        |i: int|
            if i < acts.len() {
                NeuronData {
                    activation: Some(acts[i]),
                    bias: base[i].bias,
                    weight_start_idx: base[i].weight_start_idx,
                }
            } else {
                base[i]
            },
    )
}

impl Network {
    /// Runs `self` on the given input with the given parameters.
    pub fn run<T: Real>(&self, input: &Vec<T>, params: &Params<T>) -> (r: RunResults<T>)
        requires
            layers_valid(self.layout.layers@),
            params_shaped(*params, self.layout.layers@),
            input@.len() == self.layout.layers@[0].num_neurons,
        ensures
            r.output@ == forward_spec(
                self.layout.layers@,
                params.weights@,
                params.biases@,
                input@,
            ),
            r.output@.len() == self.layout.layers@[self.layout.layers@.len()
                - 1].num_neurons,
    {
        self.forward_pass(input, params)
    }

    /// Replays the network's layer-by-layer weighted-sum and activation
    /// computation on plain scalars: layer by layer, each neuron's bias
    /// plus the weighted previous activations goes through the layer's
    /// activation function.
    pub fn forward_pass<T: Real>(&self, input: &Vec<T>, params: &Params<T>) -> (r: RunResults<T>)
        requires
            layers_valid(self.layout.layers@),
            params_shaped(*params, self.layout.layers@),
            input@.len() == self.layout.layers@[0].num_neurons,
        ensures
            r.output@ == forward_spec(
                self.layout.layers@,
                params.weights@,
                params.biases@,
                input@,
            ),
            r.output@.len() == self.layout.layers@[self.layout.layers@.len()
                - 1].num_neurons,
    {
        let ghost lseq = self.layout.layers@;
        let ghost ws = params.weights@;
        let ghost bs = params.biases@;
        let ghost inp = input@;

        let mut net_data = NetworkData::new(self.layout.layers(), params);
        let ghost base = neuron_base_spec::<T>(lseq, bs, lseq.len() as int);
        let nlen = net_data.neuron_data.len();
        let wlen = net_data.weight_data.len();

        proof {
            lemma_neuron_base_len::<T>(lseq, bs, lseq.len() as int);
            assert(lseq.take(lseq.len() as int) =~= lseq);
            assert(net_data.neuron_data@ =~= mark_filled(
                base,
                acts_flat_spec(lseq, ws, bs, inp, 0),
            ));
        }

        // compute first layer
        let ld0 = net_data.layer_data[0];
        let count0 = ld0.layer.num_neurons();
        let input_len = input.len();
        for n in 0..count0
            invariant
                layers_valid(lseq),
                lseq == self.layout.layers@,
                ws == params.weights@,
                bs == params.biases@,
                inp == input@,
                base == neuron_base_spec::<T>(lseq, bs, lseq.len() as int),
                ws.len() == num_weights_spec(lseq),
                bs.len() == num_biases_spec(lseq),
                inp.len() == lseq[0].num_neurons,
                input_len == inp.len(),
                nlen == net_data.neuron_data@.len(),
                wlen == net_data.weight_data@.len(),
                ld0 == layer_data_spec(lseq)[0],
                count0 == lseq[1].num_neurons,
                net_data.layer_data@ == layer_data_spec(lseq),
                net_data.weight_data@ == ws,
                net_data.neuron_data@ == mark_filled(
                    base,
                    acts_flat_spec(lseq, ws, bs, inp, 0) + layer_acts_spec(
                        lseq,
                        ws,
                        bs,
                        inp,
                        1,
                    ).take(n as int),
                ),
        {
            proof {
                lemma_neuron_base_index::<T>(lseq, bs, 1, n as int, lseq.len() as int);
                lemma_neuron_base_len::<T>(lseq, bs, lseq.len() as int);
                lemma_counts_nonnegative(lseq.take(1));
                assert(lseq.take(1).len() == 1);
                lemma_counts_step(lseq, 1);
                lemma_counts_prefix_mono(lseq, 2, lseq.len() as int);
                assert(lseq.take(lseq.len() as int) =~= lseq);
                lemma_mul_nonnegative(n as int, lseq[0].num_neurons as int);
                lemma_mul_inequality(n as int + 1, count0 as int, lseq[0].num_neurons as int);
                lemma_mul_is_distributive_add_other_way(lseq[0].num_neurons as int, n as int, 1);
            }
            let nd = net_data.neuron_data[n];
            let mut sum = nd.bias;
            let wstart = nd.weight_start_idx;
            let ghost bias_val = bs[num_biases_spec(lseq.take(1)) + n];
            for w in 0..input_len
                invariant
                    ws == params.weights@,
                    inp == input@,
                    input_len == inp.len(),
                    wlen == net_data.weight_data@.len(),
                    net_data.weight_data@ == ws,
                    wstart + input_len <= wlen,
                    sum == weighted_sum_spec(bias_val, ws, inp, wstart as int, w as int),
            {
                sum = sum.add(net_data.weight_data[wstart + w].mul(input[w]));
            }
            let act = ld0.layer.activation_fn().compute(sum);
            proof {
                assert(layer_acts_spec(lseq, ws, bs, inp, 0) == inp);
                assert(layer_acts_spec(lseq, ws, bs, inp, 1)[n as int] == act);
            }
            let nd2 = net_data.neuron_data[n];
            net_data.neuron_data.set(
                n,
                NeuronData {
                    activation: Some(act),
                    bias: nd2.bias,
                    weight_start_idx: nd2.weight_start_idx,
                },
            );
            proof {
                assert(net_data.neuron_data@ =~= mark_filled(
                    base,
                    acts_flat_spec(lseq, ws, bs, inp, 0) + layer_acts_spec(
                        lseq,
                        ws,
                        bs,
                        inp,
                        1,
                    ).take(n + 1),
                ));
            }
        }
        proof {
            assert(acts_flat_spec(lseq, ws, bs, inp, 0) + layer_acts_spec(
                lseq,
                ws,
                bs,
                inp,
                1,
            ).take(count0 as int) =~= acts_flat_spec(lseq, ws, bs, inp, 1));
        }

        // compute all other layers
        let num_comput_layers = net_data.layer_data.len();
        for li in 1..num_comput_layers
            invariant
                layers_valid(lseq),
                lseq == self.layout.layers@,
                ws == params.weights@,
                bs == params.biases@,
                inp == input@,
                base == neuron_base_spec::<T>(lseq, bs, lseq.len() as int),
                ws.len() == num_weights_spec(lseq),
                bs.len() == num_biases_spec(lseq),
                inp.len() == lseq[0].num_neurons,
                nlen == net_data.neuron_data@.len(),
                wlen == net_data.weight_data@.len(),
                num_comput_layers == lseq.len() - 1,
                net_data.layer_data@ == layer_data_spec(lseq),
                net_data.weight_data@ == ws,
                net_data.neuron_data@ == mark_filled(
                    base,
                    acts_flat_spec(lseq, ws, bs, inp, li as int),
                ),
        {
            let ld = net_data.layer_data[li];
            let prev_ld = net_data.layer_data[li - 1];
            let countl = ld.layer.num_neurons();
            let prev_count = prev_ld.layer.num_neurons();
            let ghost l = li as int + 1;
            for n in 0..countl
                invariant
                    layers_valid(lseq),
                    lseq == self.layout.layers@,
                    ws == params.weights@,
                    bs == params.biases@,
                    inp == input@,
                    base == neuron_base_spec::<T>(lseq, bs, lseq.len() as int),
                    ws.len() == num_weights_spec(lseq),
                    bs.len() == num_biases_spec(lseq),
                    inp.len() == lseq[0].num_neurons,
                    nlen == net_data.neuron_data@.len(),
                    wlen == net_data.weight_data@.len(),
                    1 <= li < lseq.len() - 1,
                    l == li as int + 1,
                    ld == layer_data_spec(lseq)[li as int],
                    prev_ld == layer_data_spec(lseq)[li as int - 1],
                    countl == lseq[l].num_neurons,
                    prev_count == lseq[l - 1].num_neurons,
                    net_data.layer_data@ == layer_data_spec(lseq),
                    net_data.weight_data@ == ws,
                    net_data.neuron_data@ == mark_filled(
                        base,
                        acts_flat_spec(lseq, ws, bs, inp, li as int) + layer_acts_spec(
                            lseq,
                            ws,
                            bs,
                            inp,
                            l,
                        ).take(n as int),
                    ),
            {
                proof {
                    lemma_neuron_base_index::<T>(lseq, bs, l, n as int, lseq.len() as int);
                    lemma_neuron_base_len::<T>(lseq, bs, lseq.len() as int);
                    lemma_counts_nonnegative(lseq.take(l));
                    lemma_counts_step(lseq, l);
                    lemma_counts_prefix_mono(lseq, l + 1, lseq.len() as int);
                    lemma_counts_prefix_mono(lseq, 0, l);
                    assert(lseq.take(lseq.len() as int) =~= lseq);
                    lemma_mul_nonnegative(n as int, lseq[l - 1].num_neurons as int);
                    lemma_mul_inequality(n as int + 1, countl as int, lseq[l - 1].num_neurons as int);
                    lemma_mul_is_distributive_add_other_way(
                        lseq[l - 1].num_neurons as int,
                        n as int,
                        1,
                    );
                    lemma_acts_flat_len(lseq, ws, bs, inp, li as int);
                }
                let neuron_idx = ld.neuron_start_idx + n;
                let nd = net_data.neuron_data[neuron_idx];
                let mut sum = nd.bias;
                let ghost bias_val = bs[num_biases_spec(lseq.take(l)) + n];
                let ghost prev_acts = layer_acts_spec(lseq, ws, bs, inp, l - 1);
                let ghost wstart = nd.weight_start_idx as int;
                for w in 0..prev_count
                    invariant
                        layers_valid(lseq),
                        ws == params.weights@,
                        bs == params.biases@,
                        inp == input@,
                        base == neuron_base_spec::<T>(lseq, bs, lseq.len() as int),
                        ws.len() == num_weights_spec(lseq),
                        bs.len() == num_biases_spec(lseq),
                        inp.len() == lseq[0].num_neurons,
                        nlen == net_data.neuron_data@.len(),
                        wlen == net_data.weight_data@.len(),
                        1 <= li < lseq.len() - 1,
                        l == li as int + 1,
                        prev_ld == layer_data_spec(lseq)[li as int - 1],
                        prev_count == lseq[l - 1].num_neurons,
                        prev_acts == layer_acts_spec(lseq, ws, bs, inp, l - 1),
                        prev_acts.len() == prev_count,
                        net_data.weight_data@ == ws,
                        net_data.neuron_data@ == mark_filled(
                            base,
                            acts_flat_spec(lseq, ws, bs, inp, li as int) + layer_acts_spec(
                                lseq,
                                ws,
                                bs,
                                inp,
                                l,
                            ).take(n as int),
                        ),
                        wstart == nd.weight_start_idx,
                        wstart + prev_count <= wlen,
                        sum == weighted_sum_spec(bias_val, ws, prev_acts, wstart, w as int),
                {
                    proof {
                        lemma_acts_flat_len(lseq, ws, bs, inp, li as int);
                        lemma_acts_flat_index(lseq, ws, bs, inp, li as int, l - 1, w as int);
                        lemma_counts_nonnegative(lseq.take(l - 1));
                        lemma_counts_prefix_mono(lseq, l - 1, l);
                        lemma_counts_prefix_mono(lseq, l - 1, lseq.len() as int);
                        lemma_counts_prefix_mono(lseq, l, lseq.len() as int);
                        lemma_neuron_base_len::<T>(lseq, bs, lseq.len() as int);
                        assert(lseq.take(lseq.len() as int) =~= lseq);
                    }
                    let prev = net_data.neuron_data[prev_ld.neuron_start_idx + w];
                    sum = sum.add(
                        net_data.weight_data[nd.weight_start_idx + w].mul(prev.activation.unwrap()),
                    );
                }
                let act = ld.layer.activation_fn().compute(sum);
                proof {
                    assert(layer_acts_spec(lseq, ws, bs, inp, l)[n as int] == act);
                }
                let nd2 = net_data.neuron_data[neuron_idx];
                net_data.neuron_data.set(
                    neuron_idx,
                    NeuronData {
                        activation: Some(act),
                        bias: nd2.bias,
                        weight_start_idx: nd2.weight_start_idx,
                    },
                );
                proof {
                    assert(net_data.neuron_data@ =~= mark_filled(
                        base,
                        acts_flat_spec(lseq, ws, bs, inp, li as int) + layer_acts_spec(
                            lseq,
                            ws,
                            bs,
                            inp,
                            l,
                        ).take(n + 1),
                    ));
                }
            }
            proof {
                assert(acts_flat_spec(lseq, ws, bs, inp, li as int) + layer_acts_spec(
                    lseq,
                    ws,
                    bs,
                    inp,
                    li as int + 1,
                ).take(countl as int) =~= acts_flat_spec(lseq, ws, bs, inp, li as int + 1));
            }
        }

        proof {
            lemma_acts_flat_len(lseq, ws, bs, inp, lseq.len() - 2);
            lemma_neuron_base_len::<T>(lseq, bs, lseq.len() as int);
            assert(lseq.take(lseq.len() as int) =~= lseq);
            lemma_counts_step(lseq, lseq.len() - 1);
            assert(lseq.take(lseq.len() - 1 + 1) =~= lseq);
            if lseq.len() >= 3 {
                lemma_acts_flat_len(lseq, ws, bs, inp, lseq.len() - 1);
            }
        }
        let output = net_data.output();
        proof {
            let last = lseq.len() - 1;
            lemma_acts_flat_len(lseq, ws, bs, inp, last);
            assert forall|n: int| 0 <= n < output@.len() implies output@[n] == forward_spec(
                lseq,
                ws,
                bs,
                inp,
            )[n] by {
                lemma_acts_flat_index(lseq, ws, bs, inp, last, last, n);
            }
            assert(output@ =~= forward_spec(lseq, ws, bs, inp));
        }
        RunResults { output }
    }
}

/// The plain values carried by a sequence of tracked variables.
pub open spec fn var_vals<T: Real>(vs: Seq<Var<T>>) -> Seq<T> {
    vs.map_values(|v: Var<T>| v.val)
}

/// The working state of a tracked forward pass: the neuron records keep
/// the bias handles and weight start indices they were built with; the
/// first `acts.len()` records carry a computed activation handle that
/// points into the tape and whose value is the plain forward value; the
/// rest still wait.
pub open spec fn vars_filled<T: Real>(
    entries: Seq<NeuronData<Var<T>>>,
    base: Seq<NeuronData<Var<T>>>,
    tape_len: int,
    acts: Seq<T>,
) -> bool {
    &&& entries.len() == base.len()
    &&& forall|i: int|
        0 <= i < base.len() ==> {
            let e = #[trigger] entries[i];
            &&& e.bias == base[i].bias
            &&& e.weight_start_idx == base[i].weight_start_idx
            &&& (i < acts.len() ==> e.activation is Some && e.activation.unwrap().index < tape_len
                && e.activation.unwrap().val == acts[i])
            &&& (i >= acts.len() ==> e.activation is None)
        }
}

impl Network {
    /// Replays the forward pass on tracked variables: the same
    /// layer-by-layer computation, with every elementary step recorded
    /// on the tape, so the output handles carry the plain forward values
    /// and the tape holds the graph a backward traversal needs.
    pub fn forward_pass_vars<T: Real>(
        &self,
        tape: &mut Tape<T>,
        input: &Vec<T>,
        params: &Params<Var<T>>,
    ) -> (r: RunResults<Var<T>>)
        requires
            layers_valid(self.layout.layers@),
            params.weights@.len() == num_weights_spec(self.layout.layers@),
            params.biases@.len() == num_biases_spec(self.layout.layers@),
            input@.len() == self.layout.layers@[0].num_neurons,
            old(tape).wf(),
            forall|i: int|
                0 <= i < params.weights@.len() ==> (#[trigger] params.weights@[i]).index < old(tape).nodes@.len(),
            forall|j: int|
                0 <= j < params.biases@.len() ==> (#[trigger] params.biases@[j]).index < old(tape).nodes@.len(),
        ensures
            final(tape).wf(),
            extends(*old(tape), *final(tape)),
            r.output@.len() == self.layout.layers@[self.layout.layers@.len() - 1].num_neurons,
            forall|n: int|
                0 <= n < r.output@.len() ==> (#[trigger] r.output@[n]).index < final(tape).nodes@.len() && r.output@[n].val == forward_spec(
                    self.layout.layers@,
                    var_vals(params.weights@),
                    var_vals(params.biases@),
                    input@,
                )[n],
    {
        let ghost lseq = self.layout.layers@;
        let ghost wsv = params.weights@;
        let ghost bsv = params.biases@;
        let ghost ws = var_vals(params.weights@);
        let ghost bs = var_vals(params.biases@);
        let ghost inp = input@;
        let ghost tape0 = *tape;

        let mut net_data = NetworkData::new(self.layout.layers(), params);
        let ghost base = neuron_base_spec::<Var<T>>(lseq, bsv, lseq.len() as int);
        let nlen = net_data.neuron_data.len();
        let wlen = net_data.weight_data.len();

        proof {
            lemma_neuron_base_len::<Var<T>>(lseq, bsv, lseq.len() as int);
            lemma_neuron_base_unfilled::<Var<T>>(lseq, bsv, lseq.len() as int);
            assert(lseq.take(lseq.len() as int) =~= lseq);
            assert(vars_filled(
                net_data.neuron_data@,
                base,
                tape.nodes@.len() as int,
                acts_flat_spec(lseq, ws, bs, inp, 0),
            ));
        }

        // compute first layer
        let ld0 = net_data.layer_data[0];
        let count0 = ld0.layer.num_neurons();
        let input_len = input.len();
        for n in 0..count0
            invariant
                layers_valid(lseq),
                lseq == self.layout.layers@,
                wsv == params.weights@,
                bsv == params.biases@,
                ws == var_vals(wsv),
                bs == var_vals(bsv),
                inp == input@,
                base == neuron_base_spec::<Var<T>>(lseq, bsv, lseq.len() as int),
                wsv.len() == num_weights_spec(lseq),
                bsv.len() == num_biases_spec(lseq),
                inp.len() == lseq[0].num_neurons,
                input_len == inp.len(),
                nlen == net_data.neuron_data@.len(),
                wlen == net_data.weight_data@.len(),
                ld0 == layer_data_spec(lseq)[0],
                count0 == lseq[1].num_neurons,
                net_data.layer_data@ == layer_data_spec(lseq),
                net_data.weight_data@ == wsv,
                tape.wf(),
                extends(tape0, *tape),
                forall|i: int|
                    0 <= i < wsv.len() ==> (#[trigger] wsv[i]).index < tape.nodes@.len(),
                forall|j: int|
                    0 <= j < bsv.len() ==> (#[trigger] bsv[j]).index < tape.nodes@.len(),
                vars_filled(
                    net_data.neuron_data@,
                    base,
                    tape.nodes@.len() as int,
                    acts_flat_spec(lseq, ws, bs, inp, 0) + layer_acts_spec(
                        lseq,
                        ws,
                        bs,
                        inp,
                        1,
                    ).take(n as int),
                ),
        {
            proof {
                lemma_neuron_base_index::<Var<T>>(lseq, bsv, 1, n as int, lseq.len() as int);
                lemma_neuron_base_len::<Var<T>>(lseq, bsv, lseq.len() as int);
                lemma_counts_nonnegative(lseq.take(1));
                assert(lseq.take(1).len() == 1);
                lemma_counts_step(lseq, 1);
                lemma_counts_prefix_mono(lseq, 2, lseq.len() as int);
                assert(lseq.take(lseq.len() as int) =~= lseq);
                lemma_mul_nonnegative(n as int, lseq[0].num_neurons as int);
                lemma_mul_inequality(n as int + 1, count0 as int, lseq[0].num_neurons as int);
                lemma_mul_is_distributive_add_other_way(lseq[0].num_neurons as int, n as int, 1);
            }
            let nd = net_data.neuron_data[n];
            let mut sum = nd.bias;
            let wstart = nd.weight_start_idx;
            let ghost bias_val = bs[num_biases_spec(lseq.take(1)) + n];
            for w in 0..input_len
                invariant
                    wsv == params.weights@,
                    ws == var_vals(wsv),
                    inp == input@,
                    input_len == inp.len(),
                    wlen == net_data.weight_data@.len(),
                    net_data.weight_data@ == wsv,
                    wstart + input_len <= wlen,
                    tape.wf(),
                    extends(tape0, *tape),
                    forall|i: int|
                        0 <= i < wsv.len() ==> (#[trigger] wsv[i]).index < tape.nodes@.len(),
                    forall|j: int|
                        0 <= j < bsv.len() ==> (#[trigger] bsv[j]).index < tape.nodes@.len(),
                    vars_filled(
                        net_data.neuron_data@,
                        base,
                        tape.nodes@.len() as int,
                        acts_flat_spec(lseq, ws, bs, inp, 0) + layer_acts_spec(
                            lseq,
                            ws,
                            bs,
                            inp,
                            1,
                        ).take(n as int),
                    ),
                    sum.index < tape.nodes@.len(),
                    sum.val == weighted_sum_spec(bias_val, ws, inp, wstart as int, w as int),
            {
                let wv = net_data.weight_data[wstart + w];
                let prod = tape.mul_real(wv, input[w]);
                sum = tape.add(sum, prod);
            }
            let act = ld0.layer.activation_fn().compute_var(tape, sum);
            proof {
                assert(layer_acts_spec(lseq, ws, bs, inp, 0) == inp);
                assert(layer_acts_spec(lseq, ws, bs, inp, 1)[n as int] == act.val);
            }
            let nd2 = net_data.neuron_data[n];
            net_data.neuron_data.set(
                n,
                NeuronData {
                    activation: Some(act),
                    bias: nd2.bias,
                    weight_start_idx: nd2.weight_start_idx,
                },
            );
        }
        proof {
            assert(acts_flat_spec(lseq, ws, bs, inp, 0) + layer_acts_spec(
                lseq,
                ws,
                bs,
                inp,
                1,
            ).take(count0 as int) =~= acts_flat_spec(lseq, ws, bs, inp, 1));
        }

        // compute all other layers
        let num_comput_layers = net_data.layer_data.len();
        for li in 1..num_comput_layers
            invariant
                layers_valid(lseq),
                lseq == self.layout.layers@,
                wsv == params.weights@,
                bsv == params.biases@,
                ws == var_vals(wsv),
                bs == var_vals(bsv),
                inp == input@,
                base == neuron_base_spec::<Var<T>>(lseq, bsv, lseq.len() as int),
                wsv.len() == num_weights_spec(lseq),
                bsv.len() == num_biases_spec(lseq),
                inp.len() == lseq[0].num_neurons,
                nlen == net_data.neuron_data@.len(),
                wlen == net_data.weight_data@.len(),
                num_comput_layers == lseq.len() - 1,
                net_data.layer_data@ == layer_data_spec(lseq),
                net_data.weight_data@ == wsv,
                tape.wf(),
                extends(tape0, *tape),
                forall|i: int|
                    0 <= i < wsv.len() ==> (#[trigger] wsv[i]).index < tape.nodes@.len(),
                forall|j: int|
                    0 <= j < bsv.len() ==> (#[trigger] bsv[j]).index < tape.nodes@.len(),
                vars_filled(
                    net_data.neuron_data@,
                    base,
                    tape.nodes@.len() as int,
                    acts_flat_spec(lseq, ws, bs, inp, li as int),
                ),
        {
            let ld = net_data.layer_data[li];
            let prev_ld = net_data.layer_data[li - 1];
            let countl = ld.layer.num_neurons();
            let prev_count = prev_ld.layer.num_neurons();
            let ghost l = li as int + 1;
            for n in 0..countl
                invariant
                    layers_valid(lseq),
                    lseq == self.layout.layers@,
                    wsv == params.weights@,
                    bsv == params.biases@,
                    ws == var_vals(wsv),
                    bs == var_vals(bsv),
                    inp == input@,
                    base == neuron_base_spec::<Var<T>>(lseq, bsv, lseq.len() as int),
                    wsv.len() == num_weights_spec(lseq),
                    bsv.len() == num_biases_spec(lseq),
                    inp.len() == lseq[0].num_neurons,
                    nlen == net_data.neuron_data@.len(),
                    wlen == net_data.weight_data@.len(),
                    1 <= li < lseq.len() - 1,
                    l == li as int + 1,
                    ld == layer_data_spec(lseq)[li as int],
                    prev_ld == layer_data_spec(lseq)[li as int - 1],
                    countl == lseq[l].num_neurons,
                    prev_count == lseq[l - 1].num_neurons,
                    net_data.layer_data@ == layer_data_spec(lseq),
                    net_data.weight_data@ == wsv,
                    tape.wf(),
                    extends(tape0, *tape),
                    forall|i: int|
                        0 <= i < wsv.len() ==> (#[trigger] wsv[i]).index < tape.nodes@.len(),
                    forall|j: int|
                        0 <= j < bsv.len() ==> (#[trigger] bsv[j]).index < tape.nodes@.len(),
                    vars_filled(
                        net_data.neuron_data@,
                        base,
                        tape.nodes@.len() as int,
                        acts_flat_spec(lseq, ws, bs, inp, li as int) + layer_acts_spec(
                            lseq,
                            ws,
                            bs,
                            inp,
                            l,
                        ).take(n as int),
                    ),
            {
                proof {
                    lemma_neuron_base_index::<Var<T>>(lseq, bsv, l, n as int, lseq.len() as int);
                    lemma_neuron_base_len::<Var<T>>(lseq, bsv, lseq.len() as int);
                    lemma_counts_nonnegative(lseq.take(l));
                    lemma_counts_step(lseq, l);
                    lemma_counts_prefix_mono(lseq, l + 1, lseq.len() as int);
                    lemma_counts_prefix_mono(lseq, 0, l);
                    assert(lseq.take(lseq.len() as int) =~= lseq);
                    lemma_mul_nonnegative(n as int, lseq[l - 1].num_neurons as int);
                    lemma_mul_inequality(n as int + 1, countl as int, lseq[l - 1].num_neurons as int);
                    lemma_mul_is_distributive_add_other_way(
                        lseq[l - 1].num_neurons as int,
                        n as int,
                        1,
                    );
                    lemma_acts_flat_len(lseq, ws, bs, inp, li as int);
                }
                let neuron_idx = ld.neuron_start_idx + n;
                let nd = net_data.neuron_data[neuron_idx];
                let mut sum = nd.bias;
                let ghost bias_val = bs[num_biases_spec(lseq.take(l)) + n];
                let ghost prev_acts = layer_acts_spec(lseq, ws, bs, inp, l - 1);
                let ghost wstart = nd.weight_start_idx as int;
                for w in 0..prev_count
                    invariant
                        layers_valid(lseq),
                        wsv == params.weights@,
                        bsv == params.biases@,
                        ws == var_vals(wsv),
                        bs == var_vals(bsv),
                        inp == input@,
                        base == neuron_base_spec::<Var<T>>(lseq, bsv, lseq.len() as int),
                        wsv.len() == num_weights_spec(lseq),
                        bsv.len() == num_biases_spec(lseq),
                        inp.len() == lseq[0].num_neurons,
                        nlen == net_data.neuron_data@.len(),
                        wlen == net_data.weight_data@.len(),
                        1 <= li < lseq.len() - 1,
                        l == li as int + 1,
                        prev_ld == layer_data_spec(lseq)[li as int - 1],
                        prev_count == lseq[l - 1].num_neurons,
                        prev_acts == layer_acts_spec(lseq, ws, bs, inp, l - 1),
                        prev_acts.len() == prev_count,
                        net_data.weight_data@ == wsv,
                        tape.wf(),
                        extends(tape0, *tape),
                        forall|i: int|
                            0 <= i < wsv.len() ==> (#[trigger] wsv[i]).index < tape.nodes@.len(),
                        forall|j: int|
                            0 <= j < bsv.len() ==> (#[trigger] bsv[j]).index < tape.nodes@.len(),
                        vars_filled(
                            net_data.neuron_data@,
                            base,
                            tape.nodes@.len() as int,
                            acts_flat_spec(lseq, ws, bs, inp, li as int) + layer_acts_spec(
                                lseq,
                                ws,
                                bs,
                                inp,
                                l,
                            ).take(n as int),
                        ),
                        wstart == nd.weight_start_idx,
                        wstart + prev_count <= wlen,
                        sum.index < tape.nodes@.len(),
                        sum.val == weighted_sum_spec(bias_val, ws, prev_acts, wstart, w as int),
                {
                    proof {
                        lemma_acts_flat_len(lseq, ws, bs, inp, li as int);
                        lemma_acts_flat_index(lseq, ws, bs, inp, li as int, l - 1, w as int);
                        lemma_counts_nonnegative(lseq.take(l - 1));
                        lemma_counts_prefix_mono(lseq, l - 1, l);
                        lemma_counts_prefix_mono(lseq, l - 1, lseq.len() as int);
                        lemma_counts_prefix_mono(lseq, l, lseq.len() as int);
                        lemma_neuron_base_len::<Var<T>>(lseq, bsv, lseq.len() as int);
                        assert(lseq.take(lseq.len() as int) =~= lseq);
                    }
                    let prev = net_data.neuron_data[prev_ld.neuron_start_idx + w];
                    let wv = net_data.weight_data[nd.weight_start_idx + w];
                    let prod = tape.mul(wv, prev.activation.unwrap());
                    sum = tape.add(sum, prod);
                }
                let act = ld.layer.activation_fn().compute_var(tape, sum);
                proof {
                    assert(layer_acts_spec(lseq, ws, bs, inp, l)[n as int] == act.val);
                }
                let nd2 = net_data.neuron_data[neuron_idx];
                net_data.neuron_data.set(
                    neuron_idx,
                    NeuronData {
                        activation: Some(act),
                        bias: nd2.bias,
                        weight_start_idx: nd2.weight_start_idx,
                    },
                );
            }
            proof {
                assert(acts_flat_spec(lseq, ws, bs, inp, li as int) + layer_acts_spec(
                    lseq,
                    ws,
                    bs,
                    inp,
                    li as int + 1,
                ).take(countl as int) =~= acts_flat_spec(lseq, ws, bs, inp, li as int + 1));
            }
        }

        proof {
            lemma_neuron_base_len::<Var<T>>(lseq, bsv, lseq.len() as int);
            assert(lseq.take(lseq.len() as int) =~= lseq);
            lemma_counts_step(lseq, lseq.len() - 1);
            assert(lseq.take(lseq.len() - 1 + 1) =~= lseq);
            lemma_acts_flat_len(lseq, ws, bs, inp, lseq.len() - 1);
            lemma_counts_nonnegative(lseq.take(lseq.len() - 1));
        }
        let output = net_data.output();
        proof {
            let last = lseq.len() - 1;
            lemma_acts_flat_len(lseq, ws, bs, inp, last);
            assert forall|n: int| 0 <= n < output@.len() implies (#[trigger] output@[n]).index
                < tape.nodes@.len() && output@[n].val == forward_spec(lseq, ws, bs, inp)[n] by {
                lemma_acts_flat_index(lseq, ws, bs, inp, last, last, n);
            }
        }
        RunResults { output }
    }
}

} // verus!
