use vstd::prelude::*;

pub mod clamp_settings;
pub mod cost;
pub mod data_set;
pub mod eta;
pub mod trainer;
pub mod training_results;
pub mod training_settings;

use crate::autodiff::scalar::Real;
use crate::autodiff::tape::{extends, Tape};
use crate::autodiff::var::Var;
use crate::network::layer::Layer;
use crate::network::layout::{layers_valid, num_biases_spec, num_weights_spec, Layout};
use crate::network::params::{params_shaped, Params};
use crate::network::running::{forward_spec, var_vals};
use crate::network::Network;
use crate::rng::{i64_to_real, i64_to_real_spec, shuffle, Seed};

use clamp_settings::ClampSettings;
use cost::{cost_spec, CostFn};
use data_set::DataSet;
use eta::{eta_val_spec, Eta};
use training_results::TrainingResults;
use training_settings::{num_batches_spec, TrainingSettings};

verus! {

/// The data is usable against the layout: inputs and outputs pair up,
/// every input sample is as wide as the input layer, and every output
/// sample as wide as the output layer.
pub open spec fn data_set_fits<T: Copy>(ds: DataSet<T>, layers: Seq<Layer>) -> bool {
    &&& ds.wf()
    &&& forall|s: int|
        0 <= s < ds.input_sample_starts_and_lengths@.len() ==> (
        #[trigger] ds.input_sample_starts_and_lengths@[s]).1 == layers[0].num_neurons
    &&& forall|s: int|
        0 <= s < ds.output_sample_starts_and_lengths@.len() ==> (
        #[trigger] ds.output_sample_starts_and_lengths@[s]).1 == layers[layers.len()
            - 1].num_neurons
}

/// The cost of running one sample: the forward output against the
/// sample's desired output, reduced by the chosen cost function.
pub open spec fn sample_cost_spec<T: Real>(
    layers: Seq<Layer>,
    weights: Seq<T>,
    biases: Seq<T>,
    ds: DataSet<T>,
    f: CostFn,
    idx: int,
) -> T {
    cost_spec(
        f,
        forward_spec(layers, weights, biases, ds.nth_input_spec(idx)),
        ds.nth_output_spec(idx),
    )
}

/// The batch's costs combined: the first cost, then each later one
/// added in turn.
pub open spec fn costs_total_spec<T: Real>(costs: Seq<T>, i: int) -> T
    decreases i,
{
    if i <= 1 {
        costs[0]
    } else {
        costs_total_spec(costs, i - 1).add_spec(costs[i - 1])
    }
}

/// The mean of a batch's raw costs: their combination divided by their
/// count, read into the scalar type.
pub open spec fn mean_cost_spec<T: Real>(costs: Seq<T>) -> T {
    costs_total_spec(costs, costs.len() as int).div_spec(
        i64_to_real_spec::<T>(costs.len() as int),
    )
}

/// How long batch `b` is: the batch size, except that the final batch
/// of an epoch is truncated to the remainder when the sample count does
/// not divide evenly.
pub open spec fn batch_len_spec(len: int, batch_size: int, b: int) -> int {
    if len % batch_size != 0 && b + 1 == num_batches_spec(len, batch_size) {
        len % batch_size
    } else {
        batch_size
    }
}

/// Every batch of an epoch is a slice of the shuffled sample list:
/// batch `b` starts at `b * batch_size` and its end stays inside the
/// list.
proof fn lemma_batch_fits(len: int, batch_size: int, b: int)
    requires
        1 <= batch_size <= len,
        0 <= b < num_batches_spec(len, batch_size),
    ensures
        b * batch_size + batch_len_spec(len, batch_size, b) <= len,
        b * batch_size >= 0,
{
    let q = len / batch_size;
    let rem = len % batch_size;
    vstd::arithmetic::div_mod::lemma_fundamental_div_mod(len, batch_size);
    vstd::arithmetic::div_mod::lemma_mod_bound(len, batch_size);
    if q <= 0 {
        assert(batch_size * q <= 0) by (nonlinear_arith)
            requires
                batch_size >= 1,
                q <= 0,
        ;
    }
    assert(q >= 1);
    vstd::arithmetic::mul::lemma_mul_nonnegative(b, batch_size);
    if rem != 0 && b + 1 == num_batches_spec(len, batch_size) {
        assert(b == q);
        assert(q * batch_size == batch_size * q) by (nonlinear_arith);
    } else {
        assert(b + 1 <= q);
        vstd::arithmetic::mul::lemma_mul_inequality(b + 1, q, batch_size);
        vstd::arithmetic::mul::lemma_mul_is_distributive_add_other_way(batch_size, b, 1);
        assert(q * batch_size == batch_size * q) by (nonlinear_arith);
    }
}

/// An epoch always holds at least one batch.
proof fn lemma_num_batches_pos(len: int, batch_size: int)
    requires
        1 <= batch_size <= len,
    ensures
        num_batches_spec(len, batch_size) >= 1,
{
    let q = len / batch_size;
    vstd::arithmetic::div_mod::lemma_fundamental_div_mod(len, batch_size);
    vstd::arithmetic::div_mod::lemma_mod_bound(len, batch_size);
    if q <= 0 {
        assert(batch_size * q <= 0) by (nonlinear_arith)
            requires
                batch_size >= 1,
                q <= 0,
        ;
    }
}

/// What one gradient step does to one parameter: the learning rate
/// times its gradient entry subtracted, and the result clamped.
pub open spec fn stepped_spec<T: Real>(p: T, g: T, eta_val: T, lo: T, hi: T) -> T {
    p.sub_spec(eta_val.mul_spec(g)).clamp_spec(lo, hi)
}

/// The value came out of a clamp into the given bounds: it is the
/// clamped image of some scalar.
pub open spec fn clamp_image<T: Real>(w: T, lo: T, hi: T) -> bool {
    exists|x: T| w == x.clamp_spec(lo, hi)
}

/// After a parameter update, every weight lies in the weight bounds and
/// every bias in the bias bounds. This holds whenever the scalar's
/// clamp sends every self-equal value into the bounds (as a float's
/// clamp does; only a NaN is not self-equal) and every update step is
/// such a value, which is how a finite gradient and learning rate show
/// themselves to the abstract scalar.
pub proof fn lemma_update_within_clamp<T: Real>(
    new_params: Params<T>,
    params: Params<T>,
    grad: Seq<T>,
    eta_val: T,
    cs: ClampSettings<T>,
)
    requires
        cs.weight_min.le_spec(cs.weight_max),
        cs.bias_min.le_spec(cs.bias_max),
        new_params.weights@.len() == params.weights@.len(),
        new_params.biases@.len() == params.biases@.len(),
        grad.len() >= params.weights@.len() + params.biases@.len(),
        forall|i: int|
            0 <= i < new_params.weights@.len() ==> (#[trigger] new_params.weights@[i])
                == stepped_spec(
                params.weights@[i],
                grad[i],
                eta_val,
                cs.weight_min,
                cs.weight_max,
            ),
        forall|j: int|
            0 <= j < new_params.biases@.len() ==> (#[trigger] new_params.biases@[j])
                == stepped_spec(
                params.biases@[j],
                grad[params.weights@.len() + j],
                eta_val,
                cs.bias_min,
                cs.bias_max,
            ),
        forall|x: T, lo: T, hi: T|
            lo.le_spec(hi) && x.eq_spec(x) ==> lo.le_spec(#[trigger] x.clamp_spec(lo, hi))
                && x.clamp_spec(lo, hi).le_spec(hi),
        forall|i: int|
            0 <= i < params.weights@.len() ==> (#[trigger] params.weights@[i].sub_spec(
                eta_val.mul_spec(grad[i]),
            )).eq_spec(params.weights@[i].sub_spec(eta_val.mul_spec(grad[i]))),
        forall|j: int|
            0 <= j < params.biases@.len() ==> (#[trigger] params.biases@[j].sub_spec(
                eta_val.mul_spec(grad[params.weights@.len() + j]),
            )).eq_spec(params.biases@[j].sub_spec(eta_val.mul_spec(grad[params.weights@.len() + j]))),
    ensures
        forall|i: int|
            0 <= i < new_params.weights@.len() ==> cs.weight_min.le_spec(
                #[trigger] new_params.weights@[i],
            ) && new_params.weights@[i].le_spec(cs.weight_max),
        forall|j: int|
            0 <= j < new_params.biases@.len() ==> cs.bias_min.le_spec(
                #[trigger] new_params.biases@[j],
            ) && new_params.biases@[j].le_spec(cs.bias_max),
{
    assert forall|i: int| 0 <= i < new_params.weights@.len() implies cs.weight_min.le_spec(
        #[trigger] new_params.weights@[i],
    ) && new_params.weights@[i].le_spec(cs.weight_max) by {
        let x = params.weights@[i].sub_spec(eta_val.mul_spec(grad[i]));
        assert(x.eq_spec(x));
        assert(cs.weight_min.le_spec(x.clamp_spec(cs.weight_min, cs.weight_max)));
    }
    assert forall|j: int| 0 <= j < new_params.biases@.len() implies cs.bias_min.le_spec(
        #[trigger] new_params.biases@[j],
    ) && new_params.biases@[j].le_spec(cs.bias_max) by {
        let x = params.biases@[j].sub_spec(eta_val.mul_spec(grad[params.weights@.len() + j]));
        assert(x.eq_spec(x));
        assert(cs.bias_min.le_spec(x.clamp_spec(cs.bias_min, cs.bias_max)));
    }
}

/// Copies a slice into a vector.
fn slice_to_vec<T: Copy>(s: &[T]) -> (r: Vec<T>)
    ensures
        r@ == s@,
{
    let mut out: Vec<T> = Vec::new();
    let n = s.len();
    for i in 0..n
        invariant
            n == s@.len(),
            out@ == s@.take(i as int),
    {
        out.push(*vstd::slice::slice_index_get(s, i));
        proof {
            assert(out@ =~= s@.take(i + 1));
        }
    }
    proof {
        assert(out@ =~= s@);
    }
    out
}

impl Network {
    /// Runs `self` over the data set for the configured number of
    /// epochs, shuffling the sample order each epoch, and adjusting the
    /// parameters after every batch to reduce its mean cost. The whole
    /// cost and gradient history is retained for inspection.
    pub fn train<T: Real>(&self, settings: &TrainingSettings<T>, params: Params<T>) -> (r:
        TrainingResults<T>)
        requires
            layers_valid(self.layout.layers@),
            params_shaped(params, self.layout.layers@),
            data_set_fits(settings.data_set, self.layout.layers@),
            self.layout.layers@[self.layout.layers@.len() - 1].num_neurons >= 1,
            1 <= settings.batch_size <= settings.data_set.input_sample_starts_and_lengths@.len(),
            settings.batch_size <= i64::MAX,
            settings.num_epochs <= i64::MAX,
            match settings.stoch_shuffle_seed {
                Seed::Input(v) => !v.le_spec(T::zero_spec()),
                Seed::OS => true,
            },
        ensures
            r.layout.layers@ == self.layout.layers@,
            r.params.weights@.len() == params.weights@.len(),
            r.params.biases@.len() == params.biases@.len(),
            r.all_costs@.len() == settings.num_epochs,
            r.avg_costs@.len() == settings.num_epochs,
            r.all_grads@.len() == settings.num_epochs,
            forall|e: int|
                0 <= e < settings.num_epochs ==> (#[trigger] r.all_costs@[e])@.len()
                    == num_batches_spec(
                    settings.data_set.input_sample_starts_and_lengths@.len() as int,
                    settings.batch_size as int,
                ),
            forall|e: int|
                0 <= e < settings.num_epochs ==> (#[trigger] r.avg_costs@[e])@.len()
                    == num_batches_spec(
                    settings.data_set.input_sample_starts_and_lengths@.len() as int,
                    settings.batch_size as int,
                ),
            forall|e: int|
                0 <= e < settings.num_epochs ==> (#[trigger] r.all_grads@[e])@.len()
                    == num_batches_spec(
                    settings.data_set.input_sample_starts_and_lengths@.len() as int,
                    settings.batch_size as int,
                ),
            forall|e: int, b: int|
                0 <= e < settings.num_epochs && 0 <= b < num_batches_spec(
                    settings.data_set.input_sample_starts_and_lengths@.len() as int,
                    settings.batch_size as int,
                ) ==> (#[trigger] r.all_costs@[e]@[b])@.len() == batch_len_spec(
                    settings.data_set.input_sample_starts_and_lengths@.len() as int,
                    settings.batch_size as int,
                    b,
                ),
            forall|e: int, b: int|
                0 <= e < settings.num_epochs && 0 <= b < num_batches_spec(
                    settings.data_set.input_sample_starts_and_lengths@.len() as int,
                    settings.batch_size as int,
                ) ==> (#[trigger] r.all_grads@[e]@[b])@.len() == params.weights@.len()
                    + params.biases@.len(),
            forall|e: int, b: int|
                0 <= e < settings.num_epochs && 0 <= b < num_batches_spec(
                    settings.data_set.input_sample_starts_and_lengths@.len() as int,
                    settings.batch_size as int,
                ) ==> (#[trigger] r.avg_costs@[e]@[b]) == mean_cost_spec(
                    r.all_costs@[e]@[b]@,
                ),
            settings.num_epochs >= 1 ==> forall|i: int|
                0 <= i < r.params.weights@.len() ==> #[trigger] clamp_image(
                    r.params.weights@[i],
                    settings.clamp_settings.weight_min,
                    settings.clamp_settings.weight_max,
                ),
            settings.num_epochs >= 1 ==> forall|j: int|
                0 <= j < r.params.biases@.len() ==> #[trigger] clamp_image(
                    r.params.biases@[j],
                    settings.clamp_settings.bias_min,
                    settings.clamp_settings.bias_max,
                ),
    {
        let ghost lseq = self.layout.layers@;
        let ghost wlen0 = params.weights@.len();
        let ghost blen0 = params.biases@.len();
        let dlen = settings.data_set.len();
        let num_batches = settings.num_batches();
        let num_epochs = settings.num_epochs;
        proof {
            lemma_num_batches_pos(dlen as int, settings.batch_size as int);
        }

        let mut params = params;
        let mut all_costs: Vec<Vec<Vec<T>>> = Vec::new();
        let mut avg_costs: Vec<Vec<T>> = Vec::new();
        let mut all_grads: Vec<Vec<Vec<T>>> = Vec::new();

        for e in 0..num_epochs
            invariant
                layers_valid(lseq),
                lseq == self.layout.layers@,
                params_shaped(params, lseq),
                params.weights@.len() == wlen0,
                params.biases@.len() == blen0,
                data_set_fits(settings.data_set, lseq),
                lseq[lseq.len() - 1].num_neurons >= 1,
                dlen == settings.data_set.input_sample_starts_and_lengths@.len(),
                1 <= settings.batch_size <= dlen,
                settings.batch_size <= i64::MAX,
                num_epochs == settings.num_epochs,
                num_epochs <= i64::MAX,
                num_batches == num_batches_spec(dlen as int, settings.batch_size as int),
                num_batches >= 1,
                match settings.stoch_shuffle_seed {
                    Seed::Input(v) => !v.le_spec(T::zero_spec()),
                    Seed::OS => true,
                },
                all_costs@.len() == e,
                avg_costs@.len() == e,
                all_grads@.len() == e,
                forall|k: int|
                    0 <= k < e ==> (#[trigger] all_costs@[k])@.len() == num_batches,
                forall|k: int|
                    0 <= k < e ==> (#[trigger] avg_costs@[k])@.len() == num_batches,
                forall|k: int|
                    0 <= k < e ==> (#[trigger] all_grads@[k])@.len() == num_batches,
                forall|k: int, b: int|
                    0 <= k < e && 0 <= b < num_batches ==> (#[trigger] all_costs@[k]@[b])@.len()
                        == batch_len_spec(dlen as int, settings.batch_size as int, b),
                forall|k: int, b: int|
                    0 <= k < e && 0 <= b < num_batches ==> (#[trigger] all_grads@[k]@[b])@.len()
                        == wlen0 + blen0,
                forall|k: int, b: int|
                    0 <= k < e && 0 <= b < num_batches ==> (#[trigger] avg_costs@[k]@[b])
                        == mean_cost_spec(all_costs@[k]@[b]@),
                e >= 1 ==> forall|i: int|
                    0 <= i < wlen0 ==> #[trigger] clamp_image(
                        params.weights@[i],
                        settings.clamp_settings.weight_min,
                        settings.clamp_settings.weight_max,
                    ),
                e >= 1 ==> forall|j: int|
                    0 <= j < blen0 ==> #[trigger] clamp_image(
                        params.biases@[j],
                        settings.clamp_settings.bias_min,
                        settings.clamp_settings.bias_max,
                    ),
        {
            // list of indices is shuffled to provide randomness for
            // stochastic batching
            let mut samples: Vec<usize> = Vec::new();
            for i in 0..dlen
                invariant
                    samples@.len() == i,
                    forall|k: int| 0 <= k < i ==> (#[trigger] samples@[k]) == k,
            {
                samples.push(i);
            }
            let seed = settings.stoch_shuffle_seed;
            let ghost pre_shuffle = samples@;
            shuffle(&mut samples, seed);
            proof {
                broadcast use vstd::seq_lib::group_to_multiset_ensures;

                assert forall|k: int| 0 <= k < samples@.len() implies (#[trigger] samples@[k])
                    < dlen by {
                    assert(samples@.contains(samples@[k]));
                    assert(samples@.to_multiset().count(samples@[k]) > 0);
                    assert(pre_shuffle.to_multiset().count(samples@[k]) > 0);
                    assert(pre_shuffle.contains(samples@[k]));
                    let j = choose|j: int|
                        0 <= j < pre_shuffle.len() && pre_shuffle[j] == samples@[k];
                    assert(pre_shuffle[j] == j);
                }
            }

            let mut costs_in_epoch: Vec<Vec<T>> = Vec::new();
            let mut avg_costs_in_epoch: Vec<T> = Vec::new();
            let mut grads_in_epoch: Vec<Vec<T>> = Vec::new();
            for b in 0..num_batches
                invariant
                    layers_valid(lseq),
                    lseq == self.layout.layers@,
                    params_shaped(params, lseq),
                    params.weights@.len() == wlen0,
                    params.biases@.len() == blen0,
                    data_set_fits(settings.data_set, lseq),
                    lseq[lseq.len() - 1].num_neurons >= 1,
                    dlen == settings.data_set.input_sample_starts_and_lengths@.len(),
                    1 <= settings.batch_size <= dlen,
                    settings.batch_size <= i64::MAX,
                    num_epochs == settings.num_epochs,
                    num_epochs <= i64::MAX,
                    e < num_epochs,
                    num_batches == num_batches_spec(dlen as int, settings.batch_size as int),
                    num_batches >= 1,
                    samples@.len() == dlen,
                    forall|k: int| 0 <= k < samples@.len() ==> (#[trigger] samples@[k]) < dlen,
                    costs_in_epoch@.len() == b,
                    avg_costs_in_epoch@.len() == b,
                    grads_in_epoch@.len() == b,
                    forall|k: int|
                        0 <= k < b ==> (#[trigger] costs_in_epoch@[k])@.len() == batch_len_spec(
                            dlen as int,
                            settings.batch_size as int,
                            k,
                        ),
                    forall|k: int|
                        0 <= k < b ==> (#[trigger] grads_in_epoch@[k])@.len() == wlen0 + blen0,
                    forall|k: int|
                        0 <= k < b ==> (#[trigger] avg_costs_in_epoch@[k]) == mean_cost_spec(
                            costs_in_epoch@[k]@,
                        ),
                    b >= 1 ==> forall|i: int|
                        0 <= i < wlen0 ==> #[trigger] clamp_image(
                            params.weights@[i],
                            settings.clamp_settings.weight_min,
                            settings.clamp_settings.weight_max,
                        ),
                    b >= 1 ==> forall|j: int|
                        0 <= j < blen0 ==> #[trigger] clamp_image(
                            params.biases@[j],
                            settings.clamp_settings.bias_min,
                            settings.clamp_settings.bias_max,
                        ),
            {
                // for cases in which the length of the data set is not
                // divisible by the batch size, the final batch needs to
                // be reduced in size
                let batch_size: usize;
                if dlen % settings.batch_size != 0 && b + 1 == num_batches {
                    batch_size = dlen % settings.batch_size;
                } else {
                    batch_size = settings.batch_size;
                }
                proof {
                    lemma_batch_fits(dlen as int, settings.batch_size as int, b as int);
                }

                // here is where the training logic actually happens
                let output = self.per_batch(settings, &samples, &params, e, b, batch_size);

                let ghost old_params = params;
                params = output.0;
                costs_in_epoch.push(output.1);
                avg_costs_in_epoch.push(output.2);
                grads_in_epoch.push(output.3);
                proof {
                    let ghost ev = eta_val_spec(
                        settings.eta,
                        e as int,
                        settings.num_epochs as int,
                    );
                    assert forall|i: int| 0 <= i < wlen0 implies #[trigger] clamp_image(
                        params.weights@[i],
                        settings.clamp_settings.weight_min,
                        settings.clamp_settings.weight_max,
                    ) by {
                        let x = old_params.weights@[i].sub_spec(ev.mul_spec(output.3@[i]));
                        assert(params.weights@[i] == x.clamp_spec(
                            settings.clamp_settings.weight_min,
                            settings.clamp_settings.weight_max,
                        ));
                    }
                    assert forall|j: int| 0 <= j < blen0 implies #[trigger] clamp_image(
                        params.biases@[j],
                        settings.clamp_settings.bias_min,
                        settings.clamp_settings.bias_max,
                    ) by {
                        let x = old_params.biases@[j].sub_spec(ev.mul_spec(output.3@[wlen0 + j]));
                        assert(params.biases@[j] == x.clamp_spec(
                            settings.clamp_settings.bias_min,
                            settings.clamp_settings.bias_max,
                        ));
                    }
                }
            }

            all_costs.push(costs_in_epoch);
            avg_costs.push(avg_costs_in_epoch);
            all_grads.push(grads_in_epoch);
        }

        TrainingResults {
            layout: Layout { layers: self.layout.layers.clone() },
            params,
            all_costs,
            avg_costs,
            all_grads,
        }
    }

    /// Trains on one batch: a fresh tape, the current parameters lifted
    /// onto it as leaves, one tracked cost per sample, their mean backed
    /// propagated, and a clamped gradient step applied. Returns the new
    /// parameters, the batch's raw costs, its mean cost, and the
    /// gradient with respect to the parameters.
    pub fn per_batch<T: Real>(
        &self,
        settings: &TrainingSettings<T>,
        samples: &Vec<usize>,
        params: &Params<T>,
        e: usize,
        b: usize,
        b_size: usize,
    ) -> (r: (Params<T>, Vec<T>, T, Vec<T>))
        requires
            layers_valid(self.layout.layers@),
            params_shaped(*params, self.layout.layers@),
            data_set_fits(settings.data_set, self.layout.layers@),
            self.layout.layers@[self.layout.layers@.len() - 1].num_neurons >= 1,
            1 <= b_size <= i64::MAX,
            b * settings.batch_size + b_size <= samples@.len(),
            forall|k: int|
                0 <= k < samples@.len() ==> (#[trigger] samples@[k])
                    < settings.data_set.input_sample_starts_and_lengths@.len(),
            e < settings.num_epochs,
            settings.num_epochs <= i64::MAX,
        ensures
            r.0.weights@.len() == params.weights@.len(),
            r.0.biases@.len() == params.biases@.len(),
            r.0.others@.len() == 0,
            r.1@.len() == b_size,
            forall|s: int|
                0 <= s < b_size ==> (#[trigger] r.1@[s]) == sample_cost_spec(
                    self.layout.layers@,
                    params.weights@,
                    params.biases@,
                    settings.data_set,
                    settings.cost_fn,
                    samples@[b * settings.batch_size + s] as int,
                ),
            r.2 == costs_total_spec(r.1@, b_size as int).div_spec(
                i64_to_real_spec::<T>(b_size as int),
            ),
            r.3@.len() == params.weights@.len() + params.biases@.len(),
            forall|i: int|
                0 <= i < r.0.weights@.len() ==> (#[trigger] r.0.weights@[i]) == stepped_spec(
                    params.weights@[i],
                    r.3@[i],
                    eta_val_spec(settings.eta, e as int, settings.num_epochs as int),
                    settings.clamp_settings.weight_min,
                    settings.clamp_settings.weight_max,
                ),
            forall|j: int|
                0 <= j < r.0.biases@.len() ==> (#[trigger] r.0.biases@[j]) == stepped_spec(
                    params.biases@[j],
                    r.3@[params.weights@.len() + j],
                    eta_val_spec(settings.eta, e as int, settings.num_epochs as int),
                    settings.clamp_settings.bias_min,
                    settings.clamp_settings.bias_max,
                ),
    {
        let mut tape: Tape<T> = Tape::new();
        let vars = params.var_params(&mut tape);

        let costs = self.get_costs(&mut tape, settings, samples, &vars, b, b_size);
        proof {
            assert(var_vals(vars.weights@) =~= params.weights@);
            assert(var_vals(vars.biases@) =~= params.biases@);
        }

        // combine costs before backprop
        let ghost cost_vals = costs@.map_values(|c: Var<T>| c.val);
        let mut total_cost = costs[0];
        for s in 1..b_size
            invariant
                b_size == costs@.len(),
                cost_vals == costs@.map_values(|c: Var<T>| c.val),
                tape.wf(),
                tape.num_inputs == params.weights@.len() + params.biases@.len(),
                forall|k: int|
                    0 <= k < costs@.len() ==> (#[trigger] costs@[k]).index < tape.nodes@.len(),
                total_cost.index < tape.nodes@.len(),
                total_cost.val == costs_total_spec(cost_vals, s as int),
        {
            total_cost = tape.add(total_cost, costs[s]);
        }

        let avg_cost = tape.div_real(total_cost, i64_to_real(b_size as i64));

        let full_gradient = avg_cost.backprop(&tape);
        let grad = full_gradient.wrt_inputs();

        let new_params = Self::adjust_params(grad, settings, &settings.eta, e, params);

        let mut cost_vals_out: Vec<T> = Vec::new();
        for s in 0..b_size
            invariant
                b_size == costs@.len(),
                cost_vals == costs@.map_values(|c: Var<T>| c.val),
                cost_vals_out@.len() == s,
                forall|k: int| 0 <= k < s ==> (#[trigger] cost_vals_out@[k]) == cost_vals[k],
        {
            cost_vals_out.push(costs[s].val());
        }

        let mut grad_out: Vec<T> = Vec::new();
        let glen = grad.len();
        for i in 0..glen
            invariant
                glen == grad@.len(),
                grad_out@.len() == i,
                forall|k: int| 0 <= k < i ==> (#[trigger] grad_out@[k]) == grad@[k],
        {
            grad_out.push(*vstd::slice::slice_index_get(grad, i));
        }

        proof {
            assert(cost_vals_out@ =~= cost_vals);
            assert(grad_out@ =~= grad@);
        }

        (new_params, cost_vals_out, avg_cost.val(), grad_out)
    }

    /// Runs each of the batch's samples through the tracked forward
    /// pass and reduces it against its desired output, returning one
    /// tracked cost per sample.
    pub fn get_costs<T: Real>(
        &self,
        tape: &mut Tape<T>,
        settings: &TrainingSettings<T>,
        samples: &Vec<usize>,
        vars: &Params<Var<T>>,
        b: usize,
        b_size: usize,
    ) -> (costs: Vec<Var<T>>)
        requires
            old(tape).wf(),
            layers_valid(self.layout.layers@),
            vars.weights@.len() == num_weights_spec(self.layout.layers@),
            vars.biases@.len() == num_biases_spec(self.layout.layers@),
            forall|i: int|
                0 <= i < vars.weights@.len() ==> (#[trigger] vars.weights@[i]).index < old(
                    tape,
                ).nodes@.len(),
            forall|j: int|
                0 <= j < vars.biases@.len() ==> (#[trigger] vars.biases@[j]).index < old(
                    tape,
                ).nodes@.len(),
            data_set_fits(settings.data_set, self.layout.layers@),
            self.layout.layers@[self.layout.layers@.len() - 1].num_neurons >= 1,
            b * settings.batch_size + b_size <= samples@.len(),
            forall|k: int|
                0 <= k < samples@.len() ==> (#[trigger] samples@[k])
                    < settings.data_set.input_sample_starts_and_lengths@.len(),
        ensures
            final(tape).wf(),
            extends(*old(tape), *final(tape)),
            costs@.len() == b_size,
            forall|s: int|
                0 <= s < b_size ==> (#[trigger] costs@[s]).index < final(tape).nodes@.len()
                    && costs@[s].val == sample_cost_spec(
                    self.layout.layers@,
                    var_vals(vars.weights@),
                    var_vals(vars.biases@),
                    settings.data_set,
                    settings.cost_fn,
                    samples@[b * settings.batch_size + s] as int,
                ),
    {
        let ghost lseq = self.layout.layers@;
        let ghost tape0 = *tape;
        let slen = samples.len();
        let mut costs: Vec<Var<T>> = Vec::new();
        for s in 0..b_size
            invariant
                layers_valid(lseq),
                lseq == self.layout.layers@,
                vars.weights@.len() == num_weights_spec(lseq),
                vars.biases@.len() == num_biases_spec(lseq),
                data_set_fits(settings.data_set, lseq),
                lseq[lseq.len() - 1].num_neurons >= 1,
                slen == samples@.len(),
                b * settings.batch_size + b_size <= slen,
                forall|k: int|
                    0 <= k < samples@.len() ==> (#[trigger] samples@[k])
                        < settings.data_set.input_sample_starts_and_lengths@.len(),
                tape.wf(),
                extends(tape0, *tape),
                forall|i: int|
                    0 <= i < vars.weights@.len() ==> (#[trigger] vars.weights@[i]).index
                        < tape.nodes@.len(),
                forall|j: int|
                    0 <= j < vars.biases@.len() ==> (#[trigger] vars.biases@[j]).index
                        < tape.nodes@.len(),
                costs@.len() == s,
                forall|k: int|
                    0 <= k < s ==> (#[trigger] costs@[k]).index < tape.nodes@.len()
                        && costs@[k].val == sample_cost_spec(
                        lseq,
                        var_vals(vars.weights@),
                        var_vals(vars.biases@),
                        settings.data_set,
                        settings.cost_fn,
                        samples@[b * settings.batch_size + k] as int,
                    ),
        {
            let sample_idx = samples[b * settings.batch_size + s];
            let input = slice_to_vec(settings.data_set.nth_input(sample_idx));
            let res = self.forward_pass_vars(tape, &input, vars);

            let desired = slice_to_vec(settings.data_set.nth_output(sample_idx));
            let cost = res.cost_var(tape, settings.cost_fn(), &desired);
            proof {
                assert(var_vals(res.output@) =~= forward_spec(
                    lseq,
                    var_vals(vars.weights@),
                    var_vals(vars.biases@),
                    input@,
                ));
            }
            costs.push(cost);
        }
        costs
    }

    /// Applies one gradient step: each weight and bias moves against
    /// its gradient entry, scaled by the learning rate in force, and is
    /// clamped into its configured bounds.
    pub fn adjust_params<T: Real>(
        grad: &[T],
        settings: &TrainingSettings<T>,
        eta: &Eta<T>,
        epoch: usize,
        params: &Params<T>,
    ) -> (r: Params<T>)
        requires
            grad@.len() >= params.weights@.len() + params.biases@.len(),
            epoch < settings.num_epochs,
            settings.num_epochs <= i64::MAX,
        ensures
            r.weights@.len() == params.weights@.len(),
            r.biases@.len() == params.biases@.len(),
            r.others@.len() == 0,
            forall|i: int|
                0 <= i < r.weights@.len() ==> (#[trigger] r.weights@[i]) == stepped_spec(
                    params.weights@[i],
                    grad@[i],
                    eta_val_spec(*eta, epoch as int, settings.num_epochs as int),
                    settings.clamp_settings.weight_min,
                    settings.clamp_settings.weight_max,
                ),
            forall|j: int|
                0 <= j < r.biases@.len() ==> (#[trigger] r.biases@[j]) == stepped_spec(
                    params.biases@[j],
                    grad@[params.weights@.len() + j],
                    eta_val_spec(*eta, epoch as int, settings.num_epochs as int),
                    settings.clamp_settings.bias_min,
                    settings.clamp_settings.bias_max,
                ),
    {
        let weights_len = params.weights.len();
        let mut new_weights: Vec<T> = Vec::new();

        let biases_len = params.biases.len();
        let mut new_biases: Vec<T> = Vec::new();
        let glen = grad.len();

        let eta_val = eta.val(epoch, settings.num_epochs);
        let ghost ev = eta_val_spec(*eta, epoch as int, settings.num_epochs as int);
        for w in 0..weights_len
            invariant
                weights_len == params.weights@.len(),
                glen == grad@.len(),
                glen >= params.weights@.len() + params.biases@.len(),
                eta_val == ev,
                new_weights@.len() == w,
                forall|k: int|
                    0 <= k < w ==> (#[trigger] new_weights@[k]) == stepped_spec(
                        params.weights@[k],
                        grad@[k],
                        ev,
                        settings.clamp_settings.weight_min,
                        settings.clamp_settings.weight_max,
                    ),
        {
            let g = *vstd::slice::slice_index_get(grad, w);
            let weight = params.weights[w].sub(eta_val.mul(g));
            let weight = weight.clamp(
                settings.clamp_settings.weight_min,
                settings.clamp_settings.weight_max,
            );
            new_weights.push(weight);
        }
        for b in 0..biases_len
            invariant
                weights_len == params.weights@.len(),
                biases_len == params.biases@.len(),
                glen == grad@.len(),
                glen >= params.weights@.len() + params.biases@.len(),
                eta_val == ev,
                new_biases@.len() == b,
                forall|k: int|
                    0 <= k < b ==> (#[trigger] new_biases@[k]) == stepped_spec(
                        params.biases@[k],
                        grad@[weights_len + k],
                        ev,
                        settings.clamp_settings.bias_min,
                        settings.clamp_settings.bias_max,
                    ),
        {
            let g = *vstd::slice::slice_index_get(grad, weights_len + b);
            let bias = params.biases[b].sub(eta_val.mul(g));
            let bias = bias.clamp(
                settings.clamp_settings.bias_min,
                settings.clamp_settings.bias_max,
            );
            new_biases.push(bias);
        }

        // others not implemented
        Params::new(new_weights, new_biases, Vec::new())
    }

    /// Overly simple training step for debugging purposes: one sample,
    /// one tracked cost, one clamped gradient step, no history.
    pub fn simple_train<T: Real>(
        &self,
        settings: &TrainingSettings<T>,
        params: Params<T>,
        i: usize,
    ) -> (r: TrainingResults<T>)
        requires
            layers_valid(self.layout.layers@),
            params_shaped(params, self.layout.layers@),
            data_set_fits(settings.data_set, self.layout.layers@),
            self.layout.layers@[self.layout.layers@.len() - 1].num_neurons >= 1,
            i < settings.data_set.input_sample_starts_and_lengths@.len(),
            1 <= settings.num_epochs <= i64::MAX,
        ensures
            r.layout.layers@ == self.layout.layers@,
            r.params.weights@.len() == params.weights@.len(),
            r.params.biases@.len() == params.biases@.len(),
            r.all_costs@.len() == 0,
            r.avg_costs@.len() == 0,
            r.all_grads@.len() == 0,
            forall|k: int|
                0 <= k < r.params.weights@.len() ==> #[trigger] clamp_image(
                    r.params.weights@[k],
                    settings.clamp_settings.weight_min,
                    settings.clamp_settings.weight_max,
                ),
            forall|k: int|
                0 <= k < r.params.biases@.len() ==> #[trigger] clamp_image(
                    r.params.biases@[k],
                    settings.clamp_settings.bias_min,
                    settings.clamp_settings.bias_max,
                ),
    {
        let mut tape: Tape<T> = Tape::new();
        let vars = params.var_params(&mut tape);
        let input = slice_to_vec(settings.data_set.nth_input(i));
        let res = self.forward_pass_vars(&mut tape, &input, &vars);

        let desired = slice_to_vec(settings.data_set.nth_output(i));
        let cost = res.cost_var(&mut tape, settings.cost_fn(), &desired);

        let full_grad = cost.backprop(&tape);
        let grad = full_grad.wrt_inputs();
        let new_params = Self::adjust_params(grad, settings, &settings.eta, 0, &params);
        proof {
            let ghost ev = eta_val_spec(settings.eta, 0, settings.num_epochs as int);
            assert forall|k: int| 0 <= k < new_params.weights@.len() implies #[trigger] clamp_image(
                new_params.weights@[k],
                settings.clamp_settings.weight_min,
                settings.clamp_settings.weight_max,
            ) by {
                let x = params.weights@[k].sub_spec(ev.mul_spec(grad@[k]));
                assert(new_params.weights@[k] == x.clamp_spec(
                    settings.clamp_settings.weight_min,
                    settings.clamp_settings.weight_max,
                ));
            }
            assert forall|k: int| 0 <= k < new_params.biases@.len() implies #[trigger] clamp_image(
                new_params.biases@[k],
                settings.clamp_settings.bias_min,
                settings.clamp_settings.bias_max,
            ) by {
                let x = params.biases@[k].sub_spec(
                    ev.mul_spec(grad@[params.weights@.len() + k]),
                );
                assert(new_params.biases@[k] == x.clamp_spec(
                    settings.clamp_settings.bias_min,
                    settings.clamp_settings.bias_max,
                ));
            }
        }

        TrainingResults {
            layout: Layout { layers: self.layout.layers.clone() },
            params: new_params,
            all_costs: Vec::new(),
            avg_costs: Vec::new(),
            all_grads: Vec::new(),
        }
    }
}

} // verus!
