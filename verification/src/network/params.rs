use vstd::prelude::*;

use crate::autodiff::scalar::{two_spec, Real};
use crate::autodiff::tape::Tape;
use crate::autodiff::var::Var;
use crate::rng::{decimal_reading, lehmer_iter, lehmer_rng, lehmer_spec, os_seed, Seed};

use super::layout::{num_biases_spec, num_weights_spec, Layout};

verus! {

/// The learnable state of a network: its weights and biases, plus a
/// reserved further vector, as plain values. This is the only state
/// that persists across a whole run.
#[derive(Clone, Debug, PartialEq)]
pub struct Params<U> {
    pub weights: Vec<U>,
    pub biases: Vec<U>,
    pub others: Vec<U>,
}

/// The parameter vectors hold exactly what the layer list calls for.
pub open spec fn params_shaped<U>(
    params: Params<U>,
    layers: Seq<crate::network::layer::Layer>,
) -> bool {
    &&& params.weights@.len() == num_weights_spec(layers)
    &&& params.biases@.len() == num_biases_spec(layers)
}

/// The scale the random initialisation divides by: two to the
/// thirtieth, built as a power of the scalar's own two.
pub open spec fn two_to_the_30_spec<T: Real>() -> T {
    let one = T::one_spec();
    let two = two_spec::<T>();
    two.powf_spec(two.powf_spec(two.add_spec(two).add_spec(one)).sub_spec(two))
}

/// What the random initialisation writes at position `k` of the chain
/// started from `init`: the Lehmer state after `k + 2` steps, scaled
/// into place.
pub open spec fn rng_param_spec<T: Real>(init: T, k: int) -> T {
    lehmer_iter(init, (k + 2) as nat).div_spec(two_to_the_30_spec::<T>()).sub_spec(T::one_spec())
}

/// Every entry of the parameters is drawn, in order, from the Lehmer
/// chain started at `init`: the weights first, then the biases.
pub open spec fn drawn_from_spec<T: Real>(p: Params<T>, init: T) -> bool {
    &&& forall|i: int|
        0 <= i < p.weights@.len() ==> (#[trigger] p.weights@[i]) == rng_param_spec(init, i)
    &&& forall|j: int|
        0 <= j < p.biases@.len() ==> (#[trigger] p.biases@[j]) == rng_param_spec(
            init,
            p.weights@.len() + j,
        )
}

impl<U> Params<U> {
    /// Wraps the given parameter vectors.
    pub fn new(weights: Vec<U>, biases: Vec<U>, others: Vec<U>) -> (r: Self)
        ensures
            r.weights == weights,
            r.biases == biases,
            r.others == others,
    {
        Params { weights, biases, others }
    }

    /// The weight vector.
    pub fn weights(&self) -> (r: &Vec<U>)
        ensures
            r == &self.weights,
    {
        &self.weights
    }

    /// The bias vector.
    pub fn biases(&self) -> (r: &Vec<U>)
        ensures
            r == &self.biases,
    {
        &self.biases
    }

    /// The reserved vector.
    pub fn others(&self) -> (r: &Vec<U>)
        ensures
            r == &self.others,
    {
        &self.others
    }
}

impl<T: Real> Params<T> {
    /// Parameters of the right shape for the layout, every weight and
    /// bias the multiplicative identity.
    pub fn default_params(layout: &Layout) -> (r: Self)
        requires
            num_weights_spec(layout.layers@) <= usize::MAX,
            num_biases_spec(layout.layers@) <= usize::MAX,
        ensures
            params_shaped(r, layout.layers@),
            forall|i: int| 0 <= i < r.weights@.len() ==> r.weights@[i] == T::one_spec(),
            forall|i: int| 0 <= i < r.biases@.len() ==> r.biases@[i] == T::one_spec(),
            r.others@.len() == 0,
    {
        let num_weights = layout.num_weights();
        let num_biases = layout.num_biases();

        let mut weights: Vec<T> = Vec::new();
        for i in 0..num_weights
            invariant
                weights@.len() == i,
                forall|k: int| 0 <= k < i ==> weights@[k] == T::one_spec(),
        {
            weights.push(T::one());
        }

        let mut biases: Vec<T> = Vec::new();
        for i in 0..num_biases
            invariant
                biases@.len() == i,
                forall|k: int| 0 <= k < i ==> biases@[k] == T::one_spec(),
        {
            biases.push(T::one());
        }

        Params { weights, biases, others: Vec::new() }
    }

    /// Parameters of the right shape for the layout, drawn from the
    /// Lehmer sequence started at the seed: weights first, then biases,
    /// each the next state scaled by two to the thirtieth and shifted
    /// down by one.
    pub fn random_params(layout: &Layout, seed: Seed<T>) -> (r: Self)
        requires
            num_weights_spec(layout.layers@) <= usize::MAX,
            num_biases_spec(layout.layers@) <= usize::MAX,
            match seed {
                Seed::Input(v) => !v.le_spec(T::zero_spec()),
                Seed::OS => true,
            },
        ensures
            params_shaped(r, layout.layers@),
            r.others@.len() == 0,
            match seed {
                Seed::Input(v) => drawn_from_spec(r, v),
                Seed::OS => exists|init: T|
                    #[trigger] drawn_from_spec(r, init) && decimal_reading(init),
            },
    {
        let init_seed: T = match seed {
            Seed::OS => os_seed(),
            Seed::Input(val) => val,
        };

        let mut rng = lehmer_rng(init_seed);

        let one = T::one();
        let two = T::one().add(T::one());
        let two_to_the_30 = two.powf(two.powf(two.add(two).add(one)).sub(two));

        let num_weights = layout.num_weights();
        let num_biases = layout.num_biases();

        proof {
            assert(lehmer_iter(init_seed, 0nat) == init_seed);
            assert(lehmer_iter(init_seed, 1nat) == lehmer_spec(lehmer_iter(init_seed, 0nat)));
        }
        let mut weight_vars: Vec<T> = Vec::new();
        for i in 0..num_weights
            invariant
                weight_vars@.len() == i,
                two_to_the_30 == two_to_the_30_spec::<T>(),
                rng == lehmer_iter(init_seed, (i + 1) as nat),
                forall|k: int|
                    0 <= k < i ==> weight_vars@[k] == rng_param_spec(init_seed, k),
        {
            rng = lehmer_rng(rng);
            weight_vars.push(rng.div(two_to_the_30).sub(T::one()));
        }

        let mut bias_vars: Vec<T> = Vec::new();
        for j in 0..num_biases
            invariant
                bias_vars@.len() == j,
                two_to_the_30 == two_to_the_30_spec::<T>(),
                weight_vars@.len() == num_weights,
                rng == lehmer_iter(init_seed, (num_weights + j + 1) as nat),
                forall|k: int|
                    0 <= k < j ==> bias_vars@[k] == rng_param_spec(
                        init_seed,
                        num_weights + k,
                    ),
        {
            rng = lehmer_rng(rng);
            bias_vars.push(rng.div(two_to_the_30).sub(T::one()));
        }

        let result = Params { weights: weight_vars, biases: bias_vars, others: Vec::new() };
        proof {
            assert(drawn_from_spec(result, init_seed));
        }
        result
    }

    /// Lifts the parameters onto a fresh stretch of leaves on the tape:
    /// the weights first, then the biases, in their stored order, so the
    /// leaf entries of a later gradient line up positionally with the
    /// parameter vectors.
    pub fn var_params(&self, tape: &mut Tape<T>) -> (r: Params<Var<T>>)
        requires
            old(tape).wf(),
            old(tape).leaves_only(),
        ensures
            final(tape).wf(),
            final(tape).leaves_only(),
            final(tape).num_inputs == old(tape).num_inputs + self.weights@.len()
                + self.biases@.len(),
            r.weights@.len() == self.weights@.len(),
            r.biases@.len() == self.biases@.len(),
            r.others@.len() == 0,
            forall|i: int|
                0 <= i < self.weights@.len() ==> (#[trigger] r.weights@[i]).index == old(
                    tape,
                ).nodes@.len() + i && r.weights@[i].val == self.weights@[i],
            forall|j: int|
                0 <= j < self.biases@.len() ==> (#[trigger] r.biases@[j]).index == old(
                    tape,
                ).nodes@.len() + self.weights@.len() + j && r.biases@[j].val == self.biases@[j],
    {
        let weights = tape.new_vars(&self.weights);
        let biases = tape.new_vars(&self.biases);

        Params { weights, biases, others: Vec::new() }
    }
}

} // verus!
