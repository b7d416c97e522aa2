use vstd::prelude::*;

pub mod activation_fn;
pub mod layer;
pub mod layout;
pub mod network_builder;
pub mod network_data;
pub mod params;
pub mod run_results;
pub mod running;

use crate::autodiff::scalar::Real;
use crate::rng::Seed;
use crate::training::clamp_settings::ClampSettings;
use crate::training::cost::CostFn;
use crate::training::eta::Eta;
use crate::training::trainer::NetworkTrainer;

use layout::{num_biases_spec, num_weights_spec, Layout};
use network_builder::NetworkBuilder;
use params::{drawn_from_spec, params_shaped, Params};

verus! {

/// A feedforward network: its layout. The learnable parameters travel
/// beside it as `Params`, so one network description serves plain
/// inference, tracked training, and every parameter set in between.
#[derive(Clone, Debug, PartialEq)]
pub struct Network {
    pub layout: Layout,
}

impl Network {
    /// Wraps the given layout.
    pub fn new(layout: Layout) -> (r: Self)
        ensures
            r.layout == layout,
    {
        Network { layout }
    }

    /// Starts an empty layer list.
    pub fn builder() -> (r: NetworkBuilder)
        ensures
            r.layers@ == Seq::<layer::Layer>::empty(),
    {
        NetworkBuilder::new()
    }

    /// The layout itself.
    pub fn layout(&self) -> (r: &Layout)
        ensures
            r == &self.layout,
    {
        &self.layout
    }

    /// Starts a training configuration for this network.
    pub fn trainer<T: Real>(&self) -> (r: NetworkTrainer<T>)
        ensures
            r.network.layout.layers@ == self.layout.layers@,
            r.params is None,
            r.batch_size is None,
            r.num_epochs is None,
            r.cost_fn == CostFn::MSE,
            r.clamp_settings == (ClampSettings {
                weight_min: T::min_value_spec(),
                weight_max: T::max_value_spec(),
                bias_min: T::min_value_spec(),
                bias_max: T::max_value_spec(),
            }),
            r.eta == Eta::Const(
                T::one_spec().div_spec(crate::autodiff::scalar::ten_spec::<T>()),
            ),
            r.data_set is None,
            r.stoch_shuffle_seed == Seed::<T>::OS,
    {
        NetworkTrainer::new(Network { layout: Layout { layers: self.layout.layers.clone() } })
    }

    /// Parameters of the right shape, every entry the multiplicative
    /// identity.
    pub fn default_params<T: Real>(&self) -> (r: Params<T>)
        requires
            num_weights_spec(self.layout.layers@) <= usize::MAX,
            num_biases_spec(self.layout.layers@) <= usize::MAX,
        ensures
            params_shaped(r, self.layout.layers@),
            forall|i: int| 0 <= i < r.weights@.len() ==> r.weights@[i] == T::one_spec(),
            forall|i: int| 0 <= i < r.biases@.len() ==> r.biases@[i] == T::one_spec(),
            r.others@.len() == 0,
    {
        Params::default_params(self.layout())
    }

    /// Parameters of the right shape, drawn from the seeded Lehmer
    /// sequence.
    pub fn random_params<T: Real>(&self, seed: Seed<T>) -> (r: Params<T>)
        requires
            num_weights_spec(self.layout.layers@) <= usize::MAX,
            num_biases_spec(self.layout.layers@) <= usize::MAX,
            match seed {
                Seed::Input(v) => !v.le_spec(T::zero_spec()),
                Seed::OS => true,
            },
        ensures
            params_shaped(r, self.layout.layers@),
            r.others@.len() == 0,
            match seed {
                Seed::Input(v) => drawn_from_spec(r, v),
                Seed::OS => exists|init: T|
                    #[trigger] drawn_from_spec(r, init) && crate::rng::decimal_reading(init),
            },
    {
        Params::random_params(self.layout(), seed)
    }
}

} // verus!
