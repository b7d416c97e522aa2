use vstd::prelude::*;

use crate::autodiff::scalar::Real;
use crate::network::layout::layers_valid;
use crate::network::params::{params_shaped, Params};
use crate::network::Network;
use crate::rng::Seed;
use crate::training::{clamp_image, data_set_fits};

use super::clamp_settings::ClampSettings;
use super::cost::CostFn;
use super::data_set::DataSet;
use super::eta::Eta;
use super::training_settings::TrainingSettings;

verus! {

/// Collects a training run's configuration piece by piece before
/// running it: the network, the starting parameters, and the settings,
/// with sensible defaults for cost, clamping and learning rate.
#[derive(Clone, Debug)]
pub struct NetworkTrainer<T> {
    pub network: Network,
    pub params: Option<Params<T>>,
    pub batch_size: Option<usize>,
    pub num_epochs: Option<usize>,
    pub cost_fn: CostFn,
    pub clamp_settings: ClampSettings<T>,
    pub eta: Eta<T>,
    pub data_set: Option<DataSet<T>>,
    pub stoch_shuffle_seed: Seed<T>,
}

impl<T: Real> NetworkTrainer<T> {
    /// Starts a configuration for the given network: no parameters,
    /// batch size, epoch count or data yet; mean squared error, no
    /// clamping, a learning rate of one tenth, and a clock-drawn
    /// shuffle seed.
    pub fn new(network: Network) -> (r: Self)
        ensures
            r.network == network,
            r.params is None,
            r.batch_size is None,
            r.num_epochs is None,
            r.cost_fn == CostFn::MSE,
            r.clamp_settings == (ClampSettings {
                weight_min: T::min_value_spec(),
                weight_max: T::max_value_spec(),
                bias_min: T::min_value_spec(),
                bias_max: T::max_value_spec(),
            }),
            r.eta == Eta::Const(
                T::one_spec().div_spec(crate::autodiff::scalar::ten_spec::<T>()),
            ),
            r.data_set is None,
            r.stoch_shuffle_seed == Seed::<T>::OS,
    {
        NetworkTrainer {
            network,
            params: None,
            batch_size: None,
            num_epochs: None,
            cost_fn: CostFn::MSE,
            clamp_settings: ClampSettings::no_clamp(),
            eta: Eta::point_one(),
            data_set: None,
            stoch_shuffle_seed: Seed::OS,
        }
    }

    /// Sets the starting parameters.
    pub fn params(self, params: Params<T>) -> (r: Self)
        ensures
            r == (NetworkTrainer { params: Some(params), ..self }),
    {
        let mut this = self;
        this.params = Some(params);
        this
    }

    /// Takes every setting from an assembled `TrainingSettings`.
    pub fn training_settings(self, settings: TrainingSettings<T>) -> (r: Self)
        ensures
            r == (NetworkTrainer {
                batch_size: Some(settings.batch_size),
                num_epochs: Some(settings.num_epochs),
                cost_fn: settings.cost_fn,
                clamp_settings: settings.clamp_settings,
                eta: settings.eta,
                data_set: Some(settings.data_set),
                stoch_shuffle_seed: settings.stoch_shuffle_seed,
                ..self
            }),
    {
        let mut this = self;
        this.batch_size = Some(settings.batch_size);
        this.num_epochs = Some(settings.num_epochs);
        this.cost_fn = settings.cost_fn;
        this.clamp_settings = settings.clamp_settings;
        this.eta = settings.eta;
        this.data_set = Some(settings.data_set);
        this.stoch_shuffle_seed = settings.stoch_shuffle_seed;
        this
    }

    /// Sets the batch size.
    pub fn batch_size(self, size: usize) -> (r: Self)
        ensures
            r == (NetworkTrainer { batch_size: Some(size), ..self }),
    {
        let mut this = self;
        this.batch_size = Some(size);
        this
    }

    /// Sets the number of epochs.
    pub fn num_epochs(self, n: usize) -> (r: Self)
        ensures
            r == (NetworkTrainer { num_epochs: Some(n), ..self }),
    {
        let mut this = self;
        this.num_epochs = Some(n);
        this
    }

    /// Sets the cost function.
    pub fn cost_fn(self, cost_fn: CostFn) -> (r: Self)
        ensures
            r == (NetworkTrainer { cost_fn, ..self }),
    {
        let mut this = self;
        this.cost_fn = cost_fn;
        this
    }

    /// Sets all four clamp bounds at once.
    pub fn clamp_settings(self, settings: ClampSettings<T>) -> (r: Self)
        ensures
            r == (NetworkTrainer { clamp_settings: settings, ..self }),
    {
        let mut this = self;
        this.clamp_settings = settings;
        this
    }

    /// Sets the least a weight may be.
    pub fn weight_min(self, min: T) -> (r: Self)
        ensures
            r == (NetworkTrainer {
                clamp_settings: ClampSettings { weight_min: min, ..self.clamp_settings },
                ..self
            }),
    {
        let mut this = self;
        this.clamp_settings.weight_min = min;
        this
    }

    /// Sets the most a weight may be.
    pub fn weight_max(self, max: T) -> (r: Self)
        ensures
            r == (NetworkTrainer {
                clamp_settings: ClampSettings { weight_max: max, ..self.clamp_settings },
                ..self
            }),
    {
        let mut this = self;
        this.clamp_settings.weight_max = max;
        this
    }

    /// Sets the least a bias may be.
    pub fn bias_min(self, min: T) -> (r: Self)
        ensures
            r == (NetworkTrainer {
                clamp_settings: ClampSettings { bias_min: min, ..self.clamp_settings },
                ..self
            }),
    {
        let mut this = self;
        this.clamp_settings.bias_min = min;
        this
    }

    /// Sets the most a bias may be.
    pub fn bias_max(self, max: T) -> (r: Self)
        ensures
            r == (NetworkTrainer {
                clamp_settings: ClampSettings { bias_max: max, ..self.clamp_settings },
                ..self
            }),
    {
        let mut this = self;
        this.clamp_settings.bias_max = max;
        this
    }

    /// Sets the learning-rate schedule.
    pub fn eta(self, eta: Eta<T>) -> (r: Self)
        ensures
            r == (NetworkTrainer { eta, ..self }),
    {
        let mut this = self;
        this.eta = eta;
        this
    }

    /// Sets the training data.
    pub fn data_set(self, data_set: DataSet<T>) -> (r: Self)
        ensures
            r == (NetworkTrainer { data_set: Some(data_set), ..self }),
    {
        let mut this = self;
        this.data_set = Some(data_set);
        this
    }

    /// Sets the shuffle seed.
    pub fn stoch_shuffle_seed(self, seed: Seed<T>) -> (r: Self)
        ensures
            r == (NetworkTrainer { stoch_shuffle_seed: seed, ..self }),
    {
        let mut this = self;
        this.stoch_shuffle_seed = seed;
        this
    }

    /// Runs the configured training and hands back the optimised
    /// parameters. The parameters, batch size, epoch count and data
    /// must all have been set.
    pub fn train(self) -> (r: Params<T>)
        requires
            self.params is Some,
            self.batch_size is Some,
            self.num_epochs is Some,
            self.data_set is Some,
            layers_valid(self.network.layout.layers@),
            params_shaped(self.params.unwrap(), self.network.layout.layers@),
            data_set_fits(self.data_set.unwrap(), self.network.layout.layers@),
            self.network.layout.layers@[self.network.layout.layers@.len() - 1].num_neurons >= 1,
            1 <= self.batch_size.unwrap()
                <= self.data_set.unwrap().input_sample_starts_and_lengths@.len(),
            self.batch_size.unwrap() <= i64::MAX,
            self.num_epochs.unwrap() <= i64::MAX,
            match self.stoch_shuffle_seed {
                Seed::Input(v) => !v.le_spec(T::zero_spec()),
                Seed::OS => true,
            },
        ensures
            r.weights@.len() == self.params.unwrap().weights@.len(),
            r.biases@.len() == self.params.unwrap().biases@.len(),
            self.num_epochs.unwrap() >= 1 ==> forall|i: int|
                0 <= i < r.weights@.len() ==> #[trigger] clamp_image(
                    r.weights@[i],
                    self.clamp_settings.weight_min,
                    self.clamp_settings.weight_max,
                ),
            self.num_epochs.unwrap() >= 1 ==> forall|j: int|
                0 <= j < r.biases@.len() ==> #[trigger] clamp_image(
                    r.biases@[j],
                    self.clamp_settings.bias_min,
                    self.clamp_settings.bias_max,
                ),
    {
        let NetworkTrainer {
            network,
            params,
            batch_size,
            num_epochs,
            cost_fn,
            clamp_settings,
            eta,
            data_set,
            stoch_shuffle_seed,
        } = self;
        let params = params.unwrap();
        let settings = TrainingSettings {
            batch_size: batch_size.unwrap(),
            num_epochs: num_epochs.unwrap(),
            cost_fn,
            clamp_settings,
            eta,
            data_set: data_set.unwrap(),
            stoch_shuffle_seed,
        };

        let results = network.train(&settings, params);
        let optimised = results.params;
        proof {
            assert(settings.num_epochs == self.num_epochs.unwrap());
            assert(settings.clamp_settings == self.clamp_settings);
            if self.num_epochs.unwrap() >= 1 {
                assert forall|i: int| 0 <= i < optimised.weights@.len() implies
                    #[trigger] clamp_image(
                    optimised.weights@[i],
                    self.clamp_settings.weight_min,
                    self.clamp_settings.weight_max,
                ) by {
                    assert(clamp_image(
                        optimised.weights@[i],
                        settings.clamp_settings.weight_min,
                        settings.clamp_settings.weight_max,
                    ));
                }
                assert forall|j: int| 0 <= j < optimised.biases@.len() implies
                    #[trigger] clamp_image(
                    optimised.biases@[j],
                    self.clamp_settings.bias_min,
                    self.clamp_settings.bias_max,
                ) by {
                    assert(clamp_image(
                        optimised.biases@[j],
                        settings.clamp_settings.bias_min,
                        settings.clamp_settings.bias_max,
                    ));
                }
            }
        }
        optimised
    }
}

} // verus!
