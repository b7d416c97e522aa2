use vstd::prelude::*;

use crate::autodiff::scalar::Real;
use crate::rng::Seed;

use super::clamp_settings::ClampSettings;
use super::cost::CostFn;
use super::data_set::DataSet;
use super::eta::Eta;

verus! {

/// Everything one training run is configured by: batch size, epoch
/// count, cost choice, clamp bounds, learning-rate schedule, the data,
/// and the shuffle seed.
#[derive(Clone, Debug)]
pub struct TrainingSettings<T> {
    pub batch_size: usize,
    pub num_epochs: usize,
    pub cost_fn: CostFn,
    pub clamp_settings: ClampSettings<T>,
    pub eta: Eta<T>,
    pub data_set: DataSet<T>,
    pub stoch_shuffle_seed: Seed<T>,
}

/// How many batches one epoch holds: the sample count divided by the
/// batch size, rounded upward.
pub open spec fn num_batches_spec(len: int, batch_size: int) -> int {
    len / batch_size + if len % batch_size == 0 {
        0int
    } else {
        1int
    }
}

impl<T: Real> TrainingSettings<T> {
    /// The batch size.
    pub fn batch_size(&self) -> (r: &usize)
        ensures
            r == &self.batch_size,
    {
        &self.batch_size
    }

    /// The number of epochs.
    pub fn num_epochs(&self) -> (r: &usize)
        ensures
            r == &self.num_epochs,
    {
        &self.num_epochs
    }

    /// The cost function choice.
    pub fn cost_fn(&self) -> (r: &CostFn)
        ensures
            r == &self.cost_fn,
    {
        &self.cost_fn
    }

    /// The clamp bounds.
    pub fn clamp_settings(&self) -> (r: &ClampSettings<T>)
        ensures
            r == &self.clamp_settings,
    {
        &self.clamp_settings
    }

    /// The learning-rate schedule.
    pub fn eta(&self) -> (r: &Eta<T>)
        ensures
            r == &self.eta,
    {
        &self.eta
    }

    /// The training data.
    pub fn data_set(&self) -> (r: &DataSet<T>)
        ensures
            r == &self.data_set,
    {
        &self.data_set
    }

    /// The shuffle seed.
    pub fn stoch_shuffle_seed(&self) -> (r: &Seed<T>)
        ensures
            r == &self.stoch_shuffle_seed,
    {
        &self.stoch_shuffle_seed
    }

    /// How many batches one epoch holds, the final one possibly
    /// truncated.
    pub fn num_batches(&self) -> (r: usize)
        requires
            self.batch_size >= 1,
            self.data_set.input_sample_starts_and_lengths@.len()
                == self.data_set.output_sample_starts_and_lengths@.len(),
        ensures
            r == num_batches_spec(
                self.data_set.input_sample_starts_and_lengths@.len() as int,
                self.batch_size as int,
            ),
    {
        let len = self.data_set.len();
        let q = len / self.batch_size;
        if len % self.batch_size == 0 {
            q
        } else {
            proof {
                vstd::arithmetic::div_mod::lemma_fundamental_div_mod(
                    len as int,
                    self.batch_size as int,
                );
                assert((q as int) <= (self.batch_size as int) * (q as int)) by (nonlinear_arith)
                    requires
                        q >= 0,
                        self.batch_size >= 1,
                ;
            }
            q + 1
        }
    }
}

} // verus!
