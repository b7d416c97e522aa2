use vstd::prelude::*;

use crate::autodiff::scalar::{pow_ten_spec, real_pow_ten, Real};
use crate::network::layout::Layout;
use crate::network::params::Params;
use crate::rng::{i64_to_real, i64_to_real_spec};

verus! {

/// The data returned after training a network: the layout trained
/// against, the optimised parameters, and the full cost and gradient
/// history, organised by epoch and then batch.
#[derive(Clone, Debug)]
pub struct TrainingResults<T> {
    pub layout: Layout,
    pub params: Params<T>,
    pub all_costs: Vec<Vec<Vec<T>>>,
    pub avg_costs: Vec<Vec<T>>,
    pub all_grads: Vec<Vec<Vec<T>>>,
}

/// The sum of the first `i` entries, accumulated from zero by addition.
pub open spec fn fold_add_spec<T: Real>(s: Seq<T>, i: int) -> T
    decreases i,
{
    if i <= 0 {
        T::zero_spec()
    } else {
        fold_add_spec(s, i - 1).add_spec(s[i - 1])
    }
}

/// One epoch's average cost, rounded to the asked number of decimal
/// places: the batch averages summed, divided by their count, scaled by
/// a power of ten, rounded, and scaled back.
pub open spec fn epoch_cost_entry_spec<T: Real>(avg: Seq<T>, dec_places: nat) -> T {
    let mean = fold_add_spec(avg, avg.len() as int).div_spec(
        i64_to_real_spec::<T>(avg.len() as int),
    );
    mean.mul_spec(pow_ten_spec::<T>(dec_places)).round_spec().div_spec(
        pow_ten_spec::<T>(dec_places),
    )
}

impl<T: Real> TrainingResults<T> {
    /// Returns the network layout that `self.params` is based on.
    pub fn layout(&self) -> (r: &Layout)
        ensures
            r == &self.layout,
    {
        &self.layout
    }

    /// Returns the new, optimised params.
    pub fn params(&self) -> (r: &Params<T>)
        ensures
            r == &self.params,
    {
        &self.params
    }

    /// Returns all costs generated during training, organised by epoch
    /// then batch.
    pub fn all_costs(&self) -> (r: &Vec<Vec<Vec<T>>>)
        ensures
            r == &self.all_costs,
    {
        &self.all_costs
    }

    /// Returns the average cost of each batch generated during
    /// training, organised by epoch.
    pub fn avg_costs(&self) -> (r: &Vec<Vec<T>>)
        ensures
            r == &self.avg_costs,
    {
        &self.avg_costs
    }

    /// Returns all gradients generated during training, organised by
    /// epoch.
    pub fn all_grads(&self) -> (r: &Vec<Vec<Vec<T>>>)
        ensures
            r == &self.all_grads,
    {
        &self.all_grads
    }

    /// Returns the average cost for each epoch, rounded to the given
    /// number of decimal places.
    pub fn epoch_cost(&self, dec_places: usize) -> (r: Vec<T>)
        requires
            forall|e: int|
                0 <= e < self.avg_costs@.len() ==> (#[trigger] self.avg_costs@[e])@.len()
                    <= i64::MAX,
        ensures
            r@.len() == self.avg_costs@.len(),
            forall|e: int|
                0 <= e < r@.len() ==> (#[trigger] r@[e]) == epoch_cost_entry_spec(
                    self.avg_costs@[e]@,
                    dec_places as nat,
                ),
    {
        let ten_power: T = real_pow_ten(dec_places);
        let mut out: Vec<T> = Vec::new();
        let epochs = self.avg_costs.len();
        for e in 0..epochs
            invariant
                epochs == self.avg_costs@.len(),
                ten_power == pow_ten_spec::<T>(dec_places as nat),
                forall|k: int|
                    0 <= k < epochs ==> (#[trigger] self.avg_costs@[k])@.len() <= i64::MAX,
                out@.len() == e,
                forall|k: int|
                    0 <= k < e ==> (#[trigger] out@[k]) == epoch_cost_entry_spec(
                        self.avg_costs@[k]@,
                        dec_places as nat,
                    ),
        {
            let row = &self.avg_costs[e];
            let n = row.len();
            let mut acc = T::zero();
            for i in 0..n
                invariant
                    n == row@.len(),
                    acc == fold_add_spec(row@, i as int),
            {
                acc = acc.add(row[i]);
            }
            let mean = acc.div(i64_to_real(n as i64));
            out.push(mean.mul(ten_power).round().div(ten_power));
        }
        out
    }
}

} // verus!
