use vstd::prelude::*;

use crate::autodiff::scalar::Real;

verus! {

/// Hard bounds applied to weights and biases after every gradient step,
/// configured independently for the two kinds of parameter.
#[derive(Clone, Copy, Debug, PartialEq)]
pub struct ClampSettings<T> {
    pub weight_min: T,
    pub weight_max: T,
    pub bias_min: T,
    pub bias_max: T,
}

impl<T: Real> ClampSettings<T> {
    /// Wraps the given bounds. Each maximum must lie strictly above its
    /// minimum.
    pub fn new(weight_min: T, weight_max: T, bias_min: T, bias_max: T) -> (r: Self)
        requires
            !weight_max.le_spec(weight_min),
            !bias_max.le_spec(bias_min),
        ensures
            r == (ClampSettings { weight_min, weight_max, bias_min, bias_max }),
    {
        ClampSettings { weight_min, weight_max, bias_min, bias_max }
    }

    /// Bounds so wide they never bind: the whole representable range.
    pub fn no_clamp() -> (r: Self)
        ensures
            r == (ClampSettings {
                weight_min: T::min_value_spec(),
                weight_max: T::max_value_spec(),
                bias_min: T::min_value_spec(),
                bias_max: T::max_value_spec(),
            }),
    {
        ClampSettings {
            weight_min: T::min_value(),
            weight_max: T::max_value(),
            bias_min: T::min_value(),
            bias_max: T::max_value(),
        }
    }

    /// The least a weight may be.
    pub fn weight_min(&self) -> (r: T)
        ensures
            r == self.weight_min,
    {
        self.weight_min
    }

    /// The most a weight may be.
    pub fn weight_max(&self) -> (r: T)
        ensures
            r == self.weight_max,
    {
        self.weight_max
    }

    /// The least a bias may be.
    pub fn bias_min(&self) -> (r: T)
        ensures
            r == self.bias_min,
    {
        self.bias_min
    }

    /// The most a bias may be.
    pub fn bias_max(&self) -> (r: T)
        ensures
            r == self.bias_max,
    {
        self.bias_max
    }
}

} // verus!
