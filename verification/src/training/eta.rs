use vstd::prelude::*;

use crate::autodiff::scalar::{ten_spec, Real};
use crate::rng::{i64_to_real, i64_to_real_spec};

verus! {

/// The learning rate: a constant, or a geometric decay from an initial
/// value to a final one across the epochs of a run.
#[derive(Clone, Copy, Debug, PartialEq)]
pub enum Eta<T> {
    Const(T),
    Decay(T, T),
}

/// The start value multiplied `k` times by the per-epoch decay factor.
pub open spec fn decay_iter_spec<T: Real>(init: T, factor: T, k: nat) -> T
    decreases k,
{
    if k == 0 {
        init
    } else {
        decay_iter_spec(init, factor, (k - 1) as nat).mul_spec(factor)
    }
}

/// The per-epoch decay factor: the ratio of final to initial value,
/// raised to one over the number of steps between them.
pub open spec fn decay_factor_spec<T: Real>(init: T, fin: T, num_epochs: int) -> T {
    fin.div_spec(init).powf_spec(i64_to_real_spec::<T>(num_epochs - 1).recip_spec())
}

/// The learning rate in force at the given epoch.
pub open spec fn eta_val_spec<T: Real>(eta: Eta<T>, epoch: int, num_epochs: int) -> T {
    match eta {
        Eta::Const(v) => v,
        Eta::Decay(init, fin) => decay_iter_spec(
            init,
            decay_factor_spec(init, fin, num_epochs),
            epoch as nat,
        ),
    }
}

impl<T: Real> Eta<T> {
    /// Returns the constant learning rate one tenth.
    pub fn point_one() -> (r: Self)
        ensures
            r == Eta::Const(T::one_spec().div_spec(ten_spec::<T>())),
    {
        let two = T::one().add(T::one());
        let ten = two.mul(two).mul(two).add(two);
        Eta::Const(T::one().div(ten))
    }

    /// Returns the constant learning rate one hundredth.
    pub fn point_zero_one() -> (r: Self)
        ensures
            r == Eta::Const(T::one_spec().div_spec(ten_spec::<T>()).div_spec(ten_spec::<T>())),
    {
        let two = T::one().add(T::one());
        let ten = two.mul(two).mul(two).add(two);
        Eta::Const(T::one().div(ten).div(ten))
    }

    /// Unwraps `self`, returning a tuple of both potential variants.
    pub fn unwrap(&self) -> (r: (Option<T>, Option<(T, T)>))
        ensures
            match *self {
                Eta::Const(v) => r == (Some(v), Option::<(T, T)>::None),
                Eta::Decay(init, fin) => r == (Option::<T>::None, Some((init, fin))),
            },
    {
        match self {
            Eta::Const(v) => (Some(*v), None),
            Eta::Decay(init, fin) => (None, Some((*init, *fin))),
        }
    }

    /// Returns the learning rate in force at the given epoch of a run
    /// with the given length.
    pub fn val(&self, epoch: usize, num_epochs: usize) -> (r: T)
        requires
            epoch < num_epochs,
            num_epochs <= i64::MAX,
        ensures
            r == eta_val_spec(*self, epoch as int, num_epochs as int),
    {
        match self {
            Eta::Const(v) => *v,
            Eta::Decay(init, fin) => {
                let steps: T = i64_to_real(num_epochs as i64 - 1);
                let factor = fin.div(*init).powf(steps.recip());
                let mut val = *init;
                for k in 0..epoch
                    invariant
                        factor == decay_factor_spec(*init, *fin, num_epochs as int),
                        val == decay_iter_spec(*init, factor, k as nat),
                {
                    val = val.mul(factor);
                }
                val
            },
        }
    }
}

impl<T: Real> Default for Eta<T> {
    /// The constant learning rate one tenth.
    fn default() -> (r: Self)
        ensures
            r == Eta::Const(T::one_spec().div_spec(ten_spec::<T>())),
    {
        Eta::point_one()
    }
}

} // verus!
