use vstd::prelude::*;

pub mod operations;
pub mod real_math;

use operations::{Clamp, OperateWithReal};
use real_math::RealMath;

verus! {

/// The full capability contract of a scalar: arithmetic, the elementary
/// functions, clamping, the two identities, the extreme representable
/// values, and ordering tests.
///
/// The library's tracked arithmetic is generic over this trait, so one
/// forward-pass formula serves both plain inference and gradient-producing
/// training. Implementors live outside the library (a machine float fits
/// directly); they must be pure and deterministic, and each exec method's
/// contract only names its result through the paired spec function.
pub trait Real: RealMath + Clamp {
    spec fn zero_spec() -> Self;

    spec fn one_spec() -> Self;

    spec fn min_value_spec() -> Self;

    spec fn max_value_spec() -> Self;

    spec fn lt_spec(self, rhs: Self) -> bool;

    spec fn le_spec(self, rhs: Self) -> bool;

    spec fn eq_spec(self, rhs: Self) -> bool;

    /// The additive identity.
    fn zero() -> (r: Self)
        ensures
            r == Self::zero_spec(),
    ;

    /// The multiplicative identity.
    fn one() -> (r: Self)
        ensures
            r == Self::one_spec(),
    ;

    /// The least representable value.
    fn min_value() -> (r: Self)
        ensures
            r == Self::min_value_spec(),
    ;

    /// The greatest representable value.
    fn max_value() -> (r: Self)
        ensures
            r == Self::max_value_spec(),
    ;

    /// Strict order test, with the partial-order semantics of the
    /// implementor (a float-backed scalar answers false on NaN).
    fn lt(self, rhs: Self) -> (r: bool)
        ensures
            r == self.lt_spec(rhs),
    ;

    /// Non-strict order test, with the partial-order semantics of the
    /// implementor.
    fn le(self, rhs: Self) -> (r: bool)
        ensures
            r == self.le_spec(rhs),
    ;

    /// Value equality as the implementor defines it (a float-backed scalar
    /// answers false on NaN, true on two zeroes of opposite sign).
    fn eq_val(self, rhs: Self) -> (r: bool)
        ensures
            r == self.eq_spec(rhs),
    ;
}

impl<T: Real> OperateWithReal<T> for T {

}

/// One plus one, written through the scalar's own identities.
pub open spec fn two_spec<T: Real>() -> T {
    T::one_spec().add_spec(T::one_spec())
}

/// Two cubed plus two, the way the library builds its base ten.
pub open spec fn ten_spec<T: Real>() -> T {
    two_spec::<T>().mul_spec(two_spec::<T>()).mul_spec(two_spec::<T>()).add_spec(two_spec::<T>())
}

/// Ten to the `k`, built by repeated multiplication from the left.
pub open spec fn pow_ten_spec<T: Real>(k: nat) -> T
    decreases k,
{
    if k == 0 {
        T::one_spec()
    } else {
        pow_ten_spec::<T>((k - 1) as nat).mul_spec(ten_spec::<T>())
    }
}

/// Builds one plus one in exec code.
pub fn real_two<T: Real>() -> (r: T)
    ensures
        r == two_spec::<T>(),
{
    T::one().add(T::one())
}

/// Builds two cubed plus two in exec code.
pub fn real_ten<T: Real>() -> (r: T)
    ensures
        r == ten_spec::<T>(),
{
    let two: T = real_two();
    two.mul(two).mul(two).add(two)
}

/// Builds ten to the `k` in exec code by repeated multiplication.
pub fn real_pow_ten<T: Real>(k: usize) -> (r: T)
    ensures
        r == pow_ten_spec::<T>(k as nat),
{
    let ten: T = real_ten();
    let mut p: T = T::one();
    for i in 0..k
        invariant
            p == pow_ten_spec::<T>(i as nat),
            ten == ten_spec::<T>(),
    {
        p = p.mul(ten);
    }
    p
}

/// Rounding a scalar to a number of decimal places, by scaling with a
/// power of ten, rounding to an integer and scaling back.
pub trait RoundTo: Sized {
    spec fn round_to_spec(self, dec_places: nat) -> Self;

    fn round_to(self, dec_places: usize) -> (r: Self)
        ensures
            r == self.round_to_spec(dec_places as nat),
    ;
}

impl<T: Real> RoundTo for T {
    open spec fn round_to_spec(self, dec_places: nat) -> T {
        self.mul_spec(pow_ten_spec::<T>(dec_places)).round_spec().div_spec(
            pow_ten_spec::<T>(dec_places),
        )
    }

    fn round_to(self, dec_places: usize) -> (r: T) {
        let ten_power: T = real_pow_ten(dec_places);
        self.mul(ten_power).round().div(ten_power)
    }
}

} // verus!
