use vstd::prelude::*;

verus! {

/// The elementary unary functions a scalar must offer.
///
/// Every exec method is paired with a spec function that names its result:
/// an implementor must be a pure, deterministic function of its arguments
/// (as the elementary functions on machine floats are), and the spec name
/// is how contracts of the tracked arithmetic speak about the value that
/// the implementor computed.
pub trait UnaryOperations: Sized + Copy {
    spec fn recip_spec(self) -> Self;

    spec fn abs_spec(self) -> Self;

    spec fn signum_spec(self) -> Self;

    spec fn sqrt_spec(self) -> Self;

    spec fn exp_spec(self) -> Self;

    spec fn exp2_spec(self) -> Self;

    spec fn ln_spec(self) -> Self;

    spec fn log2_spec(self) -> Self;

    spec fn log10_spec(self) -> Self;

    spec fn cbrt_spec(self) -> Self;

    spec fn sin_spec(self) -> Self;

    spec fn cos_spec(self) -> Self;

    spec fn tan_spec(self) -> Self;

    spec fn asin_spec(self) -> Self;

    spec fn acos_spec(self) -> Self;

    spec fn atan_spec(self) -> Self;

    spec fn exp_m1_spec(self) -> Self;

    spec fn ln_1p_spec(self) -> Self;

    spec fn sinh_spec(self) -> Self;

    spec fn cosh_spec(self) -> Self;

    spec fn tanh_spec(self) -> Self;

    spec fn asinh_spec(self) -> Self;

    spec fn acosh_spec(self) -> Self;

    spec fn atanh_spec(self) -> Self;

    spec fn trunc_spec(self) -> Self;

    spec fn floor_spec(self) -> Self;

    spec fn ceil_spec(self) -> Self;

    spec fn round_spec(self) -> Self;

    fn recip(self) -> (r: Self)
        ensures
            r == self.recip_spec(),
    ;

    fn abs(self) -> (r: Self)
        ensures
            r == self.abs_spec(),
    ;

    fn signum(self) -> (r: Self)
        ensures
            r == self.signum_spec(),
    ;

    fn sqrt(self) -> (r: Self)
        ensures
            r == self.sqrt_spec(),
    ;

    fn exp(self) -> (r: Self)
        ensures
            r == self.exp_spec(),
    ;

    fn exp2(self) -> (r: Self)
        ensures
            r == self.exp2_spec(),
    ;

    fn ln(self) -> (r: Self)
        ensures
            r == self.ln_spec(),
    ;

    fn log2(self) -> (r: Self)
        ensures
            r == self.log2_spec(),
    ;

    fn log10(self) -> (r: Self)
        ensures
            r == self.log10_spec(),
    ;

    fn cbrt(self) -> (r: Self)
        ensures
            r == self.cbrt_spec(),
    ;

    fn sin(self) -> (r: Self)
        ensures
            r == self.sin_spec(),
    ;

    fn cos(self) -> (r: Self)
        ensures
            r == self.cos_spec(),
    ;

    fn tan(self) -> (r: Self)
        ensures
            r == self.tan_spec(),
    ;

    fn asin(self) -> (r: Self)
        ensures
            r == self.asin_spec(),
    ;

    fn acos(self) -> (r: Self)
        ensures
            r == self.acos_spec(),
    ;

    fn atan(self) -> (r: Self)
        ensures
            r == self.atan_spec(),
    ;

    fn exp_m1(self) -> (r: Self)
        ensures
            r == self.exp_m1_spec(),
    ;

    fn ln_1p(self) -> (r: Self)
        ensures
            r == self.ln_1p_spec(),
    ;

    fn sinh(self) -> (r: Self)
        ensures
            r == self.sinh_spec(),
    ;

    fn cosh(self) -> (r: Self)
        ensures
            r == self.cosh_spec(),
    ;

    fn tanh(self) -> (r: Self)
        ensures
            r == self.tanh_spec(),
    ;

    fn asinh(self) -> (r: Self)
        ensures
            r == self.asinh_spec(),
    ;

    fn acosh(self) -> (r: Self)
        ensures
            r == self.acosh_spec(),
    ;

    fn atanh(self) -> (r: Self)
        ensures
            r == self.atanh_spec(),
    ;

    fn trunc(self) -> (r: Self)
        ensures
            r == self.trunc_spec(),
    ;

    fn floor(self) -> (r: Self)
        ensures
            r == self.floor_spec(),
    ;

    fn ceil(self) -> (r: Self)
        ensures
            r == self.ceil_spec(),
    ;

    fn round(self) -> (r: Self)
        ensures
            r == self.round_spec(),
    ;
}

/// The elementary two-argument functions a scalar must offer, under the
/// same purity discipline as `UnaryOperations`.
pub trait BinaryOperations: Sized + Copy {
    spec fn log_spec(self, base: Self) -> Self;

    spec fn powf_spec(self, n: Self) -> Self;

    fn log(self, base: Self) -> (r: Self)
        ensures
            r == self.log_spec(base),
    ;

    fn powf(self, n: Self) -> (r: Self)
        ensures
            r == self.powf_spec(n),
    ;
}

/// Marker for values that can stand on either side of arithmetic with a
/// plain scalar of type `T`. A plain scalar itself qualifies; tracked
/// variables mix with plain scalars through the dedicated tape methods
/// instead.
pub trait OperateWithReal<T>: Sized {

}

/// Clamping a scalar into an interval, under the same purity discipline as
/// `UnaryOperations`. Nothing is assumed about where the result lies: a
/// float-backed implementor hands a NaN through unchanged.
pub trait Clamp: Sized + Copy {
    spec fn clamp_spec(self, min: Self, max: Self) -> Self;

    fn clamp(self, min: Self, max: Self) -> (r: Self)
        ensures
            r == self.clamp_spec(min, max),
    ;
}

} // verus!
