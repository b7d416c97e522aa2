use vstd::prelude::*;

use crate::autodiff::scalar::{two_spec, Real};
use crate::autodiff::tape::{extends, Tape};
use crate::autodiff::var::Var;

verus! {

/// Represents the function that returns the activation of a neuron.
#[derive(Clone, Copy, Debug, PartialEq, Eq, Structural)]
pub enum ActivationFn {
    Inert,
    Linear,
    Sigmoid,
    Tanh,
    ReLU,
    GELU,
    SiLU,
    SmoothReLU,
}

/// The sigmoid squishification: one over one plus the exponential of the
/// negated argument.
pub open spec fn sigmoid_spec<T: Real>(x: T) -> T {
    x.mul_spec(T::one_spec().neg_spec()).exp_spec().add_spec(T::one_spec()).recip_spec()
}

/// The rectified linear unit, written as the mean of the argument and its
/// absolute value.
pub open spec fn relu_spec<T: Real>(x: T) -> T {
    x.add_spec(x.abs_spec()).div_spec(two_spec::<T>())
}

/// The error function, by the same series approximation the executable
/// code evaluates; every constant is assembled from the scalar's own one.
pub open spec fn erf_spec<T: Real>(x: T) -> T {
    let one = T::one_spec();
    let two = one.add_spec(one);
    let three = two.add_spec(one);
    let four = three.add_spec(one);
    let five = four.add_spec(one);
    let six = five.add_spec(one);
    let seven = six.add_spec(one);
    let eight = seven.add_spec(one);
    let nine = eight.add_spec(one);
    let ten = nine.add_spec(one);
    let sqrtpi = ten.add_spec(seven).mul_spec(
        ten.mul_spec(ten).add_spec(one).mul_spec(seven).mul_spec(four).add_spec(nine),
    ).mul_spec(
        ten.mul_spec(seven).add_spec(three).mul_spec(ten.mul_spec(three).add_spec(one)).mul_spec(
            seven.mul_spec(four).add_spec(one),
        ).mul_spec(eight).mul_spec(seven).sub_spec(ten.add_spec(one).mul_spec(three)),
    ).div_spec(ten.powf_spec(ten.add_spec(one)));
    let sq = x.powf_spec(two);
    let series = sq.mul_spec(three.neg_spec()).exp_spec().mul_spec(
        two.powf_spec(ten.add_spec(five)).add_spec(ten.add_spec(five).add_spec(two).mul_spec(four)),
    ).sub_spec(
        sq.mul_spec(two.neg_spec()).exp_spec().mul_spec(
            eight.mul_spec(three).mul_spec(five).mul_spec(five).add_spec(one).mul_spec(
                six,
            ).mul_spec(two).mul_spec(ten.add_spec(three)).sub_spec(
                ten.mul_spec(seven).add_spec(eight),
            ),
        ),
    ).sub_spec(
        sq.mul_spec(four.neg_spec()).exp_spec().mul_spec(
            ten.add_spec(one).mul_spec(nine).mul_spec(eight).sub_spec(five).mul_spec(seven),
        ),
    ).add_spec(
        sq.mul_spec(one.neg_spec()).exp_spec().mul_spec(
            two.powf_spec(ten.add_spec(six)).add_spec(
                eight.mul_spec(seven).mul_spec(three).sub_spec(one).mul_spec(five).mul_spec(three),
            ).mul_spec(four),
        ),
    ).sub_spec(
        eight.mul_spec(five).mul_spec(five).add_spec(one).mul_spec(
            seven.mul_spec(four).add_spec(one),
        ).mul_spec(seven.mul_spec(five)).add_spec(
            ten.mul_spec(ten).mul_spec(nine).mul_spec(two).sub_spec(two),
        ),
    ).div_spec(
        two.powf_spec(ten.add_spec(one)).mul_spec(nine).mul_spec(seven).mul_spec(five).mul_spec(
            three,
        ),
    ).add_spec(one);
    x.signum_spec().mul_spec(two).div_spec(sqrtpi).mul_spec(
        sq.mul_spec(one.neg_spec()).exp_spec().mul_spec(one.neg_spec()).add_spec(
            one,
        ).sqrt_spec(),
    ).mul_spec(series)
}

/// The standard normal distribution's cumulative density, through the
/// error function.
pub open spec fn cdf_nd_spec<T: Real>(x: T) -> T {
    erf_spec(x.div_spec(two_spec::<T>().sqrt_spec())).add_spec(T::one_spec()).div_spec(
        two_spec::<T>(),
    )
}

/// The Gaussian-error linear unit.
pub open spec fn gelu_spec<T: Real>(x: T) -> T {
    x.mul_spec(cdf_nd_spec(x))
}

/// The sigmoid linear unit, or swish.
pub open spec fn silu_spec<T: Real>(x: T) -> T {
    x.mul_spec(sigmoid_spec(x))
}

/// The softplus, a smooth rectifier.
pub open spec fn smooth_relu_spec<T: Real>(x: T) -> T {
    x.exp_spec().ln_1p_spec()
}

/// What each activation choice computes on a scalar argument.
pub open spec fn compute_spec<T: Real>(f: ActivationFn, x: T) -> T {
    match f {
        ActivationFn::Inert => x.mul_spec(T::zero_spec()),
        ActivationFn::Linear => x,
        ActivationFn::Sigmoid => sigmoid_spec(x),
        ActivationFn::Tanh => x.tanh_spec(),
        ActivationFn::ReLU => relu_spec(x),
        ActivationFn::GELU => gelu_spec(x),
        ActivationFn::SiLU => silu_spec(x),
        ActivationFn::SmoothReLU => smooth_relu_spec(x),
    }
}

impl ActivationFn {
    /// Runs the activation function on the given sum.
    pub fn compute<T: Real>(&self, sum: T) -> (r: T)
        ensures
            r == compute_spec(*self, sum),
    {
        match self {
            ActivationFn::Inert => sum.mul(T::zero()),
            ActivationFn::Linear => sum,
            ActivationFn::Sigmoid => ActivationFn::sigmoid(sum),
            ActivationFn::Tanh => sum.tanh(),
            ActivationFn::ReLU => ActivationFn::relu(sum),
            ActivationFn::GELU => ActivationFn::gelu(sum),
            ActivationFn::SiLU => ActivationFn::silu(sum),
            ActivationFn::SmoothReLU => ActivationFn::smooth_relu(sum),
        }
    }

    /// Computes the sigmoid "squishification" function.
    pub fn sigmoid<T: Real>(x: T) -> (r: T)
        ensures
            r == sigmoid_spec(x),
    {
        x.mul(T::one().neg()).exp().add(T::one()).recip()
    }

    /// Computes the rectified linear unit "ReLU" activation function.
    pub fn relu<T: Real>(x: T) -> (r: T)
        ensures
            r == relu_spec(x),
    {
        x.add(x.abs()).div(T::one().add(T::one()))
    }

    /// Computes the Gaussian-error linear unit "GELU" activation function.
    pub fn gelu<T: Real>(x: T) -> (r: T)
        ensures
            r == gelu_spec(x),
    {
        x.mul(Self::cdf_nd(x))
    }

    /// Computes the sigmoid linear unit "SiLU" or "swish" activation function.
    pub fn silu<T: Real>(x: T) -> (r: T)
        ensures
            r == silu_spec(x),
    {
        x.mul(Self::sigmoid(x))
    }

    /// Computes the CDF of the standard normal distribution.
    pub fn cdf_nd<T: Real>(x: T) -> (r: T)
        ensures
            r == cdf_nd_spec(x),
    {
        let two = T::one().add(T::one());
        Self::erf(x.div(two.sqrt())).add(T::one()).div(two)
    }

    /// Computes the error function.
    pub fn erf<T: Real>(x: T) -> (r: T)
        ensures
            r == erf_spec(x),
    {
        let one = T::one();
        let two = one.add(one);
        let three = two.add(one);
        let four = three.add(one);
        let five = four.add(one);
        let six = five.add(one);
        let seven = six.add(one);
        let eight = seven.add(one);
        let nine = eight.add(one);
        let ten = nine.add(one);
        let sqrtpi = ten.add(seven).mul(
            ten.mul(ten).add(one).mul(seven).mul(four).add(nine),
        ).mul(
            ten.mul(seven).add(three).mul(ten.mul(three).add(one)).mul(
                seven.mul(four).add(one),
            ).mul(eight).mul(seven).sub(ten.add(one).mul(three)),
        ).div(ten.powf(ten.add(one)));
        let sq = x.powf(two);
        let series = sq.mul(three.neg()).exp().mul(
            two.powf(ten.add(five)).add(ten.add(five).add(two).mul(four)),
        ).sub(
            sq.mul(two.neg()).exp().mul(
                eight.mul(three).mul(five).mul(five).add(one).mul(six).mul(two).mul(
                    ten.add(three),
                ).sub(ten.mul(seven).add(eight)),
            ),
        ).sub(
            sq.mul(four.neg()).exp().mul(ten.add(one).mul(nine).mul(eight).sub(five).mul(seven)),
        ).add(
            sq.mul(one.neg()).exp().mul(
                two.powf(ten.add(six)).add(
                    eight.mul(seven).mul(three).sub(one).mul(five).mul(three),
                ).mul(four),
            ),
        ).sub(
            eight.mul(five).mul(five).add(one).mul(seven.mul(four).add(one)).mul(
                seven.mul(five),
            ).add(ten.mul(ten).mul(nine).mul(two).sub(two)),
        ).div(two.powf(ten.add(one)).mul(nine).mul(seven).mul(five).mul(three)).add(one);
        x.signum().mul(two).div(sqrtpi).mul(
            sq.mul(one.neg()).exp().mul(one.neg()).add(one).sqrt(),
        ).mul(series)
    }

    /// Computes the SmoothReLU "Softplus" activation function.
    pub fn smooth_relu<T: Real>(x: T) -> (r: T)
        ensures
            r == smooth_relu_spec(x),
    {
        x.exp().ln_1p()
    }

    /// Runs the activation function on a tracked sum, recording every
    /// elementary step on the tape. The tracked result carries the same
    /// value the plain computation gives.
    pub fn compute_var<T: Real>(&self, tape: &mut Tape<T>, sum: Var<T>) -> (r: Var<T>)
        requires
            old(tape).wf(),
            sum.index < old(tape).nodes@.len(),
        ensures
            final(tape).wf(),
            extends(*old(tape), *final(tape)),
            r.index < final(tape).nodes@.len(),
            r.val == compute_spec(*self, sum.val),
    {
        match self {
            ActivationFn::Inert => tape.mul_real(sum, T::zero()),
            ActivationFn::Linear => sum,
            ActivationFn::Sigmoid => ActivationFn::sigmoid_var(tape, sum),
            ActivationFn::Tanh => tape.tanh(sum),
            ActivationFn::ReLU => ActivationFn::relu_var(tape, sum),
            ActivationFn::GELU => ActivationFn::gelu_var(tape, sum),
            ActivationFn::SiLU => ActivationFn::silu_var(tape, sum),
            ActivationFn::SmoothReLU => ActivationFn::smooth_relu_var(tape, sum),
        }
    }

    /// The sigmoid on a tracked argument, recorded step by step.
    pub fn sigmoid_var<T: Real>(tape: &mut Tape<T>, x: Var<T>) -> (r: Var<T>)
        requires
            old(tape).wf(),
            x.index < old(tape).nodes@.len(),
        ensures
            final(tape).wf(),
            extends(*old(tape), *final(tape)),
            r.index < final(tape).nodes@.len(),
            r.val == sigmoid_spec(x.val),
    {
        let a = tape.neg(x);
        let b = tape.exp(a);
        let c = tape.add_real(b, T::one());
        tape.recip(c)
    }

    /// The rectified linear unit on a tracked argument.
    pub fn relu_var<T: Real>(tape: &mut Tape<T>, x: Var<T>) -> (r: Var<T>)
        requires
            old(tape).wf(),
            x.index < old(tape).nodes@.len(),
        ensures
            final(tape).wf(),
            extends(*old(tape), *final(tape)),
            r.index < final(tape).nodes@.len(),
            r.val == relu_spec(x.val),
    {
        let a = tape.abs(x);
        let s = tape.add(x, a);
        tape.div_real(s, T::one().add(T::one()))
    }

    /// The Gaussian-error linear unit on a tracked argument.
    pub fn gelu_var<T: Real>(tape: &mut Tape<T>, x: Var<T>) -> (r: Var<T>)
        requires
            old(tape).wf(),
            x.index < old(tape).nodes@.len(),
        ensures
            final(tape).wf(),
            extends(*old(tape), *final(tape)),
            r.index < final(tape).nodes@.len(),
            r.val == gelu_spec(x.val),
    {
        let c = Self::cdf_nd_var(tape, x);
        tape.mul(x, c)
    }

    /// The sigmoid linear unit on a tracked argument.
    pub fn silu_var<T: Real>(tape: &mut Tape<T>, x: Var<T>) -> (r: Var<T>)
        requires
            old(tape).wf(),
            x.index < old(tape).nodes@.len(),
        ensures
            final(tape).wf(),
            extends(*old(tape), *final(tape)),
            r.index < final(tape).nodes@.len(),
            r.val == silu_spec(x.val),
    {
        let s = Self::sigmoid_var(tape, x);
        tape.mul(x, s)
    }

    /// The standard normal CDF on a tracked argument.
    pub fn cdf_nd_var<T: Real>(tape: &mut Tape<T>, x: Var<T>) -> (r: Var<T>)
        requires
            old(tape).wf(),
            x.index < old(tape).nodes@.len(),
        ensures
            final(tape).wf(),
            extends(*old(tape), *final(tape)),
            r.index < final(tape).nodes@.len(),
            r.val == cdf_nd_spec(x.val),
    {
        let two = T::one().add(T::one());
        let a = tape.div_real(x, two.sqrt());
        let e = Self::erf_var(tape, a);
        let b = tape.add_real(e, T::one());
        tape.div_real(b, two)
    }

    /// The error function on a tracked argument, recording the same
    /// series the plain computation evaluates.
    pub fn erf_var<T: Real>(tape: &mut Tape<T>, x: Var<T>) -> (r: Var<T>)
        requires
            old(tape).wf(),
            x.index < old(tape).nodes@.len(),
        ensures
            final(tape).wf(),
            extends(*old(tape), *final(tape)),
            r.index < final(tape).nodes@.len(),
            r.val == erf_spec(x.val),
    {
        let one = T::one();
        let two = one.add(one);
        let three = two.add(one);
        let four = three.add(one);
        let five = four.add(one);
        let six = five.add(one);
        let seven = six.add(one);
        let eight = seven.add(one);
        let nine = eight.add(one);
        let ten = nine.add(one);
        let sqrtpi = ten.add(seven).mul(
            ten.mul(ten).add(one).mul(seven).mul(four).add(nine),
        ).mul(
            ten.mul(seven).add(three).mul(ten.mul(three).add(one)).mul(
                seven.mul(four).add(one),
            ).mul(eight).mul(seven).sub(ten.add(one).mul(three)),
        ).div(ten.powf(ten.add(one)));

        let sg = tape.signum(x);
        let sg2 = tape.mul_real(sg, two);
        let sg3 = tape.div_real(sg2, sqrtpi);

        let sq = tape.powf_real(x, two);

        // the root factor: sqrt(1 - exp(-x^2))
        let m = tape.neg(sq);
        let me = tape.exp(m);
        let men = tape.neg(me);
        let root_in = tape.add_real(men, one);
        let root = tape.sqrt(root_in);
        let f = tape.mul(sg3, root);

        // the series numerator, term by term
        let t3 = tape.mul_real(sq, three.neg());
        let e3 = tape.exp(t3);
        let a = tape.mul_real(e3, two.powf(ten.add(five)).add(ten.add(five).add(two).mul(four)));

        let t2 = tape.mul_real(sq, two.neg());
        let e2 = tape.exp(t2);
        let b = tape.mul_real(
            e2,
            eight.mul(three).mul(five).mul(five).add(one).mul(six).mul(two).mul(
                ten.add(three),
            ).sub(ten.mul(seven).add(eight)),
        );

        let t4 = tape.mul_real(sq, four.neg());
        let e4 = tape.exp(t4);
        let c = tape.mul_real(e4, ten.add(one).mul(nine).mul(eight).sub(five).mul(seven));

        let m1 = tape.neg(sq);
        let e1 = tape.exp(m1);
        let d = tape.mul_real(
            e1,
            two.powf(ten.add(six)).add(eight.mul(seven).mul(three).sub(one).mul(five).mul(three)).mul(
                four,
            ),
        );

        let s1 = tape.sub(a, b);
        let s2 = tape.sub(s1, c);
        let s3 = tape.add(s2, d);
        let s4 = tape.sub_real(
            s3,
            eight.mul(five).mul(five).add(one).mul(seven.mul(four).add(one)).mul(
                seven.mul(five),
            ).add(ten.mul(ten).mul(nine).mul(two).sub(two)),
        );
        let s5 = tape.div_real(s4, two.powf(ten.add(one)).mul(nine).mul(seven).mul(five).mul(three));
        let series = tape.add_real(s5, one);
        tape.mul(f, series)
    }

    /// The softplus on a tracked argument.
    pub fn smooth_relu_var<T: Real>(tape: &mut Tape<T>, x: Var<T>) -> (r: Var<T>)
        requires
            old(tape).wf(),
            x.index < old(tape).nodes@.len(),
        ensures
            final(tape).wf(),
            extends(*old(tape), *final(tape)),
            r.index < final(tape).nodes@.len(),
            r.val == smooth_relu_spec(x.val),
    {
        let e = tape.exp(x);
        tape.ln_1p(e)
    }
}

} // verus!
