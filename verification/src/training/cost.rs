use vstd::prelude::*;

use crate::autodiff::scalar::{two_spec, Real};
use crate::autodiff::tape::{extends, Tape};
use crate::autodiff::var::Var;
use crate::network::run_results::RunResults;
use crate::network::running::var_vals;

verus! {

/// The reduction from an (output, desired output) vector pair to one
/// scalar cost. The three fixed formulas are the whole choice: a
/// caller-supplied reduction would be a bare function value, which can
/// carry no contract here, so none is offered.
#[derive(Clone, Copy, Debug, PartialEq, Eq, Structural)]
pub enum CostFn {
    MSE,
    RMSE,
    MAE,
}

/// The running count of summands, accumulated by adding one for each.
pub open spec fn len_real_spec<T: Real>(i: int) -> T
    decreases i,
{
    if i <= 1 {
        T::one_spec()
    } else {
        len_real_spec::<T>(i - 1).add_spec(T::one_spec())
    }
}

/// The sum of squared differences over the first `i` positions.
pub open spec fn sq_err_sum_spec<T: Real>(output: Seq<T>, desired: Seq<T>, i: int) -> T
    decreases i,
{
    if i <= 1 {
        output[0].sub_spec(desired[0]).powf_spec(two_spec::<T>())
    } else {
        sq_err_sum_spec(output, desired, i - 1).add_spec(
            output[i - 1].sub_spec(desired[i - 1]).powf_spec(two_spec::<T>()),
        )
    }
}

/// The sum of absolute differences over the first `i` positions.
pub open spec fn abs_err_sum_spec<T: Real>(output: Seq<T>, desired: Seq<T>, i: int) -> T
    decreases i,
{
    if i <= 1 {
        output[0].sub_spec(desired[0]).abs_spec()
    } else {
        abs_err_sum_spec(output, desired, i - 1).add_spec(
            output[i - 1].sub_spec(desired[i - 1]).abs_spec(),
        )
    }
}

/// The mean squared error.
pub open spec fn mse_spec<T: Real>(output: Seq<T>, desired: Seq<T>) -> T {
    sq_err_sum_spec(output, desired, output.len() as int).div_spec(
        len_real_spec::<T>(output.len() as int),
    )
}

/// The root mean squared error.
pub open spec fn rmse_spec<T: Real>(output: Seq<T>, desired: Seq<T>) -> T {
    mse_spec(output, desired).sqrt_spec()
}

/// The mean absolute error.
pub open spec fn mae_spec<T: Real>(output: Seq<T>, desired: Seq<T>) -> T {
    abs_err_sum_spec(output, desired, output.len() as int).div_spec(
        len_real_spec::<T>(output.len() as int),
    )
}

/// What each cost choice computes.
pub open spec fn cost_spec<T: Real>(f: CostFn, output: Seq<T>, desired: Seq<T>) -> T {
    match f {
        CostFn::MSE => mse_spec(output, desired),
        CostFn::RMSE => rmse_spec(output, desired),
        CostFn::MAE => mae_spec(output, desired),
    }
}

impl CostFn {
    /// Reduces the vector pair with the chosen cost function. The two
    /// vectors must have the same, non-zero length.
    pub fn compute<T: Real>(&self, output: &Vec<T>, desired_output: &Vec<T>) -> (r: T)
        requires
            output@.len() == desired_output@.len(),
            output@.len() >= 1,
        ensures
            r == cost_spec(*self, output@, desired_output@),
    {
        match self {
            CostFn::MSE => CostFn::mse(output, desired_output),
            CostFn::RMSE => CostFn::rmse(output, desired_output),
            CostFn::MAE => CostFn::mae(output, desired_output),
        }
    }

    /// The mean squared error of the vector pair.
    pub fn mse<T: Real>(output: &Vec<T>, desired_output: &Vec<T>) -> (r: T)
        requires
            output@.len() == desired_output@.len(),
            output@.len() >= 1,
        ensures
            r == mse_spec(output@, desired_output@),
    {
        let two = T::one().add(T::one());
        let mut sum = output[0].sub(desired_output[0]).powf(two);
        let mut len = T::one();
        let n = output.len();
        for i in 1..n
            invariant
                n == output@.len(),
                n == desired_output@.len(),
                two == two_spec::<T>(),
                sum == sq_err_sum_spec(output@, desired_output@, i as int),
                len == len_real_spec::<T>(i as int),
        {
            sum = sum.add(output[i].sub(desired_output[i]).powf(two));
            len = len.add(T::one());
        }
        sum.div(len)
    }

    /// The root mean squared error of the vector pair.
    pub fn rmse<T: Real>(output: &Vec<T>, desired_output: &Vec<T>) -> (r: T)
        requires
            output@.len() == desired_output@.len(),
            output@.len() >= 1,
        ensures
            r == rmse_spec(output@, desired_output@),
    {
        let m = CostFn::mse(output, desired_output);
        m.sqrt()
    }

    /// The mean absolute error of the vector pair.
    pub fn mae<T: Real>(output: &Vec<T>, desired_output: &Vec<T>) -> (r: T)
        requires
            output@.len() == desired_output@.len(),
            output@.len() >= 1,
        ensures
            r == mae_spec(output@, desired_output@),
    {
        let mut sum = output[0].sub(desired_output[0]).abs();
        let mut len = T::one();
        let n = output.len();
        for i in 1..n
            invariant
                n == output@.len(),
                n == desired_output@.len(),
                sum == abs_err_sum_spec(output@, desired_output@, i as int),
                len == len_real_spec::<T>(i as int),
        {
            sum = sum.add(output[i].sub(desired_output[i]).abs());
            len = len.add(T::one());
        }
        sum.div(len)
    }

    /// Reduces a tracked output against a plain desired output,
    /// recording every step on the tape, so the cost itself is
    /// differentiable. The tracked result carries the plain cost value.
    pub fn compute_var<T: Real>(
        &self,
        tape: &mut Tape<T>,
        output: &Vec<Var<T>>,
        desired_output: &Vec<T>,
    ) -> (r: Var<T>)
        requires
            old(tape).wf(),
            output@.len() == desired_output@.len(),
            output@.len() >= 1,
            forall|i: int|
                0 <= i < output@.len() ==> (#[trigger] output@[i]).index < old(tape).nodes@.len(),
        ensures
            final(tape).wf(),
            extends(*old(tape), *final(tape)),
            r.index < final(tape).nodes@.len(),
            r.val == cost_spec(*self, var_vals(output@), desired_output@),
    {
        match self {
            CostFn::MSE => CostFn::mse_var(tape, output, desired_output),
            CostFn::RMSE => CostFn::rmse_var(tape, output, desired_output),
            CostFn::MAE => CostFn::mae_var(tape, output, desired_output),
        }
    }

    /// The mean squared error on a tracked output.
    pub fn mse_var<T: Real>(
        tape: &mut Tape<T>,
        output: &Vec<Var<T>>,
        desired_output: &Vec<T>,
    ) -> (r: Var<T>)
        requires
            old(tape).wf(),
            output@.len() == desired_output@.len(),
            output@.len() >= 1,
            forall|i: int|
                0 <= i < output@.len() ==> (#[trigger] output@[i]).index < old(tape).nodes@.len(),
        ensures
            final(tape).wf(),
            extends(*old(tape), *final(tape)),
            r.index < final(tape).nodes@.len(),
            r.val == mse_spec(var_vals(output@), desired_output@),
    {
        let ghost tape0 = *tape;
        let two = T::one().add(T::one());
        let d0 = tape.sub_real(output[0], desired_output[0]);
        let mut sum = tape.powf_real(d0, two);
        let mut len = T::one();
        let n = output.len();
        for i in 1..n
            invariant
                n == output@.len(),
                n == desired_output@.len(),
                two == two_spec::<T>(),
                tape.wf(),
                extends(tape0, *tape),
                forall|k: int|
                    0 <= k < output@.len() ==> (#[trigger] output@[k]).index < tape.nodes@.len(),
                sum.index < tape.nodes@.len(),
                sum.val == sq_err_sum_spec(var_vals(output@), desired_output@, i as int),
                len == len_real_spec::<T>(i as int),
        {
            let d = tape.sub_real(output[i], desired_output[i]);
            let p = tape.powf_real(d, two);
            sum = tape.add(sum, p);
            len = len.add(T::one());
        }
        tape.div_real(sum, len)
    }

    /// The root mean squared error on a tracked output.
    pub fn rmse_var<T: Real>(
        tape: &mut Tape<T>,
        output: &Vec<Var<T>>,
        desired_output: &Vec<T>,
    ) -> (r: Var<T>)
        requires
            old(tape).wf(),
            output@.len() == desired_output@.len(),
            output@.len() >= 1,
            forall|i: int|
                0 <= i < output@.len() ==> (#[trigger] output@[i]).index < old(tape).nodes@.len(),
        ensures
            final(tape).wf(),
            extends(*old(tape), *final(tape)),
            r.index < final(tape).nodes@.len(),
            r.val == rmse_spec(var_vals(output@), desired_output@),
    {
        let m = CostFn::mse_var(tape, output, desired_output);
        tape.sqrt(m)
    }

    /// The mean absolute error on a tracked output.
    pub fn mae_var<T: Real>(
        tape: &mut Tape<T>,
        output: &Vec<Var<T>>,
        desired_output: &Vec<T>,
    ) -> (r: Var<T>)
        requires
            old(tape).wf(),
            output@.len() == desired_output@.len(),
            output@.len() >= 1,
            forall|i: int|
                0 <= i < output@.len() ==> (#[trigger] output@[i]).index < old(tape).nodes@.len(),
        ensures
            final(tape).wf(),
            extends(*old(tape), *final(tape)),
            r.index < final(tape).nodes@.len(),
            r.val == mae_spec(var_vals(output@), desired_output@),
    {
        let ghost tape0 = *tape;
        let d0 = tape.sub_real(output[0], desired_output[0]);
        let mut sum = tape.abs(d0);
        let mut len = T::one();
        let n = output.len();
        for i in 1..n
            invariant
                n == output@.len(),
                n == desired_output@.len(),
                tape.wf(),
                extends(tape0, *tape),
                forall|k: int|
                    0 <= k < output@.len() ==> (#[trigger] output@[k]).index < tape.nodes@.len(),
                sum.index < tape.nodes@.len(),
                sum.val == abs_err_sum_spec(var_vals(output@), desired_output@, i as int),
                len == len_real_spec::<T>(i as int),
        {
            let d = tape.sub_real(output[i], desired_output[i]);
            let a = tape.abs(d);
            sum = tape.add(sum, a);
            len = len.add(T::one());
        }
        tape.div_real(sum, len)
    }
}

/// A cost of an output against itself is the additive identity: the
/// entrywise differences vanish, their squares and absolute values are
/// zero, the accumulated sum is zero, and dividing or rooting zero
/// leaves zero. The hypotheses are the scalar identities a float
/// satisfies at every finite entry, which is how "any finite vector"
/// shows itself to the abstract scalar.
pub proof fn lemma_cost_of_self_is_zero<T: Real>(out: Seq<T>)
    requires
        out.len() >= 1,
        forall|i: int| 0 <= i < out.len() ==> (#[trigger] out[i]).sub_spec(out[i])
            == T::zero_spec(),
        T::zero_spec().powf_spec(two_spec::<T>()) == T::zero_spec(),
        T::zero_spec().abs_spec() == T::zero_spec(),
        T::zero_spec().add_spec(T::zero_spec()) == T::zero_spec(),
        forall|i: int| 1 <= i ==> T::zero_spec().div_spec(#[trigger] len_real_spec::<T>(i))
            == T::zero_spec(),
        T::zero_spec().sqrt_spec() == T::zero_spec(),
    ensures
        mse_spec(out, out) == T::zero_spec(),
        rmse_spec(out, out) == T::zero_spec(),
        mae_spec(out, out) == T::zero_spec(),
{
    lemma_err_sums_of_self_are_zero(out, out.len() as int);
}

/// Both error sums of an output against itself stay at zero, term by
/// term.
proof fn lemma_err_sums_of_self_are_zero<T: Real>(out: Seq<T>, i: int)
    requires
        1 <= i <= out.len(),
        forall|k: int| 0 <= k < out.len() ==> (#[trigger] out[k]).sub_spec(out[k])
            == T::zero_spec(),
        T::zero_spec().powf_spec(two_spec::<T>()) == T::zero_spec(),
        T::zero_spec().abs_spec() == T::zero_spec(),
        T::zero_spec().add_spec(T::zero_spec()) == T::zero_spec(),
    ensures
        sq_err_sum_spec(out, out, i) == T::zero_spec(),
        abs_err_sum_spec(out, out, i) == T::zero_spec(),
    decreases i,
{
    if i > 1 {
        lemma_err_sums_of_self_are_zero(out, i - 1);
    }
}

impl<T: Real> RunResults<T> {
    /// Reduces this run's output against the desired output with the
    /// chosen cost function.
    pub fn cost(&self, cost_fn: &CostFn, desired_output: &Vec<T>) -> (r: T)
        requires
            self.output@.len() == desired_output@.len(),
            self.output@.len() >= 1,
        ensures
            r == cost_spec(*cost_fn, self.output@, desired_output@),
    {
        cost_fn.compute(&self.output, desired_output)
    }
}

impl<T: Real> RunResults<Var<T>> {
    /// Reduces this tracked run's output against the desired output,
    /// recording the reduction on the tape.
    pub fn cost_var(&self, tape: &mut Tape<T>, cost_fn: &CostFn, desired_output: &Vec<T>) -> (r:
        Var<T>)
        requires
            old(tape).wf(),
            self.output@.len() == desired_output@.len(),
            self.output@.len() >= 1,
            forall|i: int|
                0 <= i < self.output@.len() ==> (#[trigger] self.output@[i]).index < old(
                    tape,
                ).nodes@.len(),
        ensures
            final(tape).wf(),
            extends(*old(tape), *final(tape)),
            r.index < final(tape).nodes@.len(),
            r.val == cost_spec(*cost_fn, var_vals(self.output@), desired_output@),
    {
        cost_fn.compute_var(tape, &self.output, desired_output)
    }
}

} // verus!
