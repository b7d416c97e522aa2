use vstd::prelude::*;

use super::grad::Grad;
use super::node::Node;
use super::scalar::{two_spec, ten_spec, Real};
use super::tape::{op_appended, Tape};

verus! {

/// A lightweight handle into a tape: the index of the node that computed
/// this value, and the value itself, cached so later operations can
/// evaluate their local derivatives without re-reading the tape.
#[derive(Clone, Copy, Debug, PartialEq)]
pub struct Var<T: Real> {
    pub index: usize,
    pub val: T,
}

/// The seed state of the backward scan: one at the traversed output's
/// index, zero everywhere else.
pub open spec fn backprop_seed<T: Real>(len: nat, index: int) -> Seq<T> {
    Seq::new(len, |i: int| if i == index { T::one_spec() } else { T::zero_spec() })
}

/// One step of the backward scan at node `i`: the node's left parent
/// accumulates `lhs_partial * grad[i]`, then the right parent accumulates
/// `rhs_partial * grad[i]`, the factor re-read after the first update so
/// a self-referencing parent observes it.
pub open spec fn backprop_step<T: Real>(nodes: Seq<Node<T>>, s: Seq<T>, i: int) -> Seq<T> {
    let node = nodes[i];
    let lhs = node.lhs_parent as int;
    let rhs = node.rhs_parent as int;
    let s1 = s.update(lhs, s[lhs].add_spec(node.lhs_partial.mul_spec(s[i])));
    s1.update(rhs, s1[rhs].add_spec(node.rhs_partial.mul_spec(s1[i])))
}

/// The state of the backward scan once every node from the tape's end
/// down to `j` (inclusive) has been processed, starting from `s`.
pub open spec fn backprop_from<T: Real>(nodes: Seq<Node<T>>, s: Seq<T>, j: int) -> Seq<T>
    decreases nodes.len() - j,
{
    if j >= nodes.len() || j < 0 {
        s
    } else {
        backprop_step(nodes, backprop_from(nodes, s, j + 1), j)
    }
}

/// The complete backward scan: seed at `index`, then process every node
/// from the tape's end down to zero.
pub open spec fn backprop_spec<T: Real>(nodes: Seq<Node<T>>, index: int) -> Seq<T> {
    backprop_from(nodes, backprop_seed(nodes.len(), index), 0)
}

/// A backward traversal only reads the tape, and its result is a
/// function of the tape's contents and the traversed index alone: two
/// traversals of the same variable over the same unchanged tape yield
/// identical derivative vectors.
pub proof fn lemma_backprop_deterministic<T: Real>(
    nodes: Seq<Node<T>>,
    index: int,
    g1: Seq<T>,
    g2: Seq<T>,
)
    requires
        g1 == backprop_spec(nodes, index),
        g2 == backprop_spec(nodes, index),
    ensures
        g1 == g2,
{
}

impl<T: Real> Var<T> {
    /// Performs back propagation: seeds a dense derivative vector with one
    /// at this variable's node, then scans the tape once from its end down
    /// to zero, adding each node's partials times its accumulated
    /// derivative into its parents. Because parents always lie at or below
    /// their node, this single reverse scan is a valid reverse topological
    /// order. The tape itself is only read, never changed.
    pub fn backprop(&self, tape: &Tape<T>) -> (r: Grad<T>)
        requires
            tape.wf(),
            self.index < tape.nodes@.len(),
        ensures
            r.wf(),
            r.partials@ == backprop_spec(tape.nodes@, self.index as int),
            r.partials@.len() == tape.nodes@.len(),
            r.num_inputs == tape.num_inputs,
    {
        let tape_len = tape.nodes.len();
        let mut grad: Vec<T> = Vec::new();
        for i in 0..tape_len
            invariant
                grad@.len() == i,
                tape_len == tape.nodes@.len(),
                self.index < tape_len,
                forall|k: int|
                    0 <= k < i ==> grad@[k] == backprop_seed::<T>(
                        tape_len as nat,
                        self.index as int,
                    )[k],
        {
            if i == self.index {
                grad.push(T::one());
            } else {
                grad.push(T::zero());
            }
        }
        proof {
            assert(grad@ =~= backprop_seed::<T>(tape_len as nat, self.index as int));
        }

        let ghost seed = grad@;
        let mut j = tape_len;
        while j > 0
            invariant
                tape.wf(),
                tape_len == tape.nodes@.len(),
                j <= tape_len,
                grad@.len() == tape_len,
                grad@ == backprop_from(tape.nodes@, seed, j as int),
            decreases j,
        {
            j = j - 1;
            let node = tape.nodes[j];
            let lhs_dep = node.lhs_parent;
            let rhs_dep = node.rhs_parent;
            assert(lhs_dep <= j && rhs_dep <= j);

            let grad_j = grad[j];
            let lhs_cur = grad[lhs_dep];
            grad.set(lhs_dep, lhs_cur.add(node.lhs_partial.mul(grad_j)));

            let grad_j = grad[j];
            let rhs_cur = grad[rhs_dep];
            grad.set(rhs_dep, rhs_cur.add(node.rhs_partial.mul(grad_j)));

            proof {
                assert(grad@ =~= backprop_step(
                    tape.nodes@,
                    backprop_from(tape.nodes@, seed, j + 1),
                    j as int,
                ));
            }
        }

        Grad { partials: grad, num_inputs: tape.num_inputs }
    }

    /// For easily reading the value of `self`. Do not use for logic.
    pub fn val(self) -> (r: T)
        ensures
            r == self.val,
    {
        self.val
    }
}

impl<T: Real> Tape<T> {
    /// Negation of a tracked variable, recorded as multiplication by
    /// minus one.
    pub fn neg(&mut self, v: Var<T>) -> (r: Var<T>)
        requires
            old(self).wf(),
            v.index < old(self).nodes@.len(),
        ensures
            final(self).wf(),
            op_appended(
                *old(self),
                *final(self),
                T::one_spec().neg_spec(),
                T::zero_spec(),
                v.index as int,
                v.index as int,
                r,
                v.val.mul_spec(T::one_spec().neg_spec()),
            ),
    {
        let m = T::one().neg();
        self.mul_real(v, m)
    }

    /// Addition of two tracked variables.
    pub fn add(&mut self, lhs: Var<T>, rhs: Var<T>) -> (r: Var<T>)
        requires
            old(self).wf(),
            lhs.index < old(self).nodes@.len(),
            rhs.index < old(self).nodes@.len(),
        ensures
            final(self).wf(),
            op_appended(
                *old(self),
                *final(self),
                T::one_spec(),
                T::one_spec(),
                lhs.index as int,
                rhs.index as int,
                r,
                lhs.val.add_spec(rhs.val),
            ),
    {
        let one = T::one();
        let val = lhs.val.add(rhs.val);
        self.binary_op(one, one, lhs.index, rhs.index, val)
    }

    /// Addition of a tracked variable and a plain scalar.
    pub fn add_real(&mut self, lhs: Var<T>, rhs: T) -> (r: Var<T>)
        requires
            old(self).wf(),
            lhs.index < old(self).nodes@.len(),
        ensures
            final(self).wf(),
            op_appended(
                *old(self),
                *final(self),
                T::one_spec(),
                T::zero_spec(),
                lhs.index as int,
                lhs.index as int,
                r,
                lhs.val.add_spec(rhs),
            ),
    {
        let one = T::one();
        let val = lhs.val.add(rhs);
        self.unary_op(one, lhs.index, val)
    }

    /// Subtraction of two tracked variables.
    pub fn sub(&mut self, lhs: Var<T>, rhs: Var<T>) -> (r: Var<T>)
        requires
            old(self).wf(),
            lhs.index < old(self).nodes@.len(),
            rhs.index < old(self).nodes@.len(),
        ensures
            final(self).wf(),
            op_appended(
                *old(self),
                *final(self),
                T::one_spec(),
                T::one_spec().neg_spec(),
                lhs.index as int,
                rhs.index as int,
                r,
                lhs.val.sub_spec(rhs.val),
            ),
    {
        let one = T::one();
        let mone = T::one().neg();
        let val = lhs.val.sub(rhs.val);
        self.binary_op(one, mone, lhs.index, rhs.index, val)
    }

    /// Subtraction of a plain scalar from a tracked variable.
    pub fn sub_real(&mut self, lhs: Var<T>, rhs: T) -> (r: Var<T>)
        requires
            old(self).wf(),
            lhs.index < old(self).nodes@.len(),
        ensures
            final(self).wf(),
            op_appended(
                *old(self),
                *final(self),
                T::one_spec(),
                T::zero_spec(),
                lhs.index as int,
                lhs.index as int,
                r,
                lhs.val.sub_spec(rhs),
            ),
    {
        let one = T::one();
        let val = lhs.val.sub(rhs);
        self.unary_op(one, lhs.index, val)
    }

    /// Multiplication of two tracked variables: each side's partial is the
    /// other side's current value.
    pub fn mul(&mut self, lhs: Var<T>, rhs: Var<T>) -> (r: Var<T>)
        requires
            old(self).wf(),
            lhs.index < old(self).nodes@.len(),
            rhs.index < old(self).nodes@.len(),
        ensures
            final(self).wf(),
            op_appended(
                *old(self),
                *final(self),
                rhs.val,
                lhs.val,
                lhs.index as int,
                rhs.index as int,
                r,
                lhs.val.mul_spec(rhs.val),
            ),
    {
        let val = lhs.val.mul(rhs.val);
        self.binary_op(rhs.val, lhs.val, lhs.index, rhs.index, val)
    }

    /// Multiplication of a tracked variable by a plain scalar.
    pub fn mul_real(&mut self, lhs: Var<T>, rhs: T) -> (r: Var<T>)
        requires
            old(self).wf(),
            lhs.index < old(self).nodes@.len(),
        ensures
            final(self).wf(),
            op_appended(
                *old(self),
                *final(self),
                rhs,
                T::zero_spec(),
                lhs.index as int,
                lhs.index as int,
                r,
                lhs.val.mul_spec(rhs),
            ),
    {
        let val = lhs.val.mul(rhs);
        self.unary_op(rhs, lhs.index, val)
    }

    /// Division of two tracked variables, with the quotient-rule partials.
    pub fn div(&mut self, lhs: Var<T>, rhs: Var<T>) -> (r: Var<T>)
        requires
            old(self).wf(),
            lhs.index < old(self).nodes@.len(),
            rhs.index < old(self).nodes@.len(),
        ensures
            final(self).wf(),
            op_appended(
                *old(self),
                *final(self),
                rhs.val.recip_spec(),
                lhs.val.mul_spec(T::one_spec().neg_spec()).div_spec(rhs.val.mul_spec(rhs.val)),
                lhs.index as int,
                rhs.index as int,
                r,
                lhs.val.div_spec(rhs.val),
            ),
    {
        let lp = rhs.val.recip();
        let rp = lhs.val.mul(T::one().neg()).div(rhs.val.mul(rhs.val));
        let val = lhs.val.div(rhs.val);
        self.binary_op(lp, rp, lhs.index, rhs.index, val)
    }

    /// Division of a tracked variable by a plain scalar.
    pub fn div_real(&mut self, lhs: Var<T>, rhs: T) -> (r: Var<T>)
        requires
            old(self).wf(),
            lhs.index < old(self).nodes@.len(),
        ensures
            final(self).wf(),
            op_appended(
                *old(self),
                *final(self),
                rhs.recip_spec(),
                T::zero_spec(),
                lhs.index as int,
                lhs.index as int,
                r,
                lhs.val.div_spec(rhs),
            ),
    {
        let lp = rhs.recip();
        let val = lhs.val.div(rhs);
        self.unary_op(lp, lhs.index, val)
    }

    /// Remainder of two tracked variables; the divisor's partial is the
    /// truncated negated quotient.
    pub fn rem(&mut self, lhs: Var<T>, rhs: Var<T>) -> (r: Var<T>)
        requires
            old(self).wf(),
            lhs.index < old(self).nodes@.len(),
            rhs.index < old(self).nodes@.len(),
        ensures
            final(self).wf(),
            op_appended(
                *old(self),
                *final(self),
                T::one_spec(),
                lhs.val.neg_spec().div_spec(rhs.val).trunc_spec(),
                lhs.index as int,
                rhs.index as int,
                r,
                lhs.val.rem_spec(rhs.val),
            ),
    {
        let one = T::one();
        let rp = lhs.val.neg().div(rhs.val).trunc();
        let val = lhs.val.rem(rhs.val);
        self.binary_op(one, rp, lhs.index, rhs.index, val)
    }

    /// Remainder of a tracked variable by a plain scalar.
    pub fn rem_real(&mut self, lhs: Var<T>, rhs: T) -> (r: Var<T>)
        requires
            old(self).wf(),
            lhs.index < old(self).nodes@.len(),
        ensures
            final(self).wf(),
            op_appended(
                *old(self),
                *final(self),
                T::one_spec(),
                T::zero_spec(),
                lhs.index as int,
                lhs.index as int,
                r,
                lhs.val.rem_spec(rhs),
            ),
    {
        let one = T::one();
        let val = lhs.val.rem(rhs);
        self.unary_op(one, lhs.index, val)
    }

    /// Reciprocal of a tracked variable.
    pub fn recip(&mut self, v: Var<T>) -> (r: Var<T>)
        requires
            old(self).wf(),
            v.index < old(self).nodes@.len(),
        ensures
            final(self).wf(),
            op_appended(
                *old(self),
                *final(self),
                T::one_spec().neg_spec().div_spec(v.val.mul_spec(v.val)),
                T::zero_spec(),
                v.index as int,
                v.index as int,
                r,
                v.val.recip_spec(),
            ),
    {
        let p = T::one().neg().div(v.val.mul(v.val));
        let val = v.val.recip();
        self.unary_op(p, v.index, val)
    }

    /// Absolute value; the partial is the sign, also at zero.
    pub fn abs(&mut self, v: Var<T>) -> (r: Var<T>)
        requires
            old(self).wf(),
            v.index < old(self).nodes@.len(),
        ensures
            final(self).wf(),
            op_appended(
                *old(self),
                *final(self),
                v.val.signum_spec(),
                T::zero_spec(),
                v.index as int,
                v.index as int,
                r,
                v.val.abs_spec(),
            ),
    {
        let p = v.val.signum();
        let val = v.val.abs();
        self.unary_op(p, v.index, val)
    }

    /// Sign of a tracked variable; the partial is identically zero.
    pub fn signum(&mut self, v: Var<T>) -> (r: Var<T>)
        requires
            old(self).wf(),
            v.index < old(self).nodes@.len(),
        ensures
            final(self).wf(),
            op_appended(
                *old(self),
                *final(self),
                T::zero_spec(),
                T::zero_spec(),
                v.index as int,
                v.index as int,
                r,
                v.val.signum_spec(),
            ),
    {
        let zero = T::zero();
        let val = v.val.signum();
        self.unary_op(zero, v.index, val)
    }

    /// Square root of a tracked variable.
    pub fn sqrt(&mut self, v: Var<T>) -> (r: Var<T>)
        requires
            old(self).wf(),
            v.index < old(self).nodes@.len(),
        ensures
            final(self).wf(),
            op_appended(
                *old(self),
                *final(self),
                v.val.powf_spec(two_spec::<T>().recip_spec().neg_spec()).div_spec(two_spec::<T>()),
                T::zero_spec(),
                v.index as int,
                v.index as int,
                r,
                v.val.sqrt_spec(),
            ),
    {
        let two = T::one().add(T::one());
        let p = v.val.powf(two.recip().neg()).div(two);
        let val = v.val.sqrt();
        self.unary_op(p, v.index, val)
    }

    /// Exponential of a tracked variable.
    pub fn exp(&mut self, v: Var<T>) -> (r: Var<T>)
        requires
            old(self).wf(),
            v.index < old(self).nodes@.len(),
        ensures
            final(self).wf(),
            op_appended(
                *old(self),
                *final(self),
                v.val.exp_spec(),
                T::zero_spec(),
                v.index as int,
                v.index as int,
                r,
                v.val.exp_spec(),
            ),
    {
        let p = v.val.exp();
        let val = v.val.exp();
        self.unary_op(p, v.index, val)
    }

    /// Base-two exponential of a tracked variable, recorded with the
    /// natural-exponential value its hand-derived recording carries.
    pub fn exp2(&mut self, v: Var<T>) -> (r: Var<T>)
        requires
            old(self).wf(),
            v.index < old(self).nodes@.len(),
        ensures
            final(self).wf(),
            op_appended(
                *old(self),
                *final(self),
                T::one_spec().ln_1p_spec().mul_spec(v.val.exp_spec()),
                T::zero_spec(),
                v.index as int,
                v.index as int,
                r,
                v.val.exp_spec(),
            ),
    {
        let p = T::one().ln_1p().mul(v.val.exp());
        let val = v.val.exp();
        self.unary_op(p, v.index, val)
    }

    /// Natural logarithm, recorded as the logarithm in base e.
    pub fn ln(&mut self, v: Var<T>) -> (r: Var<T>)
        requires
            old(self).wf(),
            v.index < old(self).nodes@.len(),
        ensures
            final(self).wf(),
            op_appended(
                *old(self),
                *final(self),
                v.val.mul_spec(T::one_spec().exp_spec().ln_spec()).recip_spec(),
                T::zero_spec(),
                v.index as int,
                v.index as int,
                r,
                v.val.log_spec(T::one_spec().exp_spec()),
            ),
    {
        let e = T::one().exp();
        self.log_real(v, e)
    }

    /// Base-two logarithm of a tracked variable.
    pub fn log2(&mut self, v: Var<T>) -> (r: Var<T>)
        requires
            old(self).wf(),
            v.index < old(self).nodes@.len(),
        ensures
            final(self).wf(),
            op_appended(
                *old(self),
                *final(self),
                v.val.mul_spec(two_spec::<T>().ln_spec()).recip_spec(),
                T::zero_spec(),
                v.index as int,
                v.index as int,
                r,
                v.val.log_spec(two_spec::<T>()),
            ),
    {
        let two = T::one().add(T::one());
        self.log_real(v, two)
    }

    /// Base-ten logarithm of a tracked variable.
    pub fn log10(&mut self, v: Var<T>) -> (r: Var<T>)
        requires
            old(self).wf(),
            v.index < old(self).nodes@.len(),
        ensures
            final(self).wf(),
            op_appended(
                *old(self),
                *final(self),
                v.val.mul_spec(ten_spec::<T>().ln_spec()).recip_spec(),
                T::zero_spec(),
                v.index as int,
                v.index as int,
                r,
                v.val.log_spec(ten_spec::<T>()),
            ),
    {
        let two = T::one().add(T::one());
        let eight = two.mul(two).mul(two);
        let ten = eight.add(two);
        self.log_real(v, ten)
    }

    /// Cube root of a tracked variable.
    pub fn cbrt(&mut self, v: Var<T>) -> (r: Var<T>)
        requires
            old(self).wf(),
            v.index < old(self).nodes@.len(),
        ensures
            final(self).wf(),
            op_appended(
                *old(self),
                *final(self),
                v.val.powf_spec(two_spec::<T>().neg_spec().div_spec(three_spec::<T>())).div_spec(
                    three_spec::<T>(),
                ),
                T::zero_spec(),
                v.index as int,
                v.index as int,
                r,
                v.val.cbrt_spec(),
            ),
    {
        let two = T::one().add(T::one());
        let three = two.add(T::one());
        let p = v.val.powf(two.neg().div(three)).div(three);
        let val = v.val.cbrt();
        self.unary_op(p, v.index, val)
    }

    /// Sine of a tracked variable.
    pub fn sin(&mut self, v: Var<T>) -> (r: Var<T>)
        requires
            old(self).wf(),
            v.index < old(self).nodes@.len(),
        ensures
            final(self).wf(),
            op_appended(
                *old(self),
                *final(self),
                v.val.cos_spec(),
                T::zero_spec(),
                v.index as int,
                v.index as int,
                r,
                v.val.sin_spec(),
            ),
    {
        let p = v.val.cos();
        let val = v.val.sin();
        self.unary_op(p, v.index, val)
    }

    /// Cosine of a tracked variable.
    pub fn cos(&mut self, v: Var<T>) -> (r: Var<T>)
        requires
            old(self).wf(),
            v.index < old(self).nodes@.len(),
        ensures
            final(self).wf(),
            op_appended(
                *old(self),
                *final(self),
                v.val.sin_spec().neg_spec(),
                T::zero_spec(),
                v.index as int,
                v.index as int,
                r,
                v.val.cos_spec(),
            ),
    {
        let p = v.val.sin().neg();
        let val = v.val.cos();
        self.unary_op(p, v.index, val)
    }

    /// Tangent of a tracked variable.
    pub fn tan(&mut self, v: Var<T>) -> (r: Var<T>)
        requires
            old(self).wf(),
            v.index < old(self).nodes@.len(),
        ensures
            final(self).wf(),
            op_appended(
                *old(self),
                *final(self),
                T::one_spec().div_spec(v.val.cos_spec().mul_spec(v.val.cos_spec())),
                T::zero_spec(),
                v.index as int,
                v.index as int,
                r,
                v.val.tan_spec(),
            ),
    {
        let cos_val = v.val.cos();
        let p = T::one().div(cos_val.mul(cos_val));
        let val = v.val.tan();
        self.unary_op(p, v.index, val)
    }

    /// Inverse sine of a tracked variable.
    pub fn asin(&mut self, v: Var<T>) -> (r: Var<T>)
        requires
            old(self).wf(),
            v.index < old(self).nodes@.len(),
        ensures
            final(self).wf(),
            op_appended(
                *old(self),
                *final(self),
                T::one_spec().sub_spec(v.val.powf_spec(two_spec::<T>())).sqrt_spec().recip_spec(),
                T::zero_spec(),
                v.index as int,
                v.index as int,
                r,
                v.val.asin_spec(),
            ),
    {
        let two = T::one().add(T::one());
        let p = T::one().sub(v.val.powf(two)).sqrt().recip();
        let val = v.val.asin();
        self.unary_op(p, v.index, val)
    }

    /// Inverse cosine of a tracked variable.
    pub fn acos(&mut self, v: Var<T>) -> (r: Var<T>)
        requires
            old(self).wf(),
            v.index < old(self).nodes@.len(),
        ensures
            final(self).wf(),
            op_appended(
                *old(self),
                *final(self),
                T::one_spec().sub_spec(v.val.powf_spec(two_spec::<T>())).sqrt_spec().recip_spec()
                    .neg_spec(),
                T::zero_spec(),
                v.index as int,
                v.index as int,
                r,
                v.val.acos_spec(),
            ),
    {
        let two = T::one().add(T::one());
        let p = T::one().sub(v.val.powf(two)).sqrt().recip().neg();
        let val = v.val.acos();
        self.unary_op(p, v.index, val)
    }

    /// Inverse tangent of a tracked variable.
    pub fn atan(&mut self, v: Var<T>) -> (r: Var<T>)
        requires
            old(self).wf(),
            v.index < old(self).nodes@.len(),
        ensures
            final(self).wf(),
            op_appended(
                *old(self),
                *final(self),
                v.val.powf_spec(two_spec::<T>()).add_spec(T::one_spec()).recip_spec(),
                T::zero_spec(),
                v.index as int,
                v.index as int,
                r,
                v.val.atan_spec(),
            ),
    {
        let two = T::one().add(T::one());
        let p = v.val.powf(two).add(T::one()).recip();
        let val = v.val.atan();
        self.unary_op(p, v.index, val)
    }

    /// Exponential minus one of a tracked variable.
    pub fn exp_m1(&mut self, v: Var<T>) -> (r: Var<T>)
        requires
            old(self).wf(),
            v.index < old(self).nodes@.len(),
        ensures
            final(self).wf(),
            op_appended(
                *old(self),
                *final(self),
                v.val.exp_spec(),
                T::zero_spec(),
                v.index as int,
                v.index as int,
                r,
                v.val.exp_m1_spec(),
            ),
    {
        let p = v.val.exp();
        let val = v.val.exp_m1();
        self.unary_op(p, v.index, val)
    }

    /// Natural logarithm of one plus a tracked variable.
    pub fn ln_1p(&mut self, v: Var<T>) -> (r: Var<T>)
        requires
            old(self).wf(),
            v.index < old(self).nodes@.len(),
        ensures
            final(self).wf(),
            op_appended(
                *old(self),
                *final(self),
                v.val.add_spec(T::one_spec()).recip_spec(),
                T::zero_spec(),
                v.index as int,
                v.index as int,
                r,
                v.val.ln_1p_spec(),
            ),
    {
        let p = v.val.add(T::one()).recip();
        let val = v.val.ln_1p();
        self.unary_op(p, v.index, val)
    }

    /// Hyperbolic sine of a tracked variable.
    pub fn sinh(&mut self, v: Var<T>) -> (r: Var<T>)
        requires
            old(self).wf(),
            v.index < old(self).nodes@.len(),
        ensures
            final(self).wf(),
            op_appended(
                *old(self),
                *final(self),
                v.val.cosh_spec(),
                T::zero_spec(),
                v.index as int,
                v.index as int,
                r,
                v.val.sinh_spec(),
            ),
    {
        let p = v.val.cosh();
        let val = v.val.sinh();
        self.unary_op(p, v.index, val)
    }

    /// Hyperbolic cosine of a tracked variable.
    pub fn cosh(&mut self, v: Var<T>) -> (r: Var<T>)
        requires
            old(self).wf(),
            v.index < old(self).nodes@.len(),
        ensures
            final(self).wf(),
            op_appended(
                *old(self),
                *final(self),
                v.val.sinh_spec(),
                T::zero_spec(),
                v.index as int,
                v.index as int,
                r,
                v.val.cosh_spec(),
            ),
    {
        let p = v.val.sinh();
        let val = v.val.cosh();
        self.unary_op(p, v.index, val)
    }

    /// Hyperbolic tangent of a tracked variable, with its partial written
    /// through exponentials.
    pub fn tanh(&mut self, v: Var<T>) -> (r: Var<T>)
        requires
            old(self).wf(),
            v.index < old(self).nodes@.len(),
        ensures
            final(self).wf(),
            op_appended(
                *old(self),
                *final(self),
                two_spec::<T>().add_spec(two_spec::<T>()).mul_spec(
                    two_spec::<T>().mul_spec(v.val).exp_spec(),
                ).div_spec(
                    two_spec::<T>().mul_spec(v.val).exp_spec().add_spec(T::one_spec()).powf_spec(
                        two_spec::<T>(),
                    ),
                ),
                T::zero_spec(),
                v.index as int,
                v.index as int,
                r,
                v.val.tanh_spec(),
            ),
    {
        let two = T::one().add(T::one());
        let four = two.add(two);
        let twox = two.mul(v.val);
        let p = four.mul(twox.exp()).div(twox.exp().add(T::one()).powf(two));
        let val = v.val.tanh();
        self.unary_op(p, v.index, val)
    }

    /// Inverse hyperbolic sine of a tracked variable.
    pub fn asinh(&mut self, v: Var<T>) -> (r: Var<T>)
        requires
            old(self).wf(),
            v.index < old(self).nodes@.len(),
        ensures
            final(self).wf(),
            op_appended(
                *old(self),
                *final(self),
                v.val.powf_spec(two_spec::<T>()).add_spec(T::one_spec()).sqrt_spec().recip_spec(),
                T::zero_spec(),
                v.index as int,
                v.index as int,
                r,
                v.val.asinh_spec(),
            ),
    {
        let two = T::one().add(T::one());
        let p = v.val.powf(two).add(T::one()).sqrt().recip();
        let val = v.val.asinh();
        self.unary_op(p, v.index, val)
    }

    /// Inverse hyperbolic cosine of a tracked variable.
    pub fn acosh(&mut self, v: Var<T>) -> (r: Var<T>)
        requires
            old(self).wf(),
            v.index < old(self).nodes@.len(),
        ensures
            final(self).wf(),
            op_appended(
                *old(self),
                *final(self),
                v.val.sub_spec(T::one_spec()).sqrt_spec().mul_spec(
                    v.val.add_spec(T::one_spec()).sqrt_spec(),
                ).recip_spec(),
                T::zero_spec(),
                v.index as int,
                v.index as int,
                r,
                v.val.acosh_spec(),
            ),
    {
        let p = v.val.sub(T::one()).sqrt().mul(v.val.add(T::one()).sqrt()).recip();
        let val = v.val.acosh();
        self.unary_op(p, v.index, val)
    }

    /// Inverse hyperbolic tangent of a tracked variable.
    pub fn atanh(&mut self, v: Var<T>) -> (r: Var<T>)
        requires
            old(self).wf(),
            v.index < old(self).nodes@.len(),
        ensures
            final(self).wf(),
            op_appended(
                *old(self),
                *final(self),
                T::one_spec().sub_spec(v.val.powf_spec(two_spec::<T>())).recip_spec(),
                T::zero_spec(),
                v.index as int,
                v.index as int,
                r,
                v.val.atanh_spec(),
            ),
    {
        let two = T::one().add(T::one());
        let p = T::one().sub(v.val.powf(two)).recip();
        let val = v.val.atanh();
        self.unary_op(p, v.index, val)
    }

    /// Truncation of a tracked variable; the partial is identically zero.
    pub fn trunc(&mut self, v: Var<T>) -> (r: Var<T>)
        requires
            old(self).wf(),
            v.index < old(self).nodes@.len(),
        ensures
            final(self).wf(),
            op_appended(
                *old(self),
                *final(self),
                T::zero_spec(),
                T::zero_spec(),
                v.index as int,
                v.index as int,
                r,
                v.val.trunc_spec(),
            ),
    {
        let zero = T::zero();
        let val = v.val.trunc();
        self.unary_op(zero, v.index, val)
    }

    /// Floor of a tracked variable; the partial is identically zero.
    pub fn floor(&mut self, v: Var<T>) -> (r: Var<T>)
        requires
            old(self).wf(),
            v.index < old(self).nodes@.len(),
        ensures
            final(self).wf(),
            op_appended(
                *old(self),
                *final(self),
                T::zero_spec(),
                T::zero_spec(),
                v.index as int,
                v.index as int,
                r,
                v.val.floor_spec(),
            ),
    {
        let zero = T::zero();
        let val = v.val.floor();
        self.unary_op(zero, v.index, val)
    }

    /// Ceiling of a tracked variable; the partial is identically zero.
    pub fn ceil(&mut self, v: Var<T>) -> (r: Var<T>)
        requires
            old(self).wf(),
            v.index < old(self).nodes@.len(),
        ensures
            final(self).wf(),
            op_appended(
                *old(self),
                *final(self),
                T::zero_spec(),
                T::zero_spec(),
                v.index as int,
                v.index as int,
                r,
                v.val.ceil_spec(),
            ),
    {
        let zero = T::zero();
        let val = v.val.ceil();
        self.unary_op(zero, v.index, val)
    }

    /// Rounding of a tracked variable; the partial is identically zero.
    pub fn round(&mut self, v: Var<T>) -> (r: Var<T>)
        requires
            old(self).wf(),
            v.index < old(self).nodes@.len(),
        ensures
            final(self).wf(),
            op_appended(
                *old(self),
                *final(self),
                T::zero_spec(),
                T::zero_spec(),
                v.index as int,
                v.index as int,
                r,
                v.val.round_spec(),
            ),
    {
        let zero = T::zero();
        let val = v.val.round();
        self.unary_op(zero, v.index, val)
    }

    /// Logarithm of a tracked variable in a tracked base.
    pub fn log(&mut self, lhs: Var<T>, base: Var<T>) -> (r: Var<T>)
        requires
            old(self).wf(),
            lhs.index < old(self).nodes@.len(),
            base.index < old(self).nodes@.len(),
        ensures
            final(self).wf(),
            op_appended(
                *old(self),
                *final(self),
                lhs.val.mul_spec(base.val.ln_spec()).recip_spec(),
                lhs.val.ln_spec().neg_spec().div_spec(
                    base.val.mul_spec(base.val.ln_spec()).mul_spec(base.val.ln_spec()),
                ),
                lhs.index as int,
                base.index as int,
                r,
                lhs.val.log_spec(base.val),
            ),
    {
        let base_ln = base.val.ln();
        let lp = lhs.val.mul(base_ln).recip();
        let rp = lhs.val.ln().neg().div(base.val.mul(base_ln).mul(base_ln));
        let val = lhs.val.log(base.val);
        self.binary_op(lp, rp, lhs.index, base.index, val)
    }

    /// A tracked variable raised to a tracked exponent.
    pub fn powf(&mut self, lhs: Var<T>, n: Var<T>) -> (r: Var<T>)
        requires
            old(self).wf(),
            lhs.index < old(self).nodes@.len(),
            n.index < old(self).nodes@.len(),
        ensures
            final(self).wf(),
            op_appended(
                *old(self),
                *final(self),
                n.val.mul_spec(lhs.val.powf_spec(n.val.sub_spec(T::one_spec()))),
                lhs.val.powf_spec(n.val).mul_spec(lhs.val.ln_spec()),
                lhs.index as int,
                n.index as int,
                r,
                lhs.val.powf_spec(n.val),
            ),
    {
        let lp = n.val.mul(lhs.val.powf(n.val.sub(T::one())));
        let rp = lhs.val.powf(n.val).mul(lhs.val.ln());
        let val = lhs.val.powf(n.val);
        self.binary_op(lp, rp, lhs.index, n.index, val)
    }

    /// Logarithm of a tracked variable in a plain base.
    pub fn log_real(&mut self, lhs: Var<T>, base: T) -> (r: Var<T>)
        requires
            old(self).wf(),
            lhs.index < old(self).nodes@.len(),
        ensures
            final(self).wf(),
            op_appended(
                *old(self),
                *final(self),
                lhs.val.mul_spec(base.ln_spec()).recip_spec(),
                T::zero_spec(),
                lhs.index as int,
                lhs.index as int,
                r,
                lhs.val.log_spec(base),
            ),
    {
        let p = lhs.val.mul(base.ln()).recip();
        let val = lhs.val.log(base);
        self.unary_op(p, lhs.index, val)
    }

    /// A tracked variable raised to a plain exponent.
    pub fn powf_real(&mut self, lhs: Var<T>, n: T) -> (r: Var<T>)
        requires
            old(self).wf(),
            lhs.index < old(self).nodes@.len(),
        ensures
            final(self).wf(),
            op_appended(
                *old(self),
                *final(self),
                n.mul_spec(lhs.val.powf_spec(n.sub_spec(T::one_spec()))),
                T::zero_spec(),
                lhs.index as int,
                lhs.index as int,
                r,
                lhs.val.powf_spec(n),
            ),
    {
        let p = n.mul(lhs.val.powf(n.sub(T::one())));
        let val = lhs.val.powf(n);
        self.unary_op(p, lhs.index, val)
    }

    /// Logarithm of a plain scalar in a tracked base.
    pub fn real_log(&mut self, lhs: T, base: Var<T>) -> (r: Var<T>)
        requires
            old(self).wf(),
            base.index < old(self).nodes@.len(),
        ensures
            final(self).wf(),
            op_appended(
                *old(self),
                *final(self),
                lhs.ln_spec().neg_spec().div_spec(
                    base.val.mul_spec(base.val.ln_spec()).mul_spec(base.val.ln_spec()),
                ),
                T::zero_spec(),
                base.index as int,
                base.index as int,
                r,
                lhs.log_spec(base.val),
            ),
    {
        let p = lhs.ln().neg().div(base.val.mul(base.val.ln()).mul(base.val.ln()));
        let val = lhs.log(base.val);
        self.unary_op(p, base.index, val)
    }

    /// A plain scalar raised to a tracked exponent.
    pub fn real_powf(&mut self, lhs: T, n: Var<T>) -> (r: Var<T>)
        requires
            old(self).wf(),
            n.index < old(self).nodes@.len(),
        ensures
            final(self).wf(),
            op_appended(
                *old(self),
                *final(self),
                lhs.powf_spec(n.val).mul_spec(lhs.ln_spec()),
                T::zero_spec(),
                n.index as int,
                n.index as int,
                r,
                lhs.powf_spec(n.val),
            ),
    {
        let p = lhs.powf(n.val).mul(lhs.ln());
        let val = lhs.powf(n.val);
        self.unary_op(p, n.index, val)
    }
}

/// Two plus one, written through the scalar's own identities.
pub open spec fn three_spec<T: Real>() -> T {
    two_spec::<T>().add_spec(T::one_spec())
}

} // verus!
