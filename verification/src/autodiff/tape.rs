use vstd::prelude::*;

use super::node::Node;
use super::scalar::Real;
use super::var::Var;

verus! {

/// An append-only log of computation nodes plus the count of leaf
/// variables created so far.
///
/// A tape is created fresh for one gradient query or one training batch,
/// grows monotonically while the computation is replayed on it, and is
/// discarded afterwards. It is an arena: variables are plain indices into
/// `nodes`, so one mutable tape and many copyable handles replace the
/// shared-append discipline a reference-counted design would need.
#[derive(Clone, Debug, PartialEq)]
pub struct Tape<T: Real> {
    pub nodes: Vec<Node<T>>,
    pub num_inputs: usize,
}

impl<T: Real> Tape<T> {
    /// The tape's structural invariant: leaves come first and point both
    /// parents at themselves; every derived node's parents lie strictly
    /// below its own index.
    pub open spec fn wf(self) -> bool {
        &&& self.num_inputs <= self.nodes@.len()
        &&& forall|i: int|
            0 <= i < self.num_inputs ==> (#[trigger] self.nodes@[i]).lhs_parent == i
                && self.nodes@[i].rhs_parent == i
        &&& forall|i: int|
            self.num_inputs <= i < self.nodes@.len() ==> (#[trigger] self.nodes@[i]).lhs_parent
                < i && self.nodes@[i].rhs_parent < i
    }

    /// All leaves so far, and nothing else: the tape can still accept a
    /// new leaf without breaking the alignment of `Grad::wrt_inputs`.
    pub open spec fn leaves_only(self) -> bool {
        self.num_inputs == self.nodes@.len()
    }

    /// Creates an empty tape.
    pub fn new() -> (t: Self)
        ensures
            t.wf(),
            t.leaves_only(),
            t.nodes@ == Seq::<Node<T>>::empty(),
            t.num_inputs == 0,
    {
        Tape { nodes: Vec::new(), num_inputs: 0 }
    }

    /// Appends a leaf node (self-referencing parents, zero partials),
    /// increments the leaf counter, and hands back the variable that
    /// tracks `value`. Leaves must be created before any derived node, so
    /// that the first `num_inputs` gradient entries line up with them.
    pub fn new_var(&mut self, value: T) -> (v: Var<T>)
        requires
            old(self).wf(),
            old(self).leaves_only(),
        ensures
            final(self).wf(),
            final(self).leaves_only(),
            final(self).nodes@ == old(self).nodes@.push(
                Node {
                    lhs_partial: T::zero_spec(),
                    rhs_partial: T::zero_spec(),
                    lhs_parent: old(self).nodes@.len() as usize,
                    rhs_parent: old(self).nodes@.len() as usize,
                },
            ),
            final(self).num_inputs == old(self).num_inputs + 1,
            v.index == old(self).nodes@.len(),
            v.val == value,
    {
        let len = self.nodes.len();
        let zero = T::zero();
        self.nodes.push(Node { lhs_partial: zero, rhs_partial: zero, lhs_parent: len, rhs_parent: len });
        self.num_inputs = self.nodes.len();
        Var { index: len, val: value }
    }

    /// Creates one leaf per value, in order.
    pub fn new_vars(&mut self, values: &Vec<T>) -> (vs: Vec<Var<T>>)
        requires
            old(self).wf(),
            old(self).leaves_only(),
        ensures
            final(self).wf(),
            final(self).leaves_only(),
            final(self).num_inputs == old(self).num_inputs + values@.len(),
            final(self).nodes@.len() == old(self).nodes@.len() + values@.len(),
            vs@.len() == values@.len(),
            forall|i: int|
                0 <= i < values@.len() ==> (#[trigger] vs@[i]).index == old(self).nodes@.len() + i
                    && vs@[i].val == values@[i],
    {
        let mut vec: Vec<Var<T>> = Vec::new();
        let n = values.len();
        for i in 0..n
            invariant
                self.wf(),
                self.leaves_only(),
                n == values@.len(),
                self.num_inputs == old(self).num_inputs + i,
                self.nodes@.len() == old(self).nodes@.len() + i,
                vec@.len() == i,
                forall|k: int|
                    0 <= k < i ==> (#[trigger] vec@[k]).index == old(self).nodes@.len() + k
                        && vec@[k].val == values@[k],
        {
            let v = self.new_var(values[i]);
            vec.push(v);
        }
        vec
    }

    /// Appends a node with one real parent: the second parent slot points
    /// back at the operand with a zero partial, so it cannot contribute
    /// during the backward scan.
    pub fn unary_op(&mut self, partial: T, index: usize, new_value: T) -> (v: Var<T>)
        requires
            old(self).wf(),
            index < old(self).nodes@.len(),
        ensures
            final(self).wf(),
            op_appended(
                *old(self),
                *final(self),
                partial,
                T::zero_spec(),
                index as int,
                index as int,
                v,
                new_value,
            ),
    {
        let zero = T::zero();
        self.binary_op(partial, zero, index, index, new_value)
    }

    /// Appends a node with two real parents carrying the analytic local
    /// derivatives of the new value with respect to each operand.
    pub fn binary_op(
        &mut self,
        lhs_partial: T,
        rhs_partial: T,
        lhs_index: usize,
        rhs_index: usize,
        new_value: T,
    ) -> (v: Var<T>)
        requires
            old(self).wf(),
            lhs_index < old(self).nodes@.len(),
            rhs_index < old(self).nodes@.len(),
        ensures
            final(self).wf(),
            op_appended(
                *old(self),
                *final(self),
                lhs_partial,
                rhs_partial,
                lhs_index as int,
                rhs_index as int,
                v,
                new_value,
            ),
    {
        let len = self.nodes.len();
        self.nodes.push(
            Node {
                lhs_partial,
                rhs_partial,
                lhs_parent: lhs_index,
                rhs_parent: rhs_index,
            },
        );
        Var { index: len, val: new_value }
    }
}

/// The tape after a computation grew out of the tape before it: nothing
/// already recorded has changed, and the leaf count is the same.
pub open spec fn extends<T: Real>(pre: Tape<T>, post: Tape<T>) -> bool {
    &&& post.nodes@.len() >= pre.nodes@.len()
    &&& forall|i: int| 0 <= i < pre.nodes@.len() ==> (#[trigger] post.nodes@[i]) == pre.nodes@[i]
    &&& post.num_inputs == pre.num_inputs
}

/// What one recording step does to a tape: exactly one node is appended,
/// holding the given partials and parents; the leaf count is unchanged;
/// and the returned variable points at the new node and carries the given
/// value.
pub open spec fn op_appended<T: Real>(
    pre: Tape<T>,
    post: Tape<T>,
    lhs_partial: T,
    rhs_partial: T,
    lhs_parent: int,
    rhs_parent: int,
    v: Var<T>,
    value: T,
) -> bool {
    &&& post.nodes@ == pre.nodes@.push(
        Node {
            lhs_partial,
            rhs_partial,
            lhs_parent: lhs_parent as usize,
            rhs_parent: rhs_parent as usize,
        },
    )
    &&& post.num_inputs == pre.num_inputs
    &&& v.index == pre.nodes@.len()
    &&& v.val == value
}

} // verus!
