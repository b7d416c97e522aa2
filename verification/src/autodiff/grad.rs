use vstd::prelude::*;

use super::scalar::Real;
use super::var::Var;

verus! {

/// The dense derivative vector produced by one backward traversal:
/// `partials[i]` is the derivative of the traversed output with respect
/// to node `i`, and the first `num_inputs` entries correspond, in
/// creation order, to the leaves created via `Tape::new_var`.
#[derive(Clone, Debug, PartialEq)]
pub struct Grad<T: Real> {
    pub partials: Vec<T>,
    pub num_inputs: usize,
}

impl<T: Real> Grad<T> {
    /// The leaf entries fit inside the vector.
    pub open spec fn wf(self) -> bool {
        self.num_inputs <= self.partials@.len()
    }

    /// The derivative with respect to the node `var` points at.
    pub fn wrt(&self, var: Var<T>) -> (r: T)
        requires
            var.index < self.partials@.len(),
        ensures
            r == self.partials@[var.index as int],
    {
        self.partials[var.index]
    }

    /// The whole derivative vector, one entry per tape node.
    pub fn full(&self) -> (r: &Vec<T>)
        ensures
            r == &self.partials,
    {
        &self.partials
    }

    /// The derivatives with respect to the leaves alone, in the order the
    /// leaves were created.
    pub fn wrt_inputs(&self) -> (r: &[T])
        requires
            self.wf(),
        ensures
            r@ == self.partials@.subrange(0, self.num_inputs as int),
            r@.len() == self.num_inputs,
    {
        vstd::slice::slice_subrange(self.partials.as_slice(), 0, self.num_inputs)
    }
}

} // verus!
