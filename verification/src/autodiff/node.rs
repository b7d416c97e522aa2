use vstd::prelude::*;

use super::scalar::Real;

verus! {

/// One recorded computation step: the local derivatives of the step's
/// result with respect to its two operands, and the indices of the nodes
/// those operands came from.
///
/// A leaf node points both parents at itself; every other node's parents
/// lie strictly below its own index, which makes a tape acyclic by
/// construction and a single reverse scan a valid traversal order.
#[derive(Clone, Copy, Debug, PartialEq)]
pub struct Node<T: Real> {
    pub lhs_partial: T,
    pub rhs_partial: T,
    pub lhs_parent: usize,
    pub rhs_parent: usize,
}

} // verus!
