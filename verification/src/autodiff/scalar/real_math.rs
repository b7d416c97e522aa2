use vstd::prelude::*;

use super::operations::{BinaryOperations, UnaryOperations};

verus! {

/// The arithmetic core of a scalar: negation and the four ring operations
/// plus remainder, together with the elementary function sets.
///
/// As in `UnaryOperations`, each exec method is paired with the spec
/// function that names its result, so one body of tracked arithmetic can
/// state exactly which value it computed without fixing a concrete number
/// type.
pub trait RealMath: Sized + Copy + UnaryOperations + BinaryOperations {
    spec fn neg_spec(self) -> Self;

    spec fn add_spec(self, rhs: Self) -> Self;

    spec fn sub_spec(self, rhs: Self) -> Self;

    spec fn mul_spec(self, rhs: Self) -> Self;

    spec fn div_spec(self, rhs: Self) -> Self;

    spec fn rem_spec(self, rhs: Self) -> Self;

    fn neg(self) -> (r: Self)
        ensures
            r == self.neg_spec(),
    ;

    fn add(self, rhs: Self) -> (r: Self)
        ensures
            r == self.add_spec(rhs),
    ;

    fn sub(self, rhs: Self) -> (r: Self)
        ensures
            r == self.sub_spec(rhs),
    ;

    fn mul(self, rhs: Self) -> (r: Self)
        ensures
            r == self.mul_spec(rhs),
    ;

    fn div(self, rhs: Self) -> (r: Self)
        ensures
            r == self.div_spec(rhs),
    ;

    fn rem(self, rhs: Self) -> (r: Self)
        ensures
            r == self.rem_spec(rhs),
    ;
}

} // verus!
