//! What the arithmetic asks of the element type.

use std::ops::{Add, Mul, Neg};
use vstd::prelude::*;
use vstd::std_specs::ops::{AddSpec, MulSpec, NegSpec};

verus! {

// The operators of the element type are those of `std::ops`. What they
// compute is known where the type obeys the specification that vstd gives
// them, and the operands of an operation are duplicates of stored elements.
// The predicates below say that both can be relied on.

/// `clone` on `T` returns a value equal to the one it was given.
pub open spec fn clones_exactly<T: Clone>() -> bool {
    forall|a: T, b: T| #[trigger] cloned(a, b) ==> a == b
}

/// `+` on `T` computes `add_spec`, and duplicates of a `T` are exact.
pub open spec fn lawful_addition<T: Add<T, Output = T> + Clone>() -> bool {
    T::obeys_add_spec() && clones_exactly::<T>()
}

/// Unary `-` on `T` computes `neg_spec`, and duplicates of a `T` are exact.
pub open spec fn lawful_negation<T: Neg<Output = T> + Clone>() -> bool {
    T::obeys_neg_spec() && clones_exactly::<T>()
}

/// `*` on `T` computes `mul_spec`, and duplicates of a `T` are exact.
pub open spec fn lawful_multiplication<T: Mul<T, Output = T> + Clone>() -> bool {
    T::obeys_mul_spec() && clones_exactly::<T>()
}

/// `+` on `T` commutes and is associative.
pub open spec fn addition_is_abelian<T: Add<T, Output = T>>() -> bool {
    &&& forall|x: T, y: T| #[trigger] x.add_spec(y) == y.add_spec(x)
    &&& forall|x: T, y: T, z: T| #[trigger]
        x.add_spec(y).add_spec(z) == x.add_spec(y.add_spec(z))
}

/// `*` on `T` is associative and distributes over `+` from both sides.
pub open spec fn multiplication_distributes<T: Add<T, Output = T> + Mul<T, Output = T>>() -> bool {
    &&& forall|x: T, y: T, z: T| #[trigger]
        x.mul_spec(y).mul_spec(z) == x.mul_spec(y.mul_spec(z))
    &&& forall|x: T, y: T, z: T| #[trigger]
        x.add_spec(y).mul_spec(z) == x.mul_spec(z).add_spec(y.mul_spec(z))
    &&& forall|x: T, y: T, z: T| #[trigger]
        x.mul_spec(y.add_spec(z)) == x.mul_spec(y).add_spec(x.mul_spec(z))
}

} // verus!
