//! The arithmetic of vectors, stated over sequences of elements.

use crate::element::{lawful_addition, lawful_multiplication, lawful_negation};
use crate::error::LalgrsError;
use std::ops::{Add, Mul, Neg};
use vstd::prelude::*;
use vstd::std_specs::ops::{AddSpec, MulSpec, NegSpec};

verus! {

/// Two vectors can be added: one of them is empty, or they are equally long.
pub open spec fn compatible<T>(a: Seq<T>, b: Seq<T>) -> bool {
    a.len() == 0 || b.len() == 0 || a.len() == b.len()
}

/// The sums of the elements of `a` and `b` at equal positions, for as many
/// positions as `a` has.
pub open spec fn elementwise_sum<T: Add<T, Output = T>>(a: Seq<T>, b: Seq<T>) -> Seq<T> {
    Seq::new(a.len(), |i: int| a[i].add_spec(b[i]))
}

/// The sum of two compatible vectors. An empty vector is an identity: the sum
/// is then the other operand.
pub open spec fn sum_of<T: Add<T, Output = T>>(a: Seq<T>, b: Seq<T>) -> Seq<T> {
    if a.len() == 0 {
        b
    } else if b.len() == 0 {
        a
    } else {
        elementwise_sum(a, b)
    }
}

/// What adding `b` to `a` yields: their sum where they are compatible, and
/// otherwise the error that names both lengths.
pub open spec fn vector_sum<T: Add<T, Output = T>>(a: Seq<T>, b: Seq<T>) -> Result<
    Seq<T>,
    LalgrsError,
> {
    if compatible(a, b) {
        Ok(sum_of(a, b))
    } else {
        Err(
            LalgrsError::MismatchedVectorDimensions {
                vector1: a.len() as usize,
                vector2: b.len() as usize,
            },
        )
    }
}

/// The negations of the elements of `a`, in order.
pub open spec fn negation_of<T: Neg<Output = T>>(a: Seq<T>) -> Seq<T> {
    Seq::new(a.len(), |i: int| a[i].neg_spec())
}

/// What subtracting `b` from `a` yields: the sum of `a` and the negation of
/// `b`.
pub open spec fn vector_difference<T: Add<T, Output = T> + Neg<Output = T>>(
    a: Seq<T>,
    b: Seq<T>,
) -> Result<Seq<T>, LalgrsError> {
    vector_sum(a, negation_of(b))
}

/// The elements of `a`, each multiplied on the right by `s`.
pub open spec fn scaled_by<T: Mul<T, Output = T>>(a: Seq<T>, s: T) -> Seq<T> {
    Seq::new(a.len(), |i: int| a[i].mul_spec(s))
}

/// Adding `b` to `a` stays within the element type: where elements are
/// added at all, `+` is lawful and accepts every pair of them.
pub open spec fn sum_defined<T: Add<T, Output = T> + Clone>(a: Seq<T>, b: Seq<T>) -> bool {
    a.len() > 0 && a.len() == b.len() ==> lawful_addition::<T>() && forall|i: int|
        0 <= i < a.len() ==> (#[trigger] a[i]).add_req(b[i])
}

/// Negating `a` stays within the element type.
pub open spec fn negation_defined<T: Neg<Output = T> + Clone>(a: Seq<T>) -> bool {
    a.len() > 0 ==> lawful_negation::<T>() && forall|i: int|
        0 <= i < a.len() ==> (#[trigger] a[i]).neg_req()
}

/// Subtracting `b` from `a` stays within the element type.
pub open spec fn difference_defined<T: Add<T, Output = T> + Neg<Output = T> + Clone>(
    a: Seq<T>,
    b: Seq<T>,
) -> bool {
    negation_defined(b) && sum_defined(a, negation_of(b))
}

/// Multiplying every element of `a` by `s` stays within the element type.
pub open spec fn scaling_defined<T: Mul<T, Output = T> + Clone>(a: Seq<T>, s: T) -> bool {
    a.len() > 0 ==> lawful_multiplication::<T>() && forall|i: int|
        0 <= i < a.len() ==> (#[trigger] a[i]).mul_req(s)
}

} // verus!
