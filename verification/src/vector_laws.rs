//! What holds of the arithmetic of vectors.

use crate::error::LalgrsError;
use crate::vector_model::{
    compatible, negation_of, scaled_by, sum_of, vector_difference, vector_sum,
};
use std::ops::{Add, Mul, Neg};
use vstd::prelude::*;
use vstd::std_specs::ops::{AddSpec, NegSpec};

verus! {

/// The empty vector is an identity of addition, on either side.
pub proof fn lemma_empty_is_identity<T: Add<T, Output = T>>(v: Seq<T>)
    ensures
        vector_sum(v, Seq::<T>::empty()) == Ok::<Seq<T>, LalgrsError>(v),
        vector_sum(Seq::<T>::empty(), v) == Ok::<Seq<T>, LalgrsError>(v),
        vector_sum(Seq::<T>::empty(), Seq::<T>::empty()) == Ok::<Seq<T>, LalgrsError>(
            Seq::<T>::empty(),
        ),
{
    if v.len() == 0 {
        assert(v =~= Seq::<T>::empty());
    }
}

/// The sum of two equally long vectors is as long as they are and holds, at
/// every position, the sum of their elements at that position.
pub proof fn lemma_sum_is_elementwise<T: Add<T, Output = T>>(a: Seq<T>, b: Seq<T>)
    requires
        a.len() == b.len(),
    ensures
        vector_sum(a, b) is Ok,
        vector_sum(a, b)->Ok_0.len() == a.len(),
        forall|i: int|
            0 <= i < a.len() ==> (#[trigger] vector_sum(a, b)->Ok_0[i]) == a[i].add_spec(b[i]),
{
}

/// Two non-empty vectors of different lengths cannot be added: the error
/// names the length of the left operand, then that of the right one.
pub proof fn lemma_unequal_lengths_are_refused<T: Add<T, Output = T>>(a: Seq<T>, b: Seq<T>)
    requires
        a.len() != 0,
        b.len() != 0,
        a.len() != b.len(),
    ensures
        vector_sum(a, b) == Err::<Seq<T>, LalgrsError>(
            LalgrsError::MismatchedVectorDimensions {
                vector1: a.len() as usize,
                vector2: b.len() as usize,
            },
        ),
{
}

/// Addition of vectors commutes where the addition of their paired elements
/// does: both orders succeed or both fail, and where they succeed they give
/// the same vector.
pub proof fn lemma_sum_commutes<T: Add<T, Output = T>>(a: Seq<T>, b: Seq<T>)
    requires
        a.len() == b.len() ==> forall|i: int|
            0 <= i < a.len() ==> (#[trigger] a[i]).add_spec(b[i]) == b[i].add_spec(a[i]),
    ensures
        vector_sum(a, b) is Ok <==> vector_sum(b, a) is Ok,
        compatible(a, b) ==> vector_sum(a, b) == vector_sum(b, a),
{
    if compatible(a, b) {
        assert(sum_of(a, b) =~= sum_of(b, a));
    }
}

/// Addition of vectors is associative where the addition of their elements
/// is: for three vectors that can be added pairwise, it does not matter
/// which two are added first.
pub proof fn lemma_sum_associates<T: Add<T, Output = T>>(a: Seq<T>, b: Seq<T>, c: Seq<T>)
    requires
        compatible(a, b),
        compatible(b, c),
        compatible(a, c),
        a.len() == b.len() && b.len() == c.len() ==> forall|i: int|
            0 <= i < a.len() ==> (#[trigger] a[i]).add_spec(b[i]).add_spec(c[i]) == a[i].add_spec(
                b[i].add_spec(c[i]),
            ),
    ensures
        vector_sum(sum_of(a, b), c) is Ok,
        vector_sum(sum_of(a, b), c) == vector_sum(a, sum_of(b, c)),
{
    assert(sum_of(sum_of(a, b), c) =~= sum_of(a, sum_of(b, c)));
}

/// Negating a vector twice gives the vector back, where negating each of
/// its elements twice does.
pub proof fn lemma_negation_is_an_involution<T: Neg<Output = T>>(v: Seq<T>)
    requires
        forall|i: int| 0 <= i < v.len() ==> (#[trigger] v[i]).neg_spec().neg_spec() == v[i],
    ensures
        negation_of(negation_of(v)) == v,
{
    assert(negation_of(negation_of(v)) =~= v);
}

/// Subtracting the empty vector changes nothing, and subtracting a vector
/// from the empty vector negates it.
pub proof fn lemma_difference_with_empty<T: Add<T, Output = T> + Neg<Output = T>>(v: Seq<T>)
    ensures
        vector_difference(v, Seq::<T>::empty()) == Ok::<Seq<T>, LalgrsError>(v),
        vector_difference(Seq::<T>::empty(), v) == Ok::<Seq<T>, LalgrsError>(negation_of(v)),
{
    assert(negation_of(Seq::<T>::empty()) =~= Seq::<T>::empty());
    if v.len() == 0 {
        assert(v =~= Seq::<T>::empty());
        assert(negation_of(v) =~= v);
    }
}

/// Subtraction refuses what addition refuses: two non-empty vectors of
/// different lengths.
pub proof fn lemma_difference_of_unequal_lengths<T: Add<T, Output = T> + Neg<Output = T>>(
    a: Seq<T>,
    b: Seq<T>,
)
    requires
        a.len() != 0,
        b.len() != 0,
        a.len() != b.len(),
    ensures
        vector_difference(a, b) == Err::<Seq<T>, LalgrsError>(
            LalgrsError::MismatchedVectorDimensions {
                vector1: a.len() as usize,
                vector2: b.len() as usize,
            },
        ),
{
}

/// Negation and scaling keep the length of a vector: the empty vector
/// negates and scales to the empty vector.
pub proof fn lemma_lengths_are_kept<T: Neg<Output = T> + Mul<T, Output = T>>(v: Seq<T>, s: T)
    ensures
        negation_of(v).len() == v.len(),
        scaled_by(v, s).len() == v.len(),
        negation_of(Seq::<T>::empty()) == Seq::<T>::empty(),
        scaled_by(Seq::<T>::empty(), s) == Seq::<T>::empty(),
{
}

} // verus!
