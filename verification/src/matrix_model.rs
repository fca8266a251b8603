//! The arithmetic of matrices, stated over sequences of columns.

use crate::error::LalgrsError;
use crate::vector_model::{
    negation_defined, negation_of, scaled_by, scaling_defined, sum_defined, sum_of,
};
use std::ops::{Add, Mul, Neg};
use vstd::prelude::*;

verus! {

/// A matrix is modelled by the sequence of its columns, each the sequence of
/// its elements. It is rectangular when every column is as long as the first.
pub open spec fn rectangular<T>(m: Seq<Seq<T>>) -> bool {
    forall|j: int| 0 <= j < m.len() ==> (#[trigger] m[j]).len() == m[0].len()
}

/// The common length of the columns; 0 for the matrix without columns.
pub open spec fn width<T>(m: Seq<Seq<T>>) -> nat {
    if m.len() == 0 {
        0
    } else {
        m[0].len()
    }
}

/// The smaller of two lengths: how many pairs two sequences form when they
/// are walked together.
pub open spec fn shorter(a: nat, b: nat) -> nat {
    if a <= b {
        a
    } else {
        b
    }
}

/// The square matrix of `n` columns that holds `one` on its diagonal and
/// `zero` elsewhere.
pub open spec fn diagonal<T>(n: nat, zero: T, one: T) -> Seq<Seq<T>> {
    Seq::new(
        n,
        |j: int|
            Seq::new(
                n,
                |k: int|
                    if j == k {
                        one
                    } else {
                        zero
                    },
            ),
    )
}

/// The matrix of the negated columns of `a`.
pub open spec fn matrix_negation<T: Neg<Output = T>>(a: Seq<Seq<T>>) -> Seq<Seq<T>> {
    Seq::new(a.len(), |j: int| negation_of(a[j]))
}

/// The matrix of the columns of `a`, each scaled by `s`.
pub open spec fn matrix_scaled<T: Mul<T, Output = T>>(a: Seq<Seq<T>>, s: T) -> Seq<Seq<T>> {
    Seq::new(a.len(), |j: int| scaled_by(a[j], s))
}

/// The sums of the columns of `a` and `b` at equal positions, for as many
/// positions as both have.
pub open spec fn paired_sums<T: Add<T, Output = T>>(a: Seq<Seq<T>>, b: Seq<Seq<T>>) -> Seq<
    Seq<T>,
> {
    Seq::new(shorter(a.len(), b.len()), |j: int| sum_of(a[j], b[j]))
}

/// What adding `b` to `a` yields. A matrix without columns is an identity.
/// Two matrices with columns must agree in the length of their columns,
/// else the error names both lengths.
pub open spec fn matrix_sum<T: Add<T, Output = T>>(a: Seq<Seq<T>>, b: Seq<Seq<T>>) -> Result<
    Seq<Seq<T>>,
    LalgrsError,
> {
    if a.len() == 0 {
        Ok(b)
    } else if b.len() == 0 {
        Ok(a)
    } else if width(a) != width(b) {
        Err(
            LalgrsError::MismatchedMatrixDimensions {
                first_matrix_columns: width(a) as usize,
                second_matrix_rows: width(b) as usize,
            },
        )
    } else {
        Ok(paired_sums(a, b))
    }
}

/// What subtracting `b` from `a` yields: the sum of `a` and the negation of
/// `b`.
pub open spec fn matrix_difference<T: Add<T, Output = T> + Neg<Output = T>>(
    a: Seq<Seq<T>>,
    b: Seq<Seq<T>>,
) -> Result<Seq<Seq<T>>, LalgrsError> {
    matrix_sum(a, matrix_negation(b))
}

/// The left fold, by vector addition, of the first `n` columns, each scaled
/// by the weight at its position. The fold of no column is the empty
/// vector.
pub open spec fn combination<T: Add<T, Output = T> + Mul<T, Output = T>>(
    columns: Seq<Seq<T>>,
    weights: Seq<T>,
    n: nat,
) -> Seq<T>
    decreases n,
{
    if n == 0 {
        Seq::empty()
    } else {
        sum_of(
            combination(columns, weights, (n - 1) as nat),
            scaled_by(columns[n - 1], weights[n - 1]),
        )
    }
}

/// The combination of all the pairs that `columns` and `weights` form.
pub open spec fn weighted_sum<T: Add<T, Output = T> + Mul<T, Output = T>>(
    columns: Seq<Seq<T>>,
    weights: Seq<T>,
) -> Seq<T> {
    combination(columns, weights, shorter(columns.len(), weights.len()))
}

/// What multiplying the matrix `m` by the vector `v` yields. The length of
/// the columns of `m` must equal the length of `v`, else the error names
/// both.
pub open spec fn matrix_times_vector<T: Add<T, Output = T> + Mul<T, Output = T>>(
    m: Seq<Seq<T>>,
    v: Seq<T>,
) -> Result<Seq<T>, LalgrsError> {
    if width(m) != v.len() {
        Err(
            LalgrsError::MismatchedVectorAndMatrixDimensions {
                vector_size: v.len() as usize,
                matrix_columns: width(m) as usize,
            },
        )
    } else {
        Ok(weighted_sum(m, v))
    }
}

/// What multiplying the matrix `a` by the matrix `b` yields: one column for
/// each column of `b`, the columns of `a` weighted by its elements. The
/// length of the columns of `a` must equal the number of columns of `b`,
/// else the error names both.
pub open spec fn matrix_product<T: Add<T, Output = T> + Mul<T, Output = T>>(
    a: Seq<Seq<T>>,
    b: Seq<Seq<T>>,
) -> Result<Seq<Seq<T>>, LalgrsError> {
    if width(a) != b.len() {
        Err(
            LalgrsError::MismatchedMatrixDimensions {
                first_matrix_columns: width(a) as usize,
                second_matrix_rows: b.len() as usize,
            },
        )
    } else {
        Ok(Seq::new(b.len(), |c: int| weighted_sum(a, b[c])))
    }
}

/// Negating `a` stays within the element type.
pub open spec fn matrix_negation_defined<T: Neg<Output = T> + Clone>(a: Seq<Seq<T>>) -> bool {
    forall|j: int| 0 <= j < a.len() ==> negation_defined(#[trigger] a[j])
}

/// Scaling `a` by `s` stays within the element type.
pub open spec fn matrix_scaling_defined<T: Mul<T, Output = T> + Clone>(
    a: Seq<Seq<T>>,
    s: T,
) -> bool {
    forall|j: int| 0 <= j < a.len() ==> scaling_defined(#[trigger] a[j], s)
}

/// Adding `b` to `a` stays within the element type, where columns are added
/// at all.
pub open spec fn matrix_sum_defined<T: Add<T, Output = T> + Clone>(
    a: Seq<Seq<T>>,
    b: Seq<Seq<T>>,
) -> bool {
    a.len() > 0 && b.len() > 0 && width(a) == width(b) ==> forall|j: int|
        0 <= j < shorter(a.len(), b.len()) ==> sum_defined(#[trigger] a[j], b[j])
}

/// Subtracting `b` from `a` stays within the element type.
pub open spec fn matrix_difference_defined<T: Add<T, Output = T> + Neg<Output = T> + Clone>(
    a: Seq<Seq<T>>,
    b: Seq<Seq<T>>,
) -> bool {
    matrix_negation_defined(b) && matrix_sum_defined(a, matrix_negation(b))
}

/// Every step of the fold over the first `n` pairs stays within the element
/// type: scaling the column, and adding it to what was folded before.
///
/// For given columns and weights, `reveal_with_fuel` on this function and on
/// `combination` unfolds the steps.
pub open spec fn combination_defined<T: Add<T, Output = T> + Mul<T, Output = T> + Clone>(
    columns: Seq<Seq<T>>,
    weights: Seq<T>,
    n: nat,
) -> bool
    decreases n,
{
    n == 0 || {
        &&& combination_defined(columns, weights, (n - 1) as nat)
        &&& scaling_defined(columns[n - 1], weights[n - 1])
        &&& sum_defined(
            combination(columns, weights, (n - 1) as nat),
            scaled_by(columns[n - 1], weights[n - 1]),
        )
    }
}

/// A fold that is defined over `n` pairs is defined at each of its steps.
pub proof fn lemma_combination_defined_at<T: Add<T, Output = T> + Mul<T, Output = T> + Clone>(
    columns: Seq<Seq<T>>,
    weights: Seq<T>,
    n: nat,
    j: nat,
)
    requires
        combination_defined(columns, weights, n),
        j < n,
    ensures
        scaling_defined(columns[j as int], weights[j as int]),
        sum_defined(
            combination(columns, weights, j),
            scaled_by(columns[j as int], weights[j as int]),
        ),
    decreases n,
{
    if j + 1 < n {
        lemma_combination_defined_at(columns, weights, (n - 1) as nat, j);
    }
}

/// The fold over all the pairs of `columns` and `weights` stays within the
/// element type.
pub open spec fn weighted_sum_defined<T: Add<T, Output = T> + Mul<T, Output = T> + Clone>(
    columns: Seq<Seq<T>>,
    weights: Seq<T>,
) -> bool {
    combination_defined(columns, weights, shorter(columns.len(), weights.len()))
}

/// Multiplying `m` by `v` stays within the element type, where the shapes
/// agree.
pub open spec fn matrix_times_vector_defined<
    T: Add<T, Output = T> + Mul<T, Output = T> + Clone,
>(m: Seq<Seq<T>>, v: Seq<T>) -> bool {
    width(m) == v.len() ==> weighted_sum_defined(m, v)
}

/// Multiplying `a` by `b` stays within the element type, where the shapes
/// agree.
pub open spec fn matrix_product_defined<T: Add<T, Output = T> + Mul<T, Output = T> + Clone>(
    a: Seq<Seq<T>>,
    b: Seq<Seq<T>>,
) -> bool {
    width(a) == b.len() ==> forall|c: int|
        0 <= c < b.len() ==> weighted_sum_defined(a, #[trigger] b[c])
}

} // verus!
