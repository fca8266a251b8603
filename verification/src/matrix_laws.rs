//! What holds of the arithmetic of matrices.

use crate::error::LalgrsError;
use crate::matrix::nested_views;
use crate::matrix_model::{
    combination, diagonal, matrix_difference, matrix_negation, matrix_product, matrix_scaled,
    matrix_sum, matrix_times_vector, paired_sums, rectangular, shorter, weighted_sum, width,
};
use crate::vector_model::{scaled_by, sum_of};
use std::ops::{Add, Mul, Neg};
use vstd::prelude::*;
use vstd::std_specs::ops::{AddSpec, MulSpec};

verus! {

/// A matrix that was built from columns of one length reads back, through
/// the number of its columns and their common length, the shape of what it
/// was built from.
pub proof fn lemma_shape_reads_back<T>(columns: Seq<Vec<T>>)
    requires
        rectangular(nested_views(columns)),
    ensures
        nested_views(columns).len() == columns.len(),
        width(nested_views(columns)) == if columns.len() == 0 {
            0
        } else {
            columns[0]@.len()
        },
        forall|j: int|
            0 <= j < columns.len() ==> (#[trigger] columns[j])@.len() == width(
                nested_views(columns),
            ),
{
    assert forall|j: int| 0 <= j < columns.len() implies (#[trigger] columns[j])@.len() == width(
        nested_views(columns),
    ) by {
        assert(nested_views(columns)[j].len() == nested_views(columns)[0].len());
    }
}

/// The matrix without columns is an identity of addition, on either side.
pub proof fn lemma_matrix_without_columns_is_identity<T: Add<T, Output = T>>(a: Seq<Seq<T>>)
    ensures
        matrix_sum(a, Seq::<Seq<T>>::empty()) == Ok::<Seq<Seq<T>>, LalgrsError>(a),
        matrix_sum(Seq::<Seq<T>>::empty(), a) == Ok::<Seq<Seq<T>>, LalgrsError>(a),
{
    if a.len() == 0 {
        assert(a =~= Seq::<Seq<T>>::empty());
    }
}

/// Two matrices that both have columns, of different lengths, can be
/// neither added nor subtracted: the error names the column length of the
/// left operand, then that of the right one.
pub proof fn lemma_unequal_widths_are_refused<T: Add<T, Output = T> + Neg<Output = T>>(
    a: Seq<Seq<T>>,
    b: Seq<Seq<T>>,
)
    requires
        a.len() != 0,
        b.len() != 0,
        width(a) != width(b),
    ensures
        matrix_sum(a, b) == Err::<Seq<Seq<T>>, LalgrsError>(
            LalgrsError::MismatchedMatrixDimensions {
                first_matrix_columns: width(a) as usize,
                second_matrix_rows: width(b) as usize,
            },
        ),
        matrix_difference(a, b) == Err::<Seq<Seq<T>>, LalgrsError>(
            LalgrsError::MismatchedMatrixDimensions {
                first_matrix_columns: width(a) as usize,
                second_matrix_rows: width(b) as usize,
            },
        ),
{
}

/// Matrices with as many columns as each other, but of different lengths,
/// can be neither added nor subtracted.
pub proof fn lemma_equal_counts_unequal_widths<T: Add<T, Output = T> + Neg<Output = T>>(
    a: Seq<Seq<T>>,
    b: Seq<Seq<T>>,
)
    requires
        a.len() == b.len(),
        width(a) != width(b),
    ensures
        matrix_sum(a, b) is Err,
        matrix_sum(a, b)->Err_0 is MismatchedMatrixDimensions,
        matrix_difference(a, b) is Err,
        matrix_difference(a, b)->Err_0 is MismatchedMatrixDimensions,
{
    lemma_unequal_widths_are_refused(a, b);
}

/// Negation, scaling and addition give rectangular matrices from
/// rectangular ones, and negation and scaling keep the shape.
pub proof fn lemma_shapes_are_kept<
    T: Add<T, Output = T> + Neg<Output = T> + Mul<T, Output = T>,
>(a: Seq<Seq<T>>, b: Seq<Seq<T>>, s: T)
    requires
        rectangular(a),
        rectangular(b),
    ensures
        rectangular(matrix_negation(a)),
        matrix_negation(a).len() == a.len(),
        width(matrix_negation(a)) == width(a),
        rectangular(matrix_scaled(a, s)),
        matrix_scaled(a, s).len() == a.len(),
        width(matrix_scaled(a, s)) == width(a),
        matrix_sum(a, b) is Ok ==> rectangular(matrix_sum(a, b)->Ok_0),
{
    assert forall|j: int| 0 <= j < a.len() implies (#[trigger] matrix_negation(a)[j]).len()
        == matrix_negation(a)[0].len() by {
        assert(a[j].len() == a[0].len());
    }
    assert forall|j: int| 0 <= j < a.len() implies (#[trigger] matrix_scaled(a, s)[j]).len()
        == matrix_scaled(a, s)[0].len() by {
        assert(a[j].len() == a[0].len());
    }
    if a.len() != 0 && b.len() != 0 && width(a) == width(b) {
        assert forall|j: int| 0 <= j < paired_sums(a, b).len() implies (#[trigger] paired_sums(
            a,
            b,
        )[j]).len() == paired_sums(a, b)[0].len() by {
            assert(a[j].len() == a[0].len());
            assert(b[j].len() == b[0].len());
        }
    }
}

/// The fold of the first `n` columns of a rectangular matrix is empty for
/// `n == 0` and otherwise as long as the columns are.
pub proof fn lemma_combination_length<T: Add<T, Output = T> + Mul<T, Output = T>>(
    columns: Seq<Seq<T>>,
    weights: Seq<T>,
    n: nat,
)
    requires
        rectangular(columns),
        n <= columns.len(),
    ensures
        combination(columns, weights, n).len() == if n == 0 {
            0
        } else {
            width(columns)
        },
    decreases n,
{
    if n > 0 {
        lemma_combination_length(columns, weights, (n - 1) as nat);
        assert(columns[n - 1].len() == columns[0].len());
    }
}

/// The product of two matrices whose shapes agree has one column for each
/// column of the right operand, and is rectangular where the operands are.
pub proof fn lemma_product_shape<T: Add<T, Output = T> + Mul<T, Output = T>>(
    a: Seq<Seq<T>>,
    b: Seq<Seq<T>>,
)
    requires
        rectangular(a),
        rectangular(b),
        width(a) == b.len(),
    ensures
        matrix_product(a, b) is Ok,
        matrix_product(a, b)->Ok_0.len() == b.len(),
        rectangular(matrix_product(a, b)->Ok_0),
{
    let p = matrix_product(a, b)->Ok_0;
    assert forall|c: int| 0 <= c < p.len() implies (#[trigger] p[c]).len() == p[0].len() by {
        assert(b[c].len() == b[0].len());
        lemma_combination_length(a, b[c], shorter(a.len(), b[c].len()));
        lemma_combination_length(a, b[0], shorter(a.len(), b[0].len()));
    }
}

/// A matrix without columns maps the empty vector to the empty vector and
/// refuses every other vector.
pub proof fn lemma_no_columns_times_vector<T: Add<T, Output = T> + Mul<T, Output = T>>(v: Seq<T>)
    ensures
        v.len() == 0 ==> matrix_times_vector(Seq::<Seq<T>>::empty(), v) == Ok::<
            Seq<T>,
            LalgrsError,
        >(Seq::<T>::empty()),
        v.len() != 0 ==> matrix_times_vector(Seq::<Seq<T>>::empty(), v) == Err::<
            Seq<T>,
            LalgrsError,
        >(
            LalgrsError::MismatchedVectorAndMatrixDimensions {
                vector_size: v.len() as usize,
                matrix_columns: 0,
            },
        ),
{
}

/// What the fold over the first `n` columns of a diagonal matrix holds: the
/// first `n` weights, then `zero`.
proof fn lemma_diagonal_fold<T: Add<T, Output = T> + Mul<T, Output = T>>(
    v: Seq<T>,
    zero: T,
    one: T,
    n: nat,
)
    requires
        0 < n <= v.len(),
        zero.add_spec(zero) == zero,
        forall|i: int|
            0 <= i < v.len() ==> {
                &&& one.mul_spec(#[trigger] v[i]) == v[i]
                &&& zero.mul_spec(v[i]) == zero
                &&& zero.add_spec(v[i]) == v[i]
                &&& v[i].add_spec(zero) == v[i]
            },
    ensures
        combination(diagonal(v.len(), zero, one), v, n) == Seq::new(
            v.len(),
            |k: int|
                if k < n {
                    v[k]
                } else {
                    zero
                },
        ),
    decreases n,
{
    let d = diagonal(v.len(), zero, one);
    let column = scaled_by(d[n - 1], v[n - 1]);
    let folded = Seq::new(
        v.len(),
        |k: int|
            if k < n {
                v[k]
            } else {
                zero
            },
    );
    assert forall|k: int| 0 <= k < v.len() implies #[trigger] column[k] == if k == n - 1 {
        v[n - 1]
    } else {
        zero
    } by {
        assert(d[n - 1][k] == if k == n - 1 {
            one
        } else {
            zero
        });
    }
    if n == 1 {
        assert(combination(d, v, 0) =~= Seq::<T>::empty());
        assert(combination(d, v, 1) == sum_of(combination(d, v, 0), column));
        assert(column =~= folded);
    } else {
        lemma_diagonal_fold(v, zero, one, (n - 1) as nat);
        let before = combination(d, v, (n - 1) as nat);
        assert(combination(d, v, n) == sum_of(before, column));
        assert forall|k: int| 0 <= k < v.len() implies #[trigger] sum_of(before, column)[k]
            == folded[k] by {
            assert(before[k] == if k < n - 1 {
                v[k]
            } else {
                zero
            });
            assert(sum_of(before, column)[k] == before[k].add_spec(column[k]));
        }
        assert(sum_of(before, column) =~= folded);
    }
}

/// A diagonal matrix of ones leaves every vector of its size unchanged,
/// where `one` and `zero` act on the elements of the vector as a unit of
/// multiplication and a unit of addition.
pub proof fn lemma_diagonal_times_vector<T: Add<T, Output = T> + Mul<T, Output = T>>(
    v: Seq<T>,
    zero: T,
    one: T,
)
    requires
        zero.add_spec(zero) == zero,
        forall|i: int|
            0 <= i < v.len() ==> {
                &&& one.mul_spec(#[trigger] v[i]) == v[i]
                &&& zero.mul_spec(v[i]) == zero
                &&& zero.add_spec(v[i]) == v[i]
                &&& v[i].add_spec(zero) == v[i]
            },
    ensures
        matrix_times_vector(diagonal(v.len(), zero, one), v) == Ok::<Seq<T>, LalgrsError>(v),
{
    let d = diagonal(v.len(), zero, one);
    if v.len() == 0 {
        assert(weighted_sum(d, v) =~= v);
    } else {
        lemma_diagonal_fold(v, zero, one, v.len());
        assert(weighted_sum(d, v) =~= v);
    }
}

} // verus!
