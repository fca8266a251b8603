//! The product of square matrices is associative.

use crate::element::{addition_is_abelian, multiplication_distributes};
use crate::fold_laws::{
    fold_sum, lemma_fold_of_equal_terms, lemma_fold_times_left, lemma_fold_times_right,
    lemma_folds_exchange,
};
use crate::matrix_laws::lemma_combination_length;
use crate::matrix_model::{combination, matrix_product, rectangular, weighted_sum, width};
use std::ops::{Add, Mul};
use vstd::prelude::*;
use vstd::std_specs::ops::{AddSpec, MulSpec};

verus! {

/// `m` has `n` columns of length `n`.
pub open spec fn square<T>(m: Seq<Seq<T>>, n: nat) -> bool {
    m.len() == n && forall|j: int| 0 <= j < n ==> (#[trigger] m[j]).len() == n
}

/// The element at position `k` of the fold of the first `n` columns is the
/// fold of the products of the elements at `k` of these columns with their
/// weights.
pub proof fn lemma_combination_entry<T: Add<T, Output = T> + Mul<T, Output = T>>(
    columns: Seq<Seq<T>>,
    weights: Seq<T>,
    n: nat,
    k: int,
)
    requires
        rectangular(columns),
        0 < n <= columns.len(),
        0 <= k < width(columns),
    ensures
        combination(columns, weights, n).len() == width(columns),
        combination(columns, weights, n)[k] == fold_sum(
            |j: int| columns[j][k].mul_spec(weights[j]),
            n,
        ),
    decreases n,
{
    let term = |j: int| columns[j][k].mul_spec(weights[j]);
    lemma_combination_length(columns, weights, n);
    assert(columns[n - 1].len() == columns[0].len());
    if n > 1 {
        lemma_combination_entry(columns, weights, (n - 1) as nat, k);
        assert(term(n - 1) == columns[n - 1][k].mul_spec(weights[n - 1]));
    } else {
        assert(combination(columns, weights, 0).len() == 0);
        assert(term(0) == columns[0][k].mul_spec(weights[0]));
    }
}

/// The product of two square matrices of one size is a square matrix of
/// that size.
pub proof fn lemma_product_of_squares<T: Add<T, Output = T> + Mul<T, Output = T>>(
    a: Seq<Seq<T>>,
    b: Seq<Seq<T>>,
    n: nat,
)
    requires
        square(a, n),
        square(b, n),
    ensures
        matrix_product(a, b) is Ok,
        square(matrix_product(a, b)->Ok_0, n),
        forall|c: int|
            0 <= c < n ==> (#[trigger] matrix_product(a, b)->Ok_0[c]) == combination(a, b[c], n),
{
    let p = matrix_product(a, b)->Ok_0;
    assert(rectangular(a)) by {
        assert forall|j: int| 0 <= j < a.len() implies (#[trigger] a[j]).len() == a[0].len() by {}
    }
    assert forall|c: int| 0 <= c < n implies (#[trigger] p[c]).len() == n && p[c] == combination(
        a,
        b[c],
        n,
    ) by {
        assert(b[c].len() == n);
        assert(p[c] == weighted_sum(a, b[c]));
        lemma_combination_length(a, b[c], n);
    }
}

/// The product of square matrices of one size is associative, where `+` on
/// the elements commutes and is associative, and `*` is associative and
/// distributes over `+`.
pub proof fn lemma_product_associates<T: Add<T, Output = T> + Mul<T, Output = T>>(
    a: Seq<Seq<T>>,
    b: Seq<Seq<T>>,
    c: Seq<Seq<T>>,
    n: nat,
)
    requires
        square(a, n),
        square(b, n),
        square(c, n),
        addition_is_abelian::<T>(),
        multiplication_distributes::<T>(),
    ensures
        matrix_product(a, b) is Ok,
        matrix_product(b, c) is Ok,
        matrix_product(matrix_product(a, b)->Ok_0, c) is Ok,
        matrix_product(matrix_product(a, b)->Ok_0, c) == matrix_product(
            a,
            matrix_product(b, c)->Ok_0,
        ),
{
    lemma_product_of_squares(a, b, n);
    lemma_product_of_squares(b, c, n);
    let ab = matrix_product(a, b)->Ok_0;
    let bc = matrix_product(b, c)->Ok_0;
    lemma_product_of_squares(ab, c, n);
    lemma_product_of_squares(a, bc, n);
    let left = matrix_product(ab, c)->Ok_0;
    let right = matrix_product(a, bc)->Ok_0;
    assert forall|col: int| 0 <= col < n implies #[trigger] left[col] =~= right[col] by {
        assert forall|k: int| 0 <= k < n implies left[col][k] == right[col][k] by {
            lemma_product_entry_associates(a, b, c, n, col, k);
        }
    }
    assert(left =~= right);
}

/// One element of the two ways to multiply three square matrices: the
/// element at position `k` of the column `col`.
proof fn lemma_product_entry_associates<T: Add<T, Output = T> + Mul<T, Output = T>>(
    a: Seq<Seq<T>>,
    b: Seq<Seq<T>>,
    c: Seq<Seq<T>>,
    n: nat,
    col: int,
    k: int,
)
    requires
        square(a, n),
        square(b, n),
        square(c, n),
        0 <= col < n,
        0 <= k < n,
        addition_is_abelian::<T>(),
        multiplication_distributes::<T>(),
    ensures
        combination(matrix_product(a, b)->Ok_0, c[col], n)[k] == combination(
            a,
            matrix_product(b, c)->Ok_0[col],
            n,
        )[k],
{
    lemma_product_of_squares(a, b, n);
    lemma_product_of_squares(b, c, n);
    let ab = matrix_product(a, b)->Ok_0;
    let bc = matrix_product(b, c)->Ok_0;
    let w = c[col];
    assert(rectangular(a) && width(a) == n) by {
        assert forall|j: int| 0 <= j < a.len() implies (#[trigger] a[j]).len() == a[0].len() by {}
    }
    assert(rectangular(b) && width(b) == n) by {
        assert forall|j: int| 0 <= j < b.len() implies (#[trigger] b[j]).len() == b[0].len() by {}
    }
    assert(rectangular(ab) && width(ab) == n) by {
        assert forall|j: int| 0 <= j < ab.len() implies (#[trigger] ab[j]).len()
            == ab[0].len() by {}
    }

    // The element on the left, as a fold over the columns `j` of `a * b`.
    let left_terms = |j: int| ab[j][k].mul_spec(w[j]);
    lemma_combination_entry(ab, w, n, k);
    assert(combination(ab, w, n)[k] == fold_sum(left_terms, n));

    // Every such term is a fold over `i`, with the factor `w[j]` moved in.
    let h = |i: int, j: int| a[i][k].mul_spec(b[j][i]).mul_spec(w[j]);
    let by_j = |j: int| fold_sum(|i: int| h(i, j), n);
    assert forall|j: int| 0 <= j < n implies #[trigger] left_terms(j) == by_j(j) by {
        let inner = |i: int| a[i][k].mul_spec(b[j][i]);
        lemma_combination_entry(a, b[j], n, k);
        assert(ab[j] == combination(a, b[j], n));
        assert(ab[j][k] == fold_sum(inner, n));
        lemma_fold_times_right(inner, w[j], n);
        let moved = |i: int| inner(i).mul_spec(w[j]);
        let row = |i: int| h(i, j);
        assert forall|i: int| 0 <= i < n implies #[trigger] moved(i) == row(i) by {}
        lemma_fold_of_equal_terms(moved, row, n);
    }
    lemma_fold_of_equal_terms(left_terms, by_j, n);

    // The two folds are exchanged.
    let by_i = |i: int| fold_sum(|j: int| h(i, j), n);
    lemma_folds_exchange(h, n, n);
    assert(fold_sum(by_j, n) == fold_sum(by_i, n));

    // The element on the right, as a fold over the columns `i` of `a`.
    let right_terms = |i: int| a[i][k].mul_spec(bc[col][i]);
    lemma_combination_entry(a, bc[col], n, k);
    assert(combination(a, bc[col], n)[k] == fold_sum(right_terms, n));
    assert forall|i: int| 0 <= i < n implies #[trigger] right_terms(i) == by_i(i) by {
        let inner = |j: int| b[j][i].mul_spec(w[j]);
        lemma_combination_entry(b, w, n, i);
        assert(bc[col] == combination(b, w, n));
        assert(bc[col][i] == fold_sum(inner, n));
        lemma_fold_times_left(a[i][k], inner, n);
        let moved = |j: int| a[i][k].mul_spec(inner(j));
        let row = |j: int| h(i, j);
        assert forall|j: int| 0 <= j < n implies #[trigger] moved(j) == row(j) by {
            assert(a[i][k].mul_spec(b[j][i]).mul_spec(w[j]) == a[i][k].mul_spec(
                b[j][i].mul_spec(w[j]),
            ));
        }
        lemma_fold_of_equal_terms(moved, row, n);
    }
    lemma_fold_of_equal_terms(right_terms, by_i, n);
}

} // verus!
