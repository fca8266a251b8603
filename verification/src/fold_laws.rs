//! Left folds of elements by `+`, and how factors and other folds move
//! through them.

use crate::element::{addition_is_abelian, multiplication_distributes};
use std::ops::{Add, Mul};
use vstd::prelude::*;
use vstd::std_specs::ops::{AddSpec, MulSpec};

verus! {

/// The left fold, by `+`, of the terms `f(0)`, .., `f(n - 1)`. A fold has at
/// least one term: for `n <= 1` it is `f(0)`.
pub open spec fn fold_sum<T: Add<T, Output = T>>(f: spec_fn(int) -> T, n: nat) -> T
    decreases n,
{
    if n <= 1 {
        f(0)
    } else {
        fold_sum(f, (n - 1) as nat).add_spec(f(n - 1))
    }
}

/// Folds of terms that agree one by one agree.
pub proof fn lemma_fold_of_equal_terms<T: Add<T, Output = T>>(
    f: spec_fn(int) -> T,
    g: spec_fn(int) -> T,
    n: nat,
)
    requires
        n > 0,
        forall|i: int| 0 <= i < n ==> #[trigger] f(i) == g(i),
    ensures
        fold_sum(f, n) == fold_sum(g, n),
    decreases n,
{
    if n > 1 {
        lemma_fold_of_equal_terms(f, g, (n - 1) as nat);
        assert(f(n - 1) == g(n - 1));
    } else {
        assert(f(0) == g(0));
    }
}

/// A factor on the right of a fold can be moved onto every term.
pub proof fn lemma_fold_times_right<T: Add<T, Output = T> + Mul<T, Output = T>>(
    f: spec_fn(int) -> T,
    z: T,
    n: nat,
)
    requires
        n > 0,
        multiplication_distributes::<T>(),
    ensures
        fold_sum(f, n).mul_spec(z) == fold_sum(|i: int| f(i).mul_spec(z), n),
    decreases n,
{
    let g = |i: int| f(i).mul_spec(z);
    if n > 1 {
        lemma_fold_times_right(f, z, (n - 1) as nat);
        let head = fold_sum(f, (n - 1) as nat);
        assert(head.add_spec(f(n - 1)).mul_spec(z) == head.mul_spec(z).add_spec(
            f(n - 1).mul_spec(z),
        ));
        assert(g(n - 1) == f(n - 1).mul_spec(z));
    } else {
        assert(g(0) == f(0).mul_spec(z));
    }
}

/// A factor on the left of a fold can be moved onto every term.
pub proof fn lemma_fold_times_left<T: Add<T, Output = T> + Mul<T, Output = T>>(
    x: T,
    f: spec_fn(int) -> T,
    n: nat,
)
    requires
        n > 0,
        multiplication_distributes::<T>(),
    ensures
        x.mul_spec(fold_sum(f, n)) == fold_sum(|i: int| x.mul_spec(f(i)), n),
    decreases n,
{
    let g = |i: int| x.mul_spec(f(i));
    if n > 1 {
        lemma_fold_times_left(x, f, (n - 1) as nat);
        let head = fold_sum(f, (n - 1) as nat);
        assert(x.mul_spec(head.add_spec(f(n - 1))) == x.mul_spec(head).add_spec(
            x.mul_spec(f(n - 1)),
        ));
        assert(g(n - 1) == x.mul_spec(f(n - 1)));
    } else {
        assert(g(0) == x.mul_spec(f(0)));
    }
}

/// The fold of sums of two terms is the sum of the folds of either term.
pub proof fn lemma_fold_of_sums<T: Add<T, Output = T>>(
    f: spec_fn(int) -> T,
    g: spec_fn(int) -> T,
    n: nat,
)
    requires
        n > 0,
        addition_is_abelian::<T>(),
    ensures
        fold_sum(|i: int| f(i).add_spec(g(i)), n) == fold_sum(f, n).add_spec(fold_sum(g, n)),
    decreases n,
{
    let s = |i: int| f(i).add_spec(g(i));
    if n > 1 {
        lemma_fold_of_sums(f, g, (n - 1) as nat);
        let a = fold_sum(f, (n - 1) as nat);
        let b = fold_sum(g, (n - 1) as nat);
        let x = f(n - 1);
        let y = g(n - 1);
        assert(s(n - 1) == x.add_spec(y));
        // (a + b) + (x + y) == (a + x) + (b + y)
        assert(a.add_spec(b).add_spec(x.add_spec(y)) == a.add_spec(b.add_spec(x.add_spec(y))));
        assert(b.add_spec(x.add_spec(y)) == b.add_spec(x).add_spec(y));
        assert(b.add_spec(x) == x.add_spec(b));
        assert(x.add_spec(b).add_spec(y) == x.add_spec(b.add_spec(y)));
        assert(a.add_spec(x.add_spec(b.add_spec(y))) == a.add_spec(x).add_spec(b.add_spec(y)));
    } else {
        assert(s(0) == f(0).add_spec(g(0)));
    }
}

/// Two nested folds can be exchanged: folding over `j` the folds over `i`
/// gives what folding over `i` the folds over `j` gives.
pub proof fn lemma_folds_exchange<T: Add<T, Output = T>>(
    h: spec_fn(int, int) -> T,
    m: nat,
    n: nat,
)
    requires
        m > 0,
        n > 0,
        addition_is_abelian::<T>(),
    ensures
        fold_sum(|j: int| fold_sum(|i: int| h(i, j), m), n) == fold_sum(
            |i: int| fold_sum(|j: int| h(i, j), n),
            m,
        ),
    decreases n,
{
    let outer_j = |j: int| fold_sum(|i: int| h(i, j), m);
    let outer_i = |i: int| fold_sum(|j: int| h(i, j), n);
    if n > 1 {
        let shorter_i = |i: int| fold_sum(|j: int| h(i, j), (n - 1) as nat);
        let last = |i: int| h(i, n - 1);
        lemma_folds_exchange(h, m, (n - 1) as nat);
        assert(fold_sum(outer_j, (n - 1) as nat) == fold_sum(shorter_i, m));
        assert(outer_j(n - 1) == fold_sum(last, m));
        lemma_fold_of_sums(shorter_i, last, m);
        assert forall|i: int| 0 <= i < m implies #[trigger] outer_i(i) == (|i: int|
            shorter_i(i).add_spec(last(i)))(i) by {
            let inner = |j: int| h(i, j);
            assert(outer_i(i) == fold_sum(inner, n));
            assert(shorter_i(i) == fold_sum(inner, (n - 1) as nat));
            assert(inner(n - 1) == last(i));
        }
        lemma_fold_of_equal_terms(outer_i, |i: int| shorter_i(i).add_spec(last(i)), m);
    } else {
        assert forall|i: int| 0 <= i < m implies #[trigger] outer_i(i) == (|i: int| h(i, 0))(
            i,
        ) by {
            let inner = |j: int| h(i, j);
            assert(outer_i(i) == fold_sum(inner, 1));
            assert(inner(0) == h(i, 0));
        }
        lemma_fold_of_equal_terms(outer_i, |i: int| h(i, 0), m);
        assert(outer_j(0) == fold_sum(|i: int| h(i, 0), m));
    }
}

} // verus!
