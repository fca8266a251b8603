//! The vector type, its constructor, accessor and operators.

use crate::element::clones_exactly;
use crate::error::LalgrsError;
use crate::vector_model::{
    difference_defined, negation_defined, negation_of, scaled_by, scaling_defined, sum_defined,
    vector_difference, vector_sum,
};
use std::ops::{Add, Mul, Neg, Sub};
use vstd::prelude::*;
use vstd::std_specs::ops::{
    AddSpec, AddSpecImpl, MulSpec, MulSpecImpl, NegSpec, NegSpecImpl, SubSpecImpl,
};

verus! {

/// An ordered sequence of numeric elements. Any length is valid, zero
/// included; the empty vector is an identity of addition.
///
/// The operators take their operands by value and return new vectors.
#[derive(Debug, PartialEq)]
#[verifier::reject_recursive_types(T)]
pub struct LalgrsVector<T: Add<T, Output = T>> {
    pub values: Vec<T>,
}

impl<T: Add<T, Output = T>> View for LalgrsVector<T> {
    type V = Seq<T>;

    open spec fn view(&self) -> Seq<T> {
        self.values@
    }
}

impl<T: Add<T, Output = T>> LalgrsVector<T> {
    /// Wraps `values`, keeping their order.
    pub fn new(values: Vec<T>) -> (v: LalgrsVector<T>)
        ensures
            v.values == values,
            v@ == values@,
    {
        LalgrsVector { values }
    }

    /// The number of elements.
    pub fn size(&self) -> (n: usize)
        ensures
            n == self@.len(),
    {
        self.values.len()
    }
}

impl<T: Add<T, Output = T> + Clone> Clone for LalgrsVector<T> {
    /// Duplicates every element, in order.
    fn clone(&self) -> (r: Self)
        ensures
            r@.len() == self@.len(),
            forall|i: int| 0 <= i < self@.len() ==> cloned(self@[i], #[trigger] r@[i]),
            clones_exactly::<T>() ==> r@ == self@,
    {
        let values = self.values.clone();
        assert(clones_exactly::<T>() ==> values@ =~= self.values@) by {
            if clones_exactly::<T>() {
                assert forall|i: int| 0 <= i < values@.len() implies values@[i]
                    == self.values@[i] by {
                    assert(cloned(self.values@[i], values@[i]));
                }
            }
        }
        LalgrsVector { values }
    }
}

/// `+` is specified by the clauses of `add`, over the views of the operands:
/// two vectors with one view need not be the same value, so no function from
/// operands to result is claimed (`obeys_add_spec` is false).
impl<T: Add<T, Output = T> + Clone> AddSpecImpl<LalgrsVector<T>> for LalgrsVector<T> {
    open spec fn obeys_add_spec() -> bool {
        false
    }

    open spec fn add_req(self, rhs: LalgrsVector<T>) -> bool {
        sum_defined(self@, rhs@)
    }

    open spec fn add_spec(self, rhs: LalgrsVector<T>) -> Result<LalgrsVector<T>, LalgrsError> {
        arbitrary()
    }
}

impl<T: Add<T, Output = T> + Clone> Add<LalgrsVector<T>> for LalgrsVector<T> {
    type Output = Result<LalgrsVector<T>, LalgrsError>;

    /// Adds two vectors. An empty operand is an identity: the other operand
    /// is returned as it is. Two non-empty vectors of different lengths are
    /// refused; otherwise the result holds the sums of the paired elements.
    fn add(self, rhs: LalgrsVector<T>) -> (r: Self::Output)
        ensures
            (match vector_sum(self@, rhs@) {
                Ok(s) => r is Ok && r->Ok_0@ == s,
                Err(e) => r == Err::<LalgrsVector<T>, LalgrsError>(e),
            }),
            self@.len() == 0 ==> r == Ok::<LalgrsVector<T>, LalgrsError>(rhs),
            self@.len() != 0 && rhs@.len() == 0 ==> r == Ok::<LalgrsVector<T>, LalgrsError>(self),
    {
        if self.size() == 0 {
            return Ok(rhs);
        }
        if rhs.size() == 0 {
            return Ok(self);
        }
        if self.size() != rhs.size() {
            return Err(
                LalgrsError::MismatchedVectorDimensions {
                    vector1: self.size(),
                    vector2: rhs.size(),
                },
            );
        }
        let n: usize = self.size();
        let mut sums: Vec<T> = Vec::new();
        let mut i: usize = 0;
        while i < n
            invariant
                i <= n,
                n == self@.len(),
                n == rhs@.len(),
                sum_defined(self@, rhs@),
                sums@.len() == i,
                forall|k: int| 0 <= k < i ==> #[trigger] sums@[k] == self@[k].add_spec(rhs@[k]),
            decreases n - i,
        {
            let x = self.values[i].clone();
            let y = rhs.values[i].clone();
            assert(cloned(self@[i as int], x) && cloned(rhs@[i as int], y));
            sums.push(x + y);
            i = i + 1;
        }
        Ok(LalgrsVector::new(sums))
    }
}

/// Unary `-` is specified by the clauses of `neg`, over the view of the
/// operand.
impl<T: Add<T, Output = T> + Neg<Output = T> + Clone> NegSpecImpl for LalgrsVector<T> {
    open spec fn obeys_neg_spec() -> bool {
        false
    }

    open spec fn neg_req(self) -> bool {
        negation_defined(self@)
    }

    open spec fn neg_spec(self) -> LalgrsVector<T> {
        arbitrary()
    }
}

impl<T: Add<T, Output = T> + Neg<Output = T> + Clone> Neg for LalgrsVector<T> {
    type Output = LalgrsVector<T>;

    /// Negates every element. The empty vector negates to the empty vector.
    fn neg(self) -> (r: LalgrsVector<T>)
        ensures
            r@ == negation_of(self@),
    {
        let n: usize = self.size();
        let mut negated: Vec<T> = Vec::new();
        let mut i: usize = 0;
        while i < n
            invariant
                i <= n,
                n == self@.len(),
                negation_defined(self@),
                negated@.len() == i,
                forall|k: int| 0 <= k < i ==> #[trigger] negated@[k] == self@[k].neg_spec(),
            decreases n - i,
        {
            let x = self.values[i].clone();
            assert(cloned(self@[i as int], x));
            negated.push(x.neg());
            i = i + 1;
        }
        LalgrsVector::new(negated)
    }
}

/// Binary `-` is specified by the clauses of `sub`, over the views of the
/// operands.
impl<T: Add<T, Output = T> + Neg<Output = T> + Clone> SubSpecImpl<LalgrsVector<T>> for LalgrsVector<T> {
    open spec fn obeys_sub_spec() -> bool {
        false
    }

    open spec fn sub_req(self, rhs: LalgrsVector<T>) -> bool {
        difference_defined(self@, rhs@)
    }

    open spec fn sub_spec(self, rhs: LalgrsVector<T>) -> Result<LalgrsVector<T>, LalgrsError> {
        arbitrary()
    }
}

impl<T: Add<T, Output = T> + Neg<Output = T> + Clone> Sub<LalgrsVector<T>> for LalgrsVector<T> {
    type Output = Result<LalgrsVector<T>, LalgrsError>;

    /// Subtracts `rhs` by adding its negation, so an empty operand is treated
    /// as in addition: subtracting from the empty vector yields the negation
    /// of `rhs`.
    fn sub(self, rhs: LalgrsVector<T>) -> (r: Self::Output)
        ensures
            (match vector_difference(self@, rhs@) {
                Ok(d) => r is Ok && r->Ok_0@ == d,
                Err(e) => r == Err::<LalgrsVector<T>, LalgrsError>(e),
            }),
    {
        self + rhs.neg()
    }
}

/// `*` by a scalar is specified by the clauses of `mul`, over the view of
/// the vector.
impl<T: Add<T, Output = T> + Mul<T, Output = T> + Clone> MulSpecImpl<T> for LalgrsVector<T> {
    open spec fn obeys_mul_spec() -> bool {
        false
    }

    open spec fn mul_req(self, rhs: T) -> bool {
        scaling_defined(self@, rhs)
    }

    open spec fn mul_spec(self, rhs: T) -> LalgrsVector<T> {
        arbitrary()
    }
}

impl<T: Add<T, Output = T> + Mul<T, Output = T> + Clone> Mul<T> for LalgrsVector<T> {
    type Output = LalgrsVector<T>;

    /// Multiplies every element by `rhs`. The empty vector scales to the
    /// empty vector.
    fn mul(self, rhs: T) -> (r: LalgrsVector<T>)
        ensures
            r@ == scaled_by(self@, rhs),
    {
        let n: usize = self.size();
        let mut scaled: Vec<T> = Vec::new();
        let mut i: usize = 0;
        while i < n
            invariant
                i <= n,
                n == self@.len(),
                scaling_defined(self@, rhs),
                scaled@.len() == i,
                forall|k: int| 0 <= k < i ==> #[trigger] scaled@[k] == self@[k].mul_spec(rhs),
            decreases n - i,
        {
            let x = self.values[i].clone();
            let s = rhs.clone();
            assert(cloned(self@[i as int], x) && cloned(rhs, s));
            scaled.push(x * s);
            i = i + 1;
        }
        LalgrsVector::new(scaled)
    }
}

} // verus!
