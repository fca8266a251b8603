//! The matrix type, its constructors, accessors and operators.

use crate::element::clones_exactly;
use crate::error::LalgrsError;
use crate::matrix_model::{
    combination, combination_defined, lemma_combination_defined_at, matrix_difference,
    matrix_difference_defined, matrix_negation, matrix_negation_defined, matrix_product,
    matrix_product_defined, matrix_scaled, matrix_scaling_defined, matrix_sum,
    matrix_sum_defined, matrix_times_vector, matrix_times_vector_defined, paired_sums,
    rectangular, shorter, weighted_sum, weighted_sum_defined, width,
};
use crate::vector::LalgrsVector;
use crate::vector_model::{negation_of, scaled_by, sum_of};
use std::ops::{Add, Mul, Neg, Sub};
use vstd::prelude::*;
use vstd::std_specs::convert::TryFromSpecImpl;
use vstd::std_specs::ops::{AddSpecImpl, MulSpecImpl, NegSpecImpl, SubSpecImpl};

verus! {

/// The views of the vectors of `columns`, in order.
pub open spec fn column_views<T: Add<T, Output = T>>(columns: Seq<LalgrsVector<T>>) -> Seq<
    Seq<T>,
> {
    Seq::new(columns.len(), |j: int| columns[j]@)
}

/// The contents of the inner vectors of `columns`, in order.
pub open spec fn nested_views<T>(columns: Seq<Vec<T>>) -> Seq<Seq<T>> {
    Seq::new(columns.len(), |j: int| columns[j]@)
}

/// An ordered sequence of column vectors of one length. `rows` counts the
/// columns that are stored and `columns` gives their common length.
///
/// A matrix without columns is valid; it is an identity of addition.
#[derive(Debug, PartialEq)]
#[verifier::reject_recursive_types(T)]
pub struct LalgrsMatrix<T: Add<T, Output = T>> {
    columns: Vec<LalgrsVector<T>>,
}

impl<T: Add<T, Output = T>> View for LalgrsMatrix<T> {
    type V = Seq<Seq<T>>;

    closed spec fn view(&self) -> Seq<Seq<T>> {
        column_views(self.columns@)
    }
}

impl<T: Add<T, Output = T>> LalgrsMatrix<T> {
    /// Every column is as long as the first. Constructors check it and no
    /// operation changes a matrix afterwards.
    #[verifier::type_invariant]
    pub open spec fn well_formed(&self) -> bool {
        rectangular(self@)
    }

    /// The matrix that stores exactly `columns`.
    pub closed spec fn of_columns(columns: Vec<LalgrsVector<T>>) -> LalgrsMatrix<T> {
        LalgrsMatrix { columns }
    }
}

impl<T: Add<T, Output = T> + Clone> LalgrsMatrix<T> {
    /// Builds a matrix from its columns, each given as the sequence of its
    /// elements. Columns of unequal length are refused; no column at all
    /// gives the empty matrix.
    pub fn new(columns: Vec<Vec<T>>) -> (r: Result<LalgrsMatrix<T>, LalgrsError>)
        ensures
            rectangular(nested_views(columns@)) ==> r is Ok && r->Ok_0@ == nested_views(
                columns@,
            ),
            !rectangular(nested_views(columns@)) ==> r == Err::<LalgrsMatrix<T>, LalgrsError>(
                LalgrsError::InvalidMatrixDimensions,
            ),
    {
        let n: usize = columns.len();
        let mut j: usize = 0;
        while j < n
            invariant
                j <= n,
                n == columns@.len(),
                forall|k: int| 0 <= k < j ==> (#[trigger] columns@[k])@.len() == columns@[0]@.len(),
            decreases n - j,
        {
            if columns[j].len() != columns[0].len() {
                assert(nested_views(columns@)[j as int].len() != nested_views(columns@)[0].len());
                return Err(LalgrsError::InvalidMatrixDimensions);
            }
            j = j + 1;
        }
        let ghost shape = nested_views(columns@);
        let mut vectors: Vec<LalgrsVector<T>> = Vec::new();
        for column in it: columns
            invariant
                it.seq() == columns@,
                shape == nested_views(columns@),
                vectors@.len() == it.index(),
                forall|k: int| 0 <= k < vectors@.len() ==> (#[trigger] vectors@[k])@ == shape[k],
        {
            vectors.push(LalgrsVector::new(column));
        }
        Ok(LalgrsMatrix { columns: vectors })
    }

    /// The number of columns that are stored.
    pub fn rows(&self) -> (n: usize)
        ensures
            n == self@.len(),
    {
        self.columns.len()
    }

    /// The common length of the columns, and 0 for the matrix without
    /// columns.
    pub fn columns(&self) -> (n: usize)
        ensures
            n == width(self@),
    {
        if self.columns.len() == 0 {
            0
        } else {
            self.columns[0].size()
        }
    }
}

/// The conversion is a function of the vectors: they become the columns as
/// they are, where they have one length.
impl<T: Add<T, Output = T>> TryFromSpecImpl<Vec<LalgrsVector<T>>> for LalgrsMatrix<T> {
    open spec fn obeys_try_from_spec() -> bool {
        true
    }

    open spec fn try_from_spec(value: Vec<LalgrsVector<T>>) -> Result<Self, Self::Error> {
        if rectangular(column_views(value@)) {
            Ok(LalgrsMatrix::of_columns(value))
        } else {
            Err(LalgrsError::InvalidMatrixDimensions)
        }
    }
}

impl<T: Add<T, Output = T>> TryFrom<Vec<LalgrsVector<T>>> for LalgrsMatrix<T> {
    type Error = LalgrsError;

    /// Builds a matrix from vectors that are its columns. Vectors of unequal
    /// length are refused.
    fn try_from(value: Vec<LalgrsVector<T>>) -> (r: Result<Self, Self::Error>)
        ensures
            rectangular(column_views(value@)) ==> r is Ok && r->Ok_0@ == column_views(value@),
            !rectangular(column_views(value@)) ==> r == Err::<LalgrsMatrix<T>, LalgrsError>(
                LalgrsError::InvalidMatrixDimensions,
            ),
    {
        let n: usize = value.len();
        let mut j: usize = 0;
        while j < n
            invariant
                j <= n,
                n == value@.len(),
                forall|k: int| 0 <= k < j ==> (#[trigger] value@[k])@.len() == value@[0]@.len(),
            decreases n - j,
        {
            if value[j].size() != value[0].size() {
                assert(column_views(value@)[j as int].len() != column_views(value@)[0].len());
                return Err(LalgrsError::InvalidMatrixDimensions);
            }
            j = j + 1;
        }
        Ok(LalgrsMatrix { columns: value })
    }
}

impl<T: Add<T, Output = T> + Clone> Clone for LalgrsMatrix<T> {
    /// Duplicates every element of every column, in order.
    fn clone(&self) -> (r: Self)
        ensures
            r@.len() == self@.len(),
            forall|j: int| 0 <= j < self@.len() ==> (#[trigger] r@[j]).len() == self@[j].len(),
            forall|j: int, i: int|
                0 <= j < self@.len() && 0 <= i < self@[j].len() ==> cloned(
                    self@[j][i],
                    #[trigger] r@[j][i],
                ),
            clones_exactly::<T>() ==> r@ == self@,
    {
        proof {
            use_type_invariant(self);
        }
        let n: usize = self.columns.len();
        let mut copies: Vec<LalgrsVector<T>> = Vec::new();
        let mut j: usize = 0;
        while j < n
            invariant
                j <= n,
                n == self.columns@.len(),
                copies@.len() == j,
                forall|k: int|
                    0 <= k < j ==> (#[trigger] copies@[k])@.len() == self.columns@[k]@.len(),
                forall|k: int, i: int|
                    0 <= k < j && 0 <= i < self.columns@[k]@.len() ==> cloned(
                        self.columns@[k]@[i],
                        #[trigger] copies@[k]@[i],
                    ),
                clones_exactly::<T>() ==> forall|k: int|
                    0 <= k < j ==> (#[trigger] copies@[k])@ == self.columns@[k]@,
            decreases n - j,
        {
            copies.push(self.columns[j].clone());
            j = j + 1;
        }
        assert forall|k: int| 0 <= k < n implies (#[trigger] column_views(copies@)[k]).len()
            == self@[k].len() by {
            assert(copies@[k]@.len() == self.columns@[k]@.len());
        }
        assert(clones_exactly::<T>() ==> column_views(copies@) =~= self@);
        LalgrsMatrix { columns: copies }
    }
}

/// Unary `-` is specified by the clauses of `neg`, over the view of the
/// operand.
impl<T: Add<T, Output = T> + Neg<Output = T> + Clone> NegSpecImpl for LalgrsMatrix<T> {
    open spec fn obeys_neg_spec() -> bool {
        false
    }

    open spec fn neg_req(self) -> bool {
        matrix_negation_defined(self@)
    }

    open spec fn neg_spec(self) -> LalgrsMatrix<T> {
        arbitrary()
    }
}

impl<T: Add<T, Output = T> + Neg<Output = T> + Clone> Neg for LalgrsMatrix<T> {
    type Output = LalgrsMatrix<T>;

    /// Negates every column.
    fn neg(self) -> (r: LalgrsMatrix<T>)
        ensures
            r@ == matrix_negation(self@),
    {
        proof {
            use_type_invariant(&self);
        }
        let n: usize = self.columns.len();
        let mut negated: Vec<LalgrsVector<T>> = Vec::new();
        let mut j: usize = 0;
        while j < n
            invariant
                j <= n,
                n == self@.len(),
                matrix_negation_defined(self@),
                negated@.len() == j,
                forall|k: int| 0 <= k < j ==> (#[trigger] negated@[k])@ == negation_of(self@[k]),
            decreases n - j,
        {
            let column = self.columns[j].clone();
            assert(column@ =~= self@[j as int]);
            negated.push(column.neg());
            j = j + 1;
        }
        assert(column_views(negated@) =~= matrix_negation(self@));
        LalgrsMatrix::try_from(negated).unwrap()
    }
}

/// `+` is specified by the clauses of `add`, over the views of the operands.
impl<T: Add<T, Output = T> + Clone> AddSpecImpl<LalgrsMatrix<T>> for LalgrsMatrix<T> {
    open spec fn obeys_add_spec() -> bool {
        false
    }

    open spec fn add_req(self, rhs: LalgrsMatrix<T>) -> bool {
        matrix_sum_defined(self@, rhs@)
    }

    open spec fn add_spec(self, rhs: LalgrsMatrix<T>) -> Result<LalgrsMatrix<T>, LalgrsError> {
        arbitrary()
    }
}

impl<T: Add<T, Output = T> + Clone> Add<LalgrsMatrix<T>> for LalgrsMatrix<T> {
    type Output = Result<LalgrsMatrix<T>, LalgrsError>;

    /// Adds two matrices column by column. A matrix without columns is an
    /// identity: the other operand is returned as it is. Otherwise the
    /// columns of both must have one length; the columns are then paired in
    /// order, as far as both matrices have columns, and each pair is added.
    fn add(self, rhs: LalgrsMatrix<T>) -> (r: Self::Output)
        ensures
            (match matrix_sum(self@, rhs@) {
                Ok(s) => r is Ok && r->Ok_0@ == s,
                Err(e) => r == Err::<LalgrsMatrix<T>, LalgrsError>(e),
            }),
            self@.len() == 0 ==> r == Ok::<LalgrsMatrix<T>, LalgrsError>(rhs),
            self@.len() != 0 && rhs@.len() == 0 ==> r == Ok::<LalgrsMatrix<T>, LalgrsError>(self),
    {
        proof {
            use_type_invariant(&self);
            use_type_invariant(&rhs);
        }
        if self.rows() == 0 {
            return Ok(rhs);
        }
        if rhs.rows() == 0 {
            return Ok(self);
        }
        if self.columns() != rhs.columns() {
            return Err(
                LalgrsError::MismatchedMatrixDimensions {
                    first_matrix_columns: self.columns(),
                    second_matrix_rows: rhs.columns(),
                },
            );
        }
        let n: usize = if self.rows() <= rhs.rows() {
            self.rows()
        } else {
            rhs.rows()
        };
        let mut sums: Vec<LalgrsVector<T>> = Vec::new();
        let mut j: usize = 0;
        while j < n
            invariant
                j <= n,
                n == shorter(self@.len(), rhs@.len()),
                n > 0,
                rectangular(self@),
                rectangular(rhs@),
                width(self@) == width(rhs@),
                matrix_sum_defined(self@, rhs@),
                sums@.len() == j,
                forall|k: int| 0 <= k < j ==> (#[trigger] sums@[k])@ == sum_of(self@[k], rhs@[k]),
            decreases n - j,
        {
            let left = self.columns[j].clone();
            let right = rhs.columns[j].clone();
            assert(left@ =~= self@[j as int]);
            assert(right@ =~= rhs@[j as int]);
            let sum = (left + right)?;
            sums.push(sum);
            j = j + 1;
        }
        assert(column_views(sums@) =~= paired_sums(self@, rhs@));
        Ok(LalgrsMatrix { columns: sums })
    }
}

/// Binary `-` is specified by the clauses of `sub`, over the views of the
/// operands.
impl<T: Add<T, Output = T> + Neg<Output = T> + Clone> SubSpecImpl<LalgrsMatrix<T>> for LalgrsMatrix<T> {
    open spec fn obeys_sub_spec() -> bool {
        false
    }

    open spec fn sub_req(self, rhs: LalgrsMatrix<T>) -> bool {
        matrix_difference_defined(self@, rhs@)
    }

    open spec fn sub_spec(self, rhs: LalgrsMatrix<T>) -> Result<LalgrsMatrix<T>, LalgrsError> {
        arbitrary()
    }
}

impl<T: Add<T, Output = T> + Neg<Output = T> + Clone> Sub<LalgrsMatrix<T>> for LalgrsMatrix<T> {
    type Output = Result<LalgrsMatrix<T>, LalgrsError>;

    /// Subtracts `rhs` by adding its negation.
    fn sub(self, rhs: LalgrsMatrix<T>) -> (r: Self::Output)
        ensures
            (match matrix_difference(self@, rhs@) {
                Ok(d) => r is Ok && r->Ok_0@ == d,
                Err(e) => r == Err::<LalgrsMatrix<T>, LalgrsError>(e),
            }),
    {
        self + rhs.neg()
    }
}

/// `*` by a scalar is specified by the clauses of `mul`, over the view of
/// the matrix.
impl<T: Add<T, Output = T> + Mul<T, Output = T> + Clone> MulSpecImpl<T> for LalgrsMatrix<T> {
    open spec fn obeys_mul_spec() -> bool {
        false
    }

    open spec fn mul_req(self, rhs: T) -> bool {
        matrix_scaling_defined(self@, rhs)
    }

    open spec fn mul_spec(self, rhs: T) -> LalgrsMatrix<T> {
        arbitrary()
    }
}

impl<T: Add<T, Output = T> + Mul<T, Output = T> + Clone> Mul<T> for LalgrsMatrix<T> {
    type Output = LalgrsMatrix<T>;

    /// Scales every column by `rhs`.
    fn mul(self, rhs: T) -> (r: LalgrsMatrix<T>)
        ensures
            r@ == matrix_scaled(self@, rhs),
    {
        proof {
            use_type_invariant(&self);
        }
        let n: usize = self.columns.len();
        let mut scaled: Vec<LalgrsVector<T>> = Vec::new();
        let mut j: usize = 0;
        while j < n
            invariant
                j <= n,
                n == self@.len(),
                matrix_scaling_defined(self@, rhs),
                scaled@.len() == j,
                forall|k: int| 0 <= k < j ==> (#[trigger] scaled@[k])@ == scaled_by(self@[k], rhs),
            decreases n - j,
        {
            let column = self.columns[j].clone();
            let factor = rhs.clone();
            assert(column@ =~= self@[j as int]);
            assert(cloned(rhs, factor));
            let product = column * factor;
            assert(product@ =~= scaled_by(self@[j as int], rhs));
            scaled.push(product);
            j = j + 1;
        }
        assert(column_views(scaled@) =~= matrix_scaled(self@, rhs));
        LalgrsMatrix::try_from(scaled).unwrap()
    }
}

impl<T: Add<T, Output = T> + Mul<T, Output = T> + Clone> LalgrsMatrix<T> {
    /// Folds the columns, each scaled by the element of `weights` at its
    /// position, into one vector by vector addition, starting from the empty
    /// vector. Columns and weights are paired in order, as far as both go.
    fn combine(&self, weights: &LalgrsVector<T>) -> (r: LalgrsVector<T>)
        requires
            weighted_sum_defined(self@, weights@),
        ensures
            r@ == weighted_sum(self@, weights@),
            r@.len() == if shorter(self@.len(), weights@.len()) == 0 {
                0
            } else {
                width(self@)
            },
    {
        proof {
            use_type_invariant(self);
        }
        let pairs: usize = if self.columns.len() <= weights.size() {
            self.columns.len()
        } else {
            weights.size()
        };
        let mut total: LalgrsVector<T> = LalgrsVector::new(Vec::new());
        let mut j: usize = 0;
        while j < pairs
            invariant
                j <= pairs,
                pairs == shorter(self@.len(), weights@.len()),
                rectangular(self@),
                combination_defined(self@, weights@, pairs as nat),
                total@ == combination(self@, weights@, j as nat),
                j == 0 ==> total@.len() == 0,
                j > 0 ==> total@.len() == width(self@),
            decreases pairs - j,
        {
            proof {
                lemma_combination_defined_at(self@, weights@, pairs as nat, j as nat);
            }
            let column = self.columns[j].clone();
            let weight = weights.values[j].clone();
            assert(column@ =~= self@[j as int]);
            assert(cloned(weights@[j as int], weight));
            let scaled = column * weight;
            assert(scaled@ =~= scaled_by(self@[j as int], weights@[j as int]));
            total = (total + scaled).unwrap();
            j = j + 1;
        }
        total
    }
}

/// `*` by a vector is specified by the clauses of `mul`, over the views of
/// the operands.
impl<T: Add<T, Output = T> + Clone + Mul<T, Output = T>> MulSpecImpl<LalgrsVector<T>> for LalgrsMatrix<T> {
    open spec fn obeys_mul_spec() -> bool {
        false
    }

    open spec fn mul_req(self, rhs: LalgrsVector<T>) -> bool {
        matrix_times_vector_defined(self@, rhs@)
    }

    open spec fn mul_spec(self, rhs: LalgrsVector<T>) -> Result<LalgrsVector<T>, LalgrsError> {
        arbitrary()
    }
}

impl<T: Add<T, Output = T> + Clone + Mul<T, Output = T>> Mul<LalgrsVector<T>> for LalgrsMatrix<T> {
    type Output = Result<LalgrsVector<T>, LalgrsError>;

    /// Multiplies the matrix by a vector. The length of the columns must
    /// equal the length of the vector. Each column is then scaled by the
    /// element of the vector at its position, and the scaled columns are
    /// added up; a matrix without columns gives the empty vector.
    fn mul(self, rhs: LalgrsVector<T>) -> (r: Self::Output)
        ensures
            (match matrix_times_vector(self@, rhs@) {
                Ok(p) => r is Ok && r->Ok_0@ == p,
                Err(e) => r == Err::<LalgrsVector<T>, LalgrsError>(e),
            }),
    {
        if self.columns() != rhs.size() {
            return Err(
                LalgrsError::MismatchedVectorAndMatrixDimensions {
                    vector_size: rhs.size(),
                    matrix_columns: self.columns(),
                },
            );
        }
        Ok(self.combine(&rhs))
    }
}

/// `*` by a matrix is specified by the clauses of `mul`, over the views of
/// the operands.
impl<T: Add<T, Output = T> + Clone + Mul<T, Output = T>> MulSpecImpl<LalgrsMatrix<T>> for LalgrsMatrix<T> {
    open spec fn obeys_mul_spec() -> bool {
        false
    }

    open spec fn mul_req(self, rhs: LalgrsMatrix<T>) -> bool {
        matrix_product_defined(self@, rhs@)
    }

    open spec fn mul_spec(self, rhs: LalgrsMatrix<T>) -> Result<LalgrsMatrix<T>, LalgrsError> {
        arbitrary()
    }
}

impl<T: Add<T, Output = T> + Clone + Mul<T, Output = T>> Mul<LalgrsMatrix<T>> for LalgrsMatrix<T> {
    type Output = Result<LalgrsMatrix<T>, LalgrsError>;

    /// Multiplies two matrices. The length of the columns of `self` must
    /// equal the number of columns of `rhs`. Each column of `rhs` then gives
    /// one column of the product, in order: the columns of `self`, weighted
    /// by its elements and added up.
    fn mul(self, rhs: LalgrsMatrix<T>) -> (r: Self::Output)
        ensures
            (match matrix_product(self@, rhs@) {
                Ok(p) => r is Ok && r->Ok_0@ == p,
                Err(e) => r == Err::<LalgrsMatrix<T>, LalgrsError>(e),
            }),
    {
        proof {
            use_type_invariant(&self);
            use_type_invariant(&rhs);
        }
        if self.columns() != rhs.rows() {
            return Err(
                LalgrsError::MismatchedMatrixDimensions {
                    first_matrix_columns: self.columns(),
                    second_matrix_rows: rhs.rows(),
                },
            );
        }
        let n: usize = rhs.rows();
        let mut products: Vec<LalgrsVector<T>> = Vec::new();
        let mut c: usize = 0;
        while c < n
            invariant
                c <= n,
                n == rhs@.len(),
                width(self@) == rhs@.len(),
                rectangular(rhs@),
                matrix_product_defined(self@, rhs@),
                products@.len() == c,
                forall|k: int|
                    0 <= k < c ==> (#[trigger] products@[k])@ == weighted_sum(self@, rhs@[k]),
                forall|k: int|
                    0 <= k < c ==> (#[trigger] products@[k])@.len() == if shorter(
                        self@.len(),
                        width(rhs@),
                    ) == 0 {
                        0
                    } else {
                        width(self@)
                    },
            decreases n - c,
        {
            assert(rhs.columns@[c as int]@ == rhs@[c as int]);
            let product = self.combine(&rhs.columns[c]);
            products.push(product);
            c = c + 1;
        }
        assert(column_views(products@) =~= Seq::new(
            rhs@.len(),
            |k: int| weighted_sum(self@, rhs@[k]),
        ));
        LalgrsMatrix::try_from(products)
    }
}

} // verus!
