//! The errors of the arithmetic.

use vstd::prelude::*;

verus! {

/// Why an operation on vectors or matrices was refused.
///
/// Every value is a terminal outcome of one call: no operation retries or
/// returns a partial result.
#[derive(Debug, PartialEq)]
pub enum LalgrsError {
    /// Two non-empty vectors of different lengths were added or subtracted.
    MismatchedVectorDimensions { vector1: usize, vector2: usize },
    /// A matrix was multiplied by a vector whose length differs from the
    /// length of the matrix's columns.
    MismatchedVectorAndMatrixDimensions { vector_size: usize, matrix_columns: usize },
    /// Two matrices of incompatible shapes were added, subtracted or
    /// multiplied. Addition and subtraction report the two column lengths;
    /// multiplication reports the left column length and the right column
    /// count.
    MismatchedMatrixDimensions { first_matrix_columns: usize, second_matrix_rows: usize },
    /// A matrix was to be built from columns of unequal length.
    InvalidMatrixDimensions,
}

impl Clone for LalgrsError {
    fn clone(&self) -> (r: Self)
        ensures
            r == *self,
    {
        match self {
            LalgrsError::MismatchedVectorDimensions { vector1, vector2 } => {
                LalgrsError::MismatchedVectorDimensions { vector1: *vector1, vector2: *vector2 }
            },
            LalgrsError::MismatchedVectorAndMatrixDimensions { vector_size, matrix_columns } => {
                LalgrsError::MismatchedVectorAndMatrixDimensions {
                    vector_size: *vector_size,
                    matrix_columns: *matrix_columns,
                }
            },
            LalgrsError::MismatchedMatrixDimensions { first_matrix_columns, second_matrix_rows } => {
                LalgrsError::MismatchedMatrixDimensions {
                    first_matrix_columns: *first_matrix_columns,
                    second_matrix_rows: *second_matrix_rows,
                }
            },
            LalgrsError::InvalidMatrixDimensions => LalgrsError::InvalidMatrixDimensions,
        }
    }
}

} // verus!
