use lalgrs::{LalgrsError, LalgrsMatrix, LalgrsVector};

fn matrix(columns: &[&[i64]]) -> LalgrsMatrix<i64> {
    LalgrsMatrix::new(columns.iter().map(|c| c.to_vec()).collect()).unwrap()
}

fn vector(values: &[i64]) -> LalgrsVector<i64> {
    LalgrsVector::new(values.to_vec())
}

fn empty_matrix() -> LalgrsMatrix<i64> {
    LalgrsMatrix::new(vec![]).unwrap()
}

#[test]
fn new_reads_back_the_shape_it_was_given() {
    let m = matrix(&[&[1, 2, 3], &[4, 5, 6]]);
    assert_eq!(m.rows(), 2);
    assert_eq!(m.columns(), 3);
}

#[test]
fn new_without_columns_gives_the_empty_matrix() {
    let m = empty_matrix();
    assert_eq!(m.rows(), 0);
    assert_eq!(m.columns(), 0);
}

#[test]
fn new_accepts_columns_without_elements() {
    let m = matrix(&[&[], &[], &[]]);
    assert_eq!(m.rows(), 3);
    assert_eq!(m.columns(), 0);
}

#[test]
fn new_refuses_columns_of_unequal_length() {
    assert_eq!(
        LalgrsMatrix::new(vec![vec![1, 2], vec![3]]),
        Err(LalgrsError::InvalidMatrixDimensions)
    );
    assert_eq!(
        LalgrsMatrix::new(vec![vec![1], vec![2], vec![3, 4]]),
        Err(LalgrsError::InvalidMatrixDimensions)
    );
    assert_eq!(
        LalgrsMatrix::new(vec![vec![], vec![3]]),
        Err(LalgrsError::InvalidMatrixDimensions)
    );
}

#[test]
fn try_from_takes_vectors_of_one_length() {
    let m = LalgrsMatrix::try_from(vec![vector(&[1, 2]), vector(&[3, 4]), vector(&[5, 6])]);
    assert_eq!(m, Ok(matrix(&[&[1, 2], &[3, 4], &[5, 6]])));
    let m = m.unwrap();
    assert_eq!(m.rows(), 3);
    assert_eq!(m.columns(), 2);
}

#[test]
fn try_from_refuses_vectors_of_unequal_length() {
    assert_eq!(
        LalgrsMatrix::try_from(vec![vector(&[1, 2]), vector(&[3])]),
        Err(LalgrsError::InvalidMatrixDimensions)
    );
}

#[test]
fn try_from_no_vector_gives_the_empty_matrix() {
    let none: Vec<LalgrsVector<i64>> = vec![];
    assert_eq!(LalgrsMatrix::try_from(none), Ok(empty_matrix()));
}

#[test]
fn clone_gives_an_equal_matrix() {
    let m = matrix(&[&[1, 2], &[3, 4]]);
    assert_eq!(m.clone(), m);
}

#[test]
fn matrix_sum_adds_column_by_column() {
    let a = matrix(&[&[1, 2], &[3, 4]]);
    let b = matrix(&[&[10, 20], &[30, 40]]);
    assert_eq!(a + b, Ok(matrix(&[&[11, 22], &[33, 44]])));
}

#[test]
fn sum_pairs_columns_as_far_as_both_operands_go() {
    let a = matrix(&[&[1, 2], &[3, 4], &[5, 6]]);
    let b = matrix(&[&[10, 20], &[30, 40]]);
    assert_eq!(a.clone() + b.clone(), Ok(matrix(&[&[11, 22], &[33, 44]])));
    assert_eq!(b + a, Ok(matrix(&[&[11, 22], &[33, 44]])));
}

#[test]
fn empty_matrix_is_an_identity_on_both_sides() {
    let a = matrix(&[&[1, 2, 3]]);
    assert_eq!(a.clone() + empty_matrix(), Ok(a.clone()));
    assert_eq!(empty_matrix() + a.clone(), Ok(a));
    assert_eq!(empty_matrix() + empty_matrix(), Ok(empty_matrix()));
}

#[test]
fn sum_of_different_column_lengths_names_both() {
    let a = matrix(&[&[1, 2, 3], &[4, 5, 6]]);
    let b = matrix(&[&[1, 2], &[3, 4]]);
    assert_eq!(
        a.clone() + b.clone(),
        Err(LalgrsError::MismatchedMatrixDimensions {
            first_matrix_columns: 3,
            second_matrix_rows: 2
        })
    );
    assert_eq!(
        b + a,
        Err(LalgrsError::MismatchedMatrixDimensions {
            first_matrix_columns: 2,
            second_matrix_rows: 3
        })
    );
}

#[test]
fn sum_with_columns_without_elements_is_refused() {
    let a = matrix(&[&[], &[]]);
    let b = matrix(&[&[1], &[2]]);
    assert_eq!(
        a + b,
        Err(LalgrsError::MismatchedMatrixDimensions {
            first_matrix_columns: 0,
            second_matrix_rows: 1
        })
    );
}

#[test]
fn difference_of_different_column_lengths_names_both() {
    let a = matrix(&[&[1, 2, 3], &[4, 5, 6]]);
    let b = matrix(&[&[1, 2], &[3, 4]]);
    assert_eq!(
        a - b,
        Err(LalgrsError::MismatchedMatrixDimensions {
            first_matrix_columns: 3,
            second_matrix_rows: 2
        })
    );
}

#[test]
fn matrix_negation_negates_every_column() {
    let a = matrix(&[&[1, -2], &[0, 4]]);
    assert_eq!(-a.clone(), matrix(&[&[-1, 2], &[0, -4]]));
    assert_eq!(-(-a.clone()), a);
    assert_eq!(-empty_matrix(), empty_matrix());
}

#[test]
fn matrix_difference_is_the_sum_with_the_negation() {
    let a = matrix(&[&[5, 6], &[7, 8]]);
    let b = matrix(&[&[1, 2], &[3, 4]]);
    assert_eq!(a.clone() - b.clone(), Ok(matrix(&[&[4, 4], &[4, 4]])));
    assert_eq!(a.clone() - b.clone(), a + (-b));
}

#[test]
fn difference_with_the_empty_matrix() {
    let a = matrix(&[&[5, 6], &[7, 8]]);
    assert_eq!(a.clone() - empty_matrix(), Ok(a.clone()));
    assert_eq!(empty_matrix() - a.clone(), Ok(-a));
}

#[test]
fn matrix_scaling_multiplies_every_element() {
    let a = matrix(&[&[1, 2], &[3, 4]]);
    assert_eq!(a.clone() * 3, matrix(&[&[3, 6], &[9, 12]]));
    assert_eq!(a * 0, matrix(&[&[0, 0], &[0, 0]]));
    assert_eq!(empty_matrix() * 3, empty_matrix());
}

#[test]
fn diagonal_of_ones_leaves_a_vector_unchanged() {
    let identity = matrix(&[&[1, 0, 0], &[0, 1, 0], &[0, 0, 1]]);
    let v = vector(&[7, -8, 9]);
    assert_eq!(identity * v.clone(), Ok(v));
}

#[test]
fn matrix_times_vector_weights_the_columns() {
    let a = matrix(&[&[1, 2], &[3, 4]]);
    let v = vector(&[5, 6]);
    assert_eq!(a * v, Ok(vector(&[23, 34])));
}

#[test]
fn matrix_times_vector_pairs_columns_as_far_as_the_vector_goes() {
    let a = matrix(&[&[1, 2], &[3, 4], &[100, 100]]);
    let v = vector(&[5, 6]);
    assert_eq!(a * v, Ok(vector(&[23, 34])));
}

#[test]
fn matrix_times_vector_of_another_length_names_both() {
    let a = matrix(&[&[1, 2], &[3, 4]]);
    let v = vector(&[1, 2, 3]);
    assert_eq!(
        a * v,
        Err(LalgrsError::MismatchedVectorAndMatrixDimensions { vector_size: 3, matrix_columns: 2 })
    );
}

#[test]
fn empty_matrix_times_empty_vector_is_the_empty_vector() {
    assert_eq!(empty_matrix() * vector(&[]), Ok(vector(&[])));
}

#[test]
fn empty_matrix_times_a_vector_with_elements_is_refused() {
    assert_eq!(
        empty_matrix() * vector(&[1, 2]),
        Err(LalgrsError::MismatchedVectorAndMatrixDimensions { vector_size: 2, matrix_columns: 0 })
    );
}

#[test]
fn matrix_without_elements_times_empty_vector_is_the_empty_vector() {
    assert_eq!(matrix(&[&[], &[]]) * vector(&[]), Ok(vector(&[])));
}

#[test]
fn product_weights_the_left_columns_by_each_right_column() {
    let a = matrix(&[&[1, 2], &[3, 4]]);
    let b = matrix(&[&[5, 6], &[7, 8]]);
    assert_eq!(a * b, Ok(matrix(&[&[23, 34], &[31, 46]])));
}

#[test]
fn product_does_not_commute() {
    let a = matrix(&[&[1, 0], &[1, 1]]);
    let b = matrix(&[&[0, 1], &[-1, 0]]);
    assert_eq!(a.clone() * b.clone(), Ok(matrix(&[&[1, 1], &[-1, 0]])));
    assert_eq!(b * a, Ok(matrix(&[&[0, 1], &[-1, 1]])));
}

#[test]
fn product_of_square_integer_matrices_associates() {
    let a = matrix(&[&[1, 2], &[3, 4]]);
    let b = matrix(&[&[0, 1], &[-1, 2]]);
    let c = matrix(&[&[5, -6], &[7, 8]]);
    let left = ((a.clone() * b.clone()).unwrap() * c.clone()).unwrap();
    let right = (a * (b * c).unwrap()).unwrap();
    assert_eq!(left, right);
}

#[test]
fn product_with_the_diagonal_of_ones_is_the_other_operand() {
    let identity = matrix(&[&[1, 0], &[0, 1]]);
    let b = matrix(&[&[2, 0], &[0, 2]]);
    assert_eq!(identity.clone() * b.clone(), Ok(b.clone()));
    assert_eq!(b.clone() * identity, Ok(b));
}

#[test]
fn product_compares_left_column_length_with_right_column_count() {
    let a = matrix(&[&[1, 2, 3], &[4, 5, 6]]);
    let b = matrix(&[&[1, 2], &[3, 4]]);
    assert_eq!(
        a * b,
        Err(LalgrsError::MismatchedMatrixDimensions {
            first_matrix_columns: 3,
            second_matrix_rows: 2
        })
    );
}

#[test]
fn product_of_matrices_that_are_not_square() {
    let a = matrix(&[&[1, 2, 3], &[4, 5, 6]]);
    let b = matrix(&[&[1, 0], &[0, 1], &[2, 3]]);
    assert_eq!(a * b, Ok(matrix(&[&[1, 2, 3], &[4, 5, 6], &[14, 19, 24]])));
}

#[test]
fn product_of_empty_matrices_is_empty() {
    assert_eq!(empty_matrix() * empty_matrix(), Ok(empty_matrix()));
}

#[test]
fn product_of_the_empty_matrix_and_one_with_columns_is_refused() {
    let b = matrix(&[&[1, 2], &[3, 4]]);
    assert_eq!(
        empty_matrix() * b,
        Err(LalgrsError::MismatchedMatrixDimensions {
            first_matrix_columns: 0,
            second_matrix_rows: 2
        })
    );
}

#[test]
fn product_folds_nothing_into_empty_columns() {
    let a = matrix(&[&[1, 2], &[3, 4]]);
    let b = matrix(&[&[], &[]]);
    assert_eq!(a * b, Ok(matrix(&[&[], &[]])));
}

#[test]
fn product_pairs_elements_with_columns_in_order() {
    let a = LalgrsMatrix::new(vec![
        vec![Word(String::from("a")), Word(String::from("b"))],
        vec![Word(String::from("c")), Word(String::from("d"))],
    ])
    .unwrap();
    let b = LalgrsMatrix::new(vec![
        vec![Word(String::from("p")), Word(String::from("q"))],
        vec![Word(String::from("r")), Word(String::from("s"))],
    ])
    .unwrap();
    let expected = LalgrsMatrix::new(vec![
        vec![Word(String::from("ap+cq")), Word(String::from("bp+dq"))],
        vec![Word(String::from("ar+cs")), Word(String::from("br+ds"))],
    ])
    .unwrap();
    assert_eq!(a * b, Ok(expected));
}

#[test]
fn matrix_times_vector_folds_from_the_left() {
    let a = LalgrsMatrix::new(vec![
        vec![Word(String::from("a"))],
        vec![Word(String::from("b"))],
        vec![Word(String::from("c"))],
    ])
    .unwrap();
    let v = LalgrsVector::new(vec![Word(String::from("x"))]);
    assert_eq!(a.clone() * v, Ok(LalgrsVector::new(vec![Word(String::from("ax"))])));
    let a = LalgrsMatrix::new(vec![
        vec![Word(String::from("a")), Word(String::from("b")), Word(String::from("c"))],
        vec![Word(String::from("d")), Word(String::from("e")), Word(String::from("f"))],
        vec![Word(String::from("g")), Word(String::from("h")), Word(String::from("i"))],
    ])
    .unwrap();
    let v = LalgrsVector::new(vec![
        Word(String::from("x")),
        Word(String::from("y")),
        Word(String::from("z")),
    ]);
    assert_eq!(
        a * v,
        Ok(LalgrsVector::new(vec![
            Word(String::from("ax+dy+gz")),
            Word(String::from("bx+ey+hz")),
            Word(String::from("cx+fy+iz")),
        ]))
    );
}

/// An element type whose operators do not commute, to tell the operands and
/// the order of a fold apart.
#[derive(Debug, Clone, PartialEq)]
struct Word(String);

impl std::ops::Add for Word {
    type Output = Word;

    fn add(self, rhs: Word) -> Word {
        Word(format!("{}+{}", self.0, rhs.0))
    }
}

impl std::ops::Mul for Word {
    type Output = Word;

    fn mul(self, rhs: Word) -> Word {
        Word(format!("{}{}", self.0, rhs.0))
    }
}
