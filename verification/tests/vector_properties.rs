use lalgrs::{LalgrsError, LalgrsVector};

fn vector(values: &[i64]) -> LalgrsVector<i64> {
    LalgrsVector::new(values.to_vec())
}

#[test]
fn new_keeps_the_values_in_order() {
    let v = LalgrsVector::new(vec![7, 8, 9]);
    assert_eq!(v.values, vec![7, 8, 9]);
    assert_eq!(v.size(), 3);
}

#[test]
fn size_of_the_empty_vector_is_zero() {
    let v: LalgrsVector<i64> = LalgrsVector::new(vec![]);
    assert_eq!(v.size(), 0);
}

#[test]
fn clone_gives_an_equal_vector() {
    let v = vector(&[4, -5, 6]);
    assert_eq!(v.clone(), v);
    assert_eq!(v.clone().values, vec![4, -5, 6]);
}

#[test]
fn empty_vector_is_an_identity_on_both_sides() {
    let v = vector(&[1, 2, 3]);
    let empty = vector(&[]);
    assert_eq!(v.clone() + empty.clone(), Ok(v.clone()));
    assert_eq!(empty.clone() + v.clone(), Ok(v));
    assert_eq!(empty.clone() + empty.clone(), Ok(empty));
}

#[test]
fn sum_holds_the_sums_of_the_paired_elements() {
    let a = vector(&[1, 2, 3]);
    let b = vector(&[2, 3, 4]);
    let sum = (a.clone() + b.clone()).unwrap();
    assert_eq!(sum, vector(&[3, 5, 7]));
    assert_eq!(sum.size(), 3);
    for i in 0..3 {
        assert_eq!(sum.values[i], a.values[i] + b.values[i]);
    }
}

#[test]
fn sum_of_integer_vectors_commutes() {
    let a = vector(&[10, -20, 30, 0]);
    let b = vector(&[-7, 8, 9, 5]);
    assert_eq!(a.clone() + b.clone(), b + a);
}

#[test]
fn sum_of_integer_vectors_associates() {
    let a = vector(&[1, 2]);
    let b = vector(&[30, 40]);
    let c = vector(&[500, 600]);
    let left = ((a.clone() + b.clone()).unwrap() + c.clone()).unwrap();
    let right = (a + (b + c).unwrap()).unwrap();
    assert_eq!(left, right);
    assert_eq!(left, vector(&[531, 642]));
}

#[test]
fn sum_of_different_lengths_names_both_lengths() {
    let a = vector(&[1]);
    let b = vector(&[1, 2, 3, 4]);
    assert_eq!(
        a.clone() + b.clone(),
        Err(LalgrsError::MismatchedVectorDimensions { vector1: 1, vector2: 4 })
    );
    assert_eq!(
        b + a,
        Err(LalgrsError::MismatchedVectorDimensions { vector1: 4, vector2: 1 })
    );
}

#[test]
fn negation_twice_gives_the_vector_back() {
    let v = vector(&[5, -6, 0, 7]);
    assert_eq!(-(-v.clone()), v);
}

#[test]
fn negation_of_the_empty_vector_is_empty() {
    assert_eq!(-vector(&[]), vector(&[]));
}

#[test]
fn negation_negates_every_element() {
    assert_eq!(-vector(&[1, 2, 3]), vector(&[-1, -2, -3]));
}

#[test]
fn difference_is_the_sum_with_the_negation() {
    let a = vector(&[1, 2, 3]);
    let b = vector(&[2, 3, 4]);
    assert_eq!(a.clone() - b.clone(), a + (-b));
}

#[test]
fn difference_holds_the_differences_of_the_paired_elements() {
    assert_eq!(vector(&[1, 2, 3]) - vector(&[2, 3, 4]), Ok(vector(&[-1, -1, -1])));
}

#[test]
fn difference_with_the_empty_vector() {
    let v = vector(&[9, 8]);
    let empty = vector(&[]);
    assert_eq!(v.clone() - empty.clone(), Ok(v.clone()));
    assert_eq!(empty.clone() - v.clone(), Ok(-v));
    assert_eq!(empty.clone() - empty.clone(), Ok(empty));
}

#[test]
fn difference_of_different_lengths_names_both_lengths() {
    assert_eq!(
        vector(&[1, 2, 3]) - vector(&[1, 2]),
        Err(LalgrsError::MismatchedVectorDimensions { vector1: 3, vector2: 2 })
    );
}

#[test]
fn scaling_multiplies_every_element() {
    let v = vector(&[1, 2, 3]);
    assert_eq!(v.clone() * 2, vector(&[2, 4, 6]));
    assert_eq!(v.clone() * 0, vector(&[0, 0, 0]));
    assert_eq!(v * -3, vector(&[-3, -6, -9]));
}

#[test]
fn scaling_the_empty_vector_gives_the_empty_vector() {
    assert_eq!(vector(&[]) * 5, vector(&[]));
}

#[test]
fn scaling_multiplies_on_the_right() {
    let words = LalgrsVector::new(vec![Word(String::from("a")), Word(String::from("b"))]);
    let scaled = words * Word(String::from("x"));
    assert_eq!(scaled.values, vec![Word(String::from("ax")), Word(String::from("bx"))]);
}

#[test]
fn sum_puts_the_left_element_first() {
    let left = LalgrsVector::new(vec![Word(String::from("a")), Word(String::from("b"))]);
    let right = LalgrsVector::new(vec![Word(String::from("c")), Word(String::from("d"))]);
    let sum = (left + right).unwrap();
    assert_eq!(sum.values, vec![Word(String::from("a+c")), Word(String::from("b+d"))]);
}

#[test]
fn operands_of_a_type_that_is_not_copied_are_duplicated() {
    let v = LalgrsVector::new(vec![Word(String::from("p"))]);
    let copy = v.clone();
    assert_eq!(copy, v);
}

/// An element type whose operators do not commute, to tell the two operands
/// of `+` and `*` apart.
#[derive(Debug, Clone, PartialEq)]
struct Word(String);

impl std::ops::Add for Word {
    type Output = Word;

    fn add(self, rhs: Word) -> Word {
        Word(format!("{}+{}", self.0, rhs.0))
    }
}

impl std::ops::Mul for Word {
    type Output = Word;

    fn mul(self, rhs: Word) -> Word {
        Word(format!("{}{}", self.0, rhs.0))
    }
}
