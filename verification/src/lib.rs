//! Vectors and matrices over a numeric element type, with arithmetic that
//! checks the shapes of its operands and reports a mismatch as an error.
//!
//! The types and their operators are in `vector` and `matrix`. Their
//! contracts are stated over sequences, by the functions in `vector_model`
//! and `matrix_model`; what follows from these functions is proved in the
//! modules whose names end in `laws`.

pub mod element;
pub mod error;
pub mod fold_laws;
pub mod matrix;
pub mod matrix_laws;
pub mod matrix_model;
pub mod product_laws;
pub mod vector;
pub mod vector_laws;
pub mod vector_model;

pub use error::LalgrsError;
pub use matrix::LalgrsMatrix;
pub use vector::LalgrsVector;
