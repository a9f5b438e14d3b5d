//! Dense, rectangular matrices over integer element types, with transposition,
//! scalar multiplication, elementwise addition and subtraction, and the matrix
//! product, each proved against an integer model of the matrix.
pub mod algebra;
pub mod matrix;
pub mod model;
pub mod numeric;

pub use matrix::Matrix;
pub use numeric::Numeric;
