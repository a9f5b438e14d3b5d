//! Transposition, scalar multiplication, and the elementwise and matrix
//! products.
use vstd::prelude::*;

use super::Matrix;
use crate::model::{
    difference, difference_holds, dot, num_cols, product, product_holds, same_shape, scaled,
    scaled_holds, sum, sum_holds, transposed, well_formed,
};
use crate::numeric::Numeric;

verus! {

impl<T: Numeric> Matrix<T> {
    /// Returns the transpose of this matrix: row `j`, column `i` of the result
    /// is row `i`, column `j` of this matrix.
    pub fn transpose(&self) -> (r: Self)
        requires
            well_formed(self@),
        ensures
            r@ == transposed(self@),
            r@.len() == num_cols(self@),
            num_cols(r@) == self@.len(),
            well_formed(r@),
    {
        let rows = self.rows();
        let cols = self.cols();
        let mut out: Vec<Vec<T>> = Vec::new();
        let mut j: usize = 0;
        while j < cols
            invariant
                well_formed(self@),
                rows == self@.len(),
                cols == num_cols(self@),
                j <= cols,
                out@.len() == j,
                forall|k: int| 0 <= k < j ==> (#[trigger] out@[k])@.len() == rows,
                forall|k: int, i: int|
                    0 <= k < j && 0 <= i < rows ==> (#[trigger] out@[k]@[i]).value() == self@[i][k],
            decreases cols - j,
        {
            let mut col: Vec<T> = Vec::new();
            let mut i: usize = 0;
            while i < rows
                invariant
                    well_formed(self@),
                    rows == self@.len(),
                    cols == num_cols(self@),
                    j < cols,
                    i <= rows,
                    col@.len() == i,
                    forall|k: int| 0 <= k < i ==> (#[trigger] col@[k]).value() == self@[k][j as int],
                decreases rows - i,
            {
                assert(self@[i as int].len() == cols);
                col.push(self.0[i][j]);
                i = i + 1;
            }
            out.push(col);
            j = j + 1;
        }
        let r = Matrix(out);
        assert(r@ =~~= transposed(self@));
        r
    }

    /// Alias for Matrix::transpose.
    pub fn tp(&self) -> (r: Self)
        requires
            well_formed(self@),
        ensures
            r@ == transposed(self@),
            r@.len() == num_cols(self@),
            num_cols(r@) == self@.len(),
            well_formed(r@),
    {
        self.transpose()
    }

    /// Cellwise sum of two matrices of the same shape.
    ///
    /// Operands of different shapes are a caller error, ruled out by the
    /// precondition, as is a sum that the element type cannot hold.
    pub fn add(&self, rhs: &Self) -> (r: Self)
        requires
            well_formed(self@),
            well_formed(rhs@),
            same_shape(self@, rhs@),
            sum_holds::<T>(self@, rhs@),
        ensures
            r@ == sum(self@, rhs@),
            well_formed(r@),
            same_shape(r@, self@),
    {
        let rows = self.rows();
        let cols = self.cols();
        let mut out: Vec<Vec<T>> = Vec::new();
        let mut i: usize = 0;
        while i < rows
            invariant
                well_formed(self@),
                well_formed(rhs@),
                same_shape(self@, rhs@),
                sum_holds::<T>(self@, rhs@),
                rows == self@.len(),
                cols == num_cols(self@),
                i <= rows,
                out@.len() == i,
                forall|k: int| 0 <= k < i ==> (#[trigger] out@[k])@.len() == cols,
                forall|k: int, j: int|
                    0 <= k < i && 0 <= j < cols ==> (#[trigger] out@[k]@[j]).value() == self@[k][j] + rhs@[k][j],
            decreases rows - i,
        {
            assert(self@[i as int].len() == cols && rhs@[i as int].len() == cols);
            let mut row: Vec<T> = Vec::new();
            let mut j: usize = 0;
            while j < cols
                invariant
                    well_formed(self@),
                    well_formed(rhs@),
                    same_shape(self@, rhs@),
                    sum_holds::<T>(self@, rhs@),
                    rows == self@.len(),
                    cols == num_cols(self@),
                    i < rows,
                    self@[i as int].len() == cols,
                    rhs@[i as int].len() == cols,
                    j <= cols,
                    row@.len() == j,
                    forall|k: int| 0 <= k < j ==> (#[trigger] row@[k]).value() == self@[i as int][k] + rhs@[i as int][k],
                decreases cols - j,
            {
                assert(T::holds(self@[i as int][j as int] + rhs@[i as int][j as int]));
                row.push(self.0[i][j].plus(rhs.0[i][j]));
                j = j + 1;
            }
            out.push(row);
            i = i + 1;
        }
        let r = Matrix(out);
        assert(r@ =~~= sum(self@, rhs@));
        r
    }

    /// Cellwise difference of two matrices of the same shape.
    ///
    /// Operands of different shapes are a caller error, ruled out by the
    /// precondition, as is a difference that the element type cannot hold.
    pub fn subtract(&self, rhs: &Self) -> (r: Self)
        requires
            well_formed(self@),
            well_formed(rhs@),
            same_shape(self@, rhs@),
            difference_holds::<T>(self@, rhs@),
        ensures
            r@ == difference(self@, rhs@),
            well_formed(r@),
            same_shape(r@, self@),
    {
        let rows = self.rows();
        let cols = self.cols();
        let mut out: Vec<Vec<T>> = Vec::new();
        let mut i: usize = 0;
        while i < rows
            invariant
                well_formed(self@),
                well_formed(rhs@),
                same_shape(self@, rhs@),
                difference_holds::<T>(self@, rhs@),
                rows == self@.len(),
                cols == num_cols(self@),
                i <= rows,
                out@.len() == i,
                forall|k: int| 0 <= k < i ==> (#[trigger] out@[k])@.len() == cols,
                forall|k: int, j: int|
                    0 <= k < i && 0 <= j < cols ==> (#[trigger] out@[k]@[j]).value() == self@[k][j] - rhs@[k][j],
            decreases rows - i,
        {
            assert(self@[i as int].len() == cols && rhs@[i as int].len() == cols);
            let mut row: Vec<T> = Vec::new();
            let mut j: usize = 0;
            while j < cols
                invariant
                    well_formed(self@),
                    well_formed(rhs@),
                    same_shape(self@, rhs@),
                    difference_holds::<T>(self@, rhs@),
                    rows == self@.len(),
                    cols == num_cols(self@),
                    i < rows,
                    self@[i as int].len() == cols,
                    rhs@[i as int].len() == cols,
                    j <= cols,
                    row@.len() == j,
                    forall|k: int| 0 <= k < j ==> (#[trigger] row@[k]).value() == self@[i as int][k] - rhs@[i as int][k],
                decreases cols - j,
            {
                assert(T::holds(self@[i as int][j as int] - rhs@[i as int][j as int]));
                row.push(self.0[i][j].minus(rhs.0[i][j]));
                j = j + 1;
            }
            out.push(row);
            i = i + 1;
        }
        let r = Matrix(out);
        assert(r@ =~~= difference(self@, rhs@));
        r
    }

    /// Performs scalar multiplication to the matrix.
    pub fn mul_scalar(&self, scalar: T) -> (r: Self)
        requires
            well_formed(self@),
            scaled_holds::<T>(self@, scalar.value()),
        ensures
            r@ == scaled(self@, scalar.value()),
            well_formed(r@),
            same_shape(r@, self@),
    {
        let rows = self.rows();
        let cols = self.cols();
        let mut out: Vec<Vec<T>> = Vec::new();
        let mut i: usize = 0;
        while i < rows
            invariant
                well_formed(self@),
                scaled_holds::<T>(self@, scalar.value()),
                rows == self@.len(),
                cols == num_cols(self@),
                i <= rows,
                out@.len() == i,
                forall|k: int| 0 <= k < i ==> (#[trigger] out@[k])@.len() == cols,
                forall|k: int, j: int|
                    0 <= k < i && 0 <= j < cols ==> (#[trigger] out@[k]@[j]).value() == self@[k][j] * scalar.value(),
            decreases rows - i,
        {
            assert(self@[i as int].len() == cols);
            let mut row: Vec<T> = Vec::new();
            let mut j: usize = 0;
            while j < cols
                invariant
                    well_formed(self@),
                    scaled_holds::<T>(self@, scalar.value()),
                    rows == self@.len(),
                    cols == num_cols(self@),
                    i < rows,
                    self@[i as int].len() == cols,
                    j <= cols,
                    row@.len() == j,
                    forall|k: int| 0 <= k < j ==> (#[trigger] row@[k]).value() == self@[i as int][k] * scalar.value(),
                decreases cols - j,
            {
                assert(T::holds(self@[i as int][j as int] * scalar.value()));
                row.push(self.0[i][j].times(scalar));
                j = j + 1;
            }
            out.push(row);
            i = i + 1;
        }
        let r = Matrix(out);
        assert(r@ =~~= scaled(self@, scalar.value()));
        r
    }

    /// Performs the matrix dot product operation: cell `(r, c)` of the result
    /// is the sum over `t` of `self[r][t] * rhs[t][c]`, accumulated from zero.
    ///
    /// A left operand whose column count differs from the right operand's row
    /// count is a caller error, ruled out by the precondition, as is a term or
    /// partial sum that the element type cannot hold.
    pub fn multiply(&self, rhs: &Self) -> (r: Self)
        requires
            well_formed(self@),
            well_formed(rhs@),
            num_cols(self@) == rhs@.len(),
            product_holds::<T>(self@, rhs@),
        ensures
            r@ == product(self@, rhs@),
            well_formed(r@),
            r@.len() == self@.len(),
            num_cols(r@) == num_cols(rhs@),
    {
        let rows = self.rows();
        let cols = rhs.cols();
        let terms = self.cols();
        let mut out: Vec<Vec<T>> = Vec::new();
        let mut r: usize = 0;
        while r < rows
            invariant
                well_formed(self@),
                well_formed(rhs@),
                num_cols(self@) == rhs@.len(),
                product_holds::<T>(self@, rhs@),
                rows == self@.len(),
                cols == num_cols(rhs@),
                terms == num_cols(self@),
                r <= rows,
                out@.len() == r,
                forall|k: int| 0 <= k < r ==> (#[trigger] out@[k])@.len() == cols,
                forall|k: int, c: int|
                    0 <= k < r && 0 <= c < cols ==> (#[trigger] out@[k]@[c]).value() == dot(self@, rhs@, k, c, terms as int),
            decreases rows - r,
        {
            assert(self@[r as int].len() == terms);
            let mut row: Vec<T> = Vec::new();
            let mut c: usize = 0;
            while c < cols
                invariant
                    well_formed(self@),
                    well_formed(rhs@),
                    num_cols(self@) == rhs@.len(),
                    product_holds::<T>(self@, rhs@),
                    rows == self@.len(),
                    cols == num_cols(rhs@),
                    terms == num_cols(self@),
                    r < rows,
                    self@[r as int].len() == terms,
                    c <= cols,
                    row@.len() == c,
                    forall|k: int| 0 <= k < c ==> (#[trigger] row@[k]).value() == dot(self@, rhs@, r as int, k, terms as int),
                decreases cols - c,
            {
                let mut acc = T::zero();
                let mut t: usize = 0;
                while t < terms
                    invariant
                        well_formed(self@),
                        well_formed(rhs@),
                        num_cols(self@) == rhs@.len(),
                        product_holds::<T>(self@, rhs@),
                        rows == self@.len(),
                        cols == num_cols(rhs@),
                        terms == num_cols(self@),
                        r < rows,
                        c < cols,
                        self@[r as int].len() == terms,
                        t <= terms,
                        acc.value() == dot(self@, rhs@, r as int, c as int, t as int),
                    decreases terms - t,
                {
                    assert(rhs@[t as int].len() == cols);
                    assert(T::holds(dot(self@, rhs@, r as int, c as int, t + 1)));
                    assert(T::holds(self@[r as int][t as int] * rhs@[t as int][c as int]));
                    let term = self.0[r][t].times(rhs.0[t][c]);
                    acc = acc.plus(term);
                    t = t + 1;
                }
                row.push(acc);
                c = c + 1;
            }
            out.push(row);
            r = r + 1;
        }
        let m = Matrix(out);
        assert(m@ =~~= product(self@, rhs@));
        m
    }

    /// Performs the matrix dot product operation, taking both operands.
    pub fn dot_prod(m1: Self, m2: Self) -> (r: Self)
        requires
            well_formed(m1@),
            well_formed(m2@),
            num_cols(m1@) == m2@.len(),
            product_holds::<T>(m1@, m2@),
        ensures
            r@ == product(m1@, m2@),
            well_formed(r@),
            r@.len() == m1@.len(),
            num_cols(r@) == num_cols(m2@),
    {
        m1.multiply(&m2)
    }
}

} // verus!
