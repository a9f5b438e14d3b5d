//! The matrix type, its constructors and its element accessors.
use vstd::prelude::*;

use crate::model::{filled, Grid};
use crate::numeric::Numeric;

mod ops;

verus! {

/// A dense matrix stored row by row.
///
/// A well-formed matrix has at least one row, at least one column, and rows
/// of equal length; the operations state when they need that.
#[derive(Clone, Debug, PartialEq)]
pub struct Matrix<T>(pub Vec<Vec<T>>);

impl<T: Numeric> View for Matrix<T> {
    type V = Grid;

    open spec fn view(&self) -> Grid {
        Seq::new(self.0@.len(), |i: int| Seq::new(self.0@[i]@.len(), |j: int| self.0@[i]@[j].value()))
    }
}

impl<T: Numeric> From<Vec<Vec<T>>> for Matrix<T> {
    /// The matrix holding exactly the given rows, in order.
    fn from(v: Vec<Vec<T>>) -> (r: Self) {
        Matrix(v)
    }
}

impl<T: Numeric> vstd::std_specs::convert::FromSpecImpl<Vec<Vec<T>>> for Matrix<T> {
    open spec fn obeys_from_spec() -> bool {
        true
    }

    open spec fn from_spec(v: Vec<Vec<T>>) -> Self {
        Matrix(v)
    }
}

impl<T: Numeric> Matrix<T> {
    /// A matrix of `rows` rows and `cols` columns, each cell holding `value`.
    pub fn fill(rows: usize, cols: usize, value: T) -> (r: Self)
        ensures
            r@ == filled(rows as nat, cols as nat, value.value()),
    {
        let mut m: Vec<Vec<T>> = Vec::new();
        let mut i: usize = 0;
        while i < rows
            invariant
                i <= rows,
                m@.len() == i,
                forall|k: int| 0 <= k < i ==> (#[trigger] m@[k])@ == Seq::new(cols as nat, |j: int| value),
            decreases rows - i,
        {
            let mut row: Vec<T> = Vec::new();
            let mut j: usize = 0;
            while j < cols
                invariant
                    j <= cols,
                    row@ == Seq::new(j as nat, |k: int| value),
                decreases cols - j,
            {
                row.push(value);
                j = j + 1;
                assert(row@ =~= Seq::new(j as nat, |k: int| value));
            }
            m.push(row);
            i = i + 1;
        }
        let r = Matrix(m);
        assert(r@ =~~= filled(rows as nat, cols as nat, value.value()));
        r
    }

    /// A matrix of `rows` rows and `cols` columns, each cell holding zero.
    pub fn zeros(rows: usize, cols: usize) -> (r: Self)
        ensures
            r@ == filled(rows as nat, cols as nat, 0),
    {
        Self::fill(rows, cols, T::zero())
    }

    /// Returns the number of rows in the matrix.
    pub fn rows(&self) -> (r: usize)
        ensures
            r == self@.len(),
    {
        self.0.len()
    }

    /// Returns the number of columns in the matrix: the length of its first row.
    pub fn cols(&self) -> (r: usize)
        requires
            self@.len() >= 1,
        ensures
            r == self@[0].len(),
    {
        self.0[0].len()
    }

    /// Returns the value at given row, column.
    pub fn get(&self, row: usize, col: usize) -> (r: T)
        requires
            row < self@.len(),
            col < self@[row as int].len(),
        ensures
            r == self.0@[row as int]@[col as int],
            r.value() == self@[row as int][col as int],
    {
        self.0[row][col]
    }

    /// Sets the value at given row, column.
    pub fn set(&mut self, row: usize, col: usize, value: T)
        requires
            row < old(self)@.len(),
            col < old(self)@[row as int].len(),
        ensures
            final(self).0@.len() == old(self).0@.len(),
            final(self).0@[row as int]@ == old(self).0@[row as int]@.update(col as int, value),
            forall|i: int| 0 <= i < old(self).0@.len() && i != row ==> #[trigger] final(self).0@[i] == old(self).0@[i],
            final(self)@ == old(self)@.update(row as int, old(self)@[row as int].update(col as int, value.value())),
    {
        self.0[row][col] = value;
        assert(self@ =~~= old(self)@.update(row as int, old(self)@[row as int].update(col as int, value.value())));
    }
}

} // verus!
