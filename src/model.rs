//! The integer model of a matrix: a sequence of rows, each a sequence of
//! integers, and the operations of the library stated on it.
use vstd::prelude::*;

use crate::numeric::Numeric;

verus! {

/// Integer grid: a sequence of rows.
pub type Grid = Seq<Seq<int>>;

/// Number of columns: the length of the first row.
pub open spec fn num_cols(m: Grid) -> int {
    m[0].len() as int
}

/// At least one row, at least one column, and every row as long as the first.
pub open spec fn well_formed(m: Grid) -> bool {
    &&& m.len() >= 1
    &&& m[0].len() >= 1
    &&& forall|i: int| 0 <= i < m.len() ==> #[trigger] m[i].len() == m[0].len()
}

/// `rows` rows of `cols` cells, each holding `v`.
pub open spec fn filled(rows: nat, cols: nat, v: int) -> Grid {
    Seq::new(rows, |i: int| Seq::new(cols, |j: int| v))
}

/// Row `j`, column `i` of the result is row `i`, column `j` of `m`.
pub open spec fn transposed(m: Grid) -> Grid {
    Seq::new(num_cols(m) as nat, |j: int| Seq::new(m.len(), |i: int| m[i][j]))
}

/// Two grids with the same number of rows and of columns.
pub open spec fn same_shape(a: Grid, b: Grid) -> bool {
    a.len() == b.len() && num_cols(a) == num_cols(b)
}

/// Cellwise sum.
pub open spec fn sum(a: Grid, b: Grid) -> Grid {
    Seq::new(a.len(), |i: int| Seq::new(num_cols(a) as nat, |j: int| a[i][j] + b[i][j]))
}

/// Cellwise difference.
pub open spec fn difference(a: Grid, b: Grid) -> Grid {
    Seq::new(a.len(), |i: int| Seq::new(num_cols(a) as nat, |j: int| a[i][j] - b[i][j]))
}

/// Every cell multiplied by `s`.
pub open spec fn scaled(m: Grid, s: int) -> Grid {
    Seq::new(m.len(), |i: int| Seq::new(num_cols(m) as nat, |j: int| m[i][j] * s))
}

/// The first `k` terms of the dot product of row `r` of `a` with column `c` of `b`.
pub open spec fn dot(a: Grid, b: Grid, r: int, c: int, k: int) -> int
    decreases k,
{
    if k <= 0 {
        0
    } else {
        dot(a, b, r, c, k - 1) + a[r][k - 1] * b[k - 1][c]
    }
}

/// Matrix product: cell `(r, c)` is the dot product of row `r` of `a` with
/// column `c` of `b`.
pub open spec fn product(a: Grid, b: Grid) -> Grid {
    Seq::new(
        a.len(),
        |r: int| Seq::new(num_cols(b) as nat, |c: int| dot(a, b, r, c, num_cols(a))),
    )
}

/// Every cellwise sum of `a` and `b` can be held by `T`.
pub open spec fn sum_holds<T: Numeric>(a: Grid, b: Grid) -> bool {
    forall|i: int, j: int| 0 <= i < a.len() && 0 <= j < num_cols(a) ==> T::holds(#[trigger] a[i][j] + b[i][j])
}

/// Every cellwise difference of `a` and `b` can be held by `T`.
pub open spec fn difference_holds<T: Numeric>(a: Grid, b: Grid) -> bool {
    forall|i: int, j: int| 0 <= i < a.len() && 0 <= j < num_cols(a) ==> T::holds(#[trigger] a[i][j] - b[i][j])
}

/// Every cell of `m` times `s` can be held by `T`.
pub open spec fn scaled_holds<T: Numeric>(m: Grid, s: int) -> bool {
    forall|i: int, j: int| 0 <= i < m.len() && 0 <= j < num_cols(m) ==> T::holds(#[trigger] m[i][j] * s)
}

/// Every term of every dot product of `a` and `b`, and every partial sum of
/// those terms, can be held by `T`.
pub open spec fn product_holds<T: Numeric>(a: Grid, b: Grid) -> bool {
    forall|r: int, c: int, t: int|
        0 <= r < a.len() && 0 <= c < num_cols(b) && 0 <= t < num_cols(a) ==> {
            &&& T::holds(#[trigger] dot(a, b, r, c, t + 1))
            &&& T::holds(a[r][t] * b[t][c])
        }
}

} // verus!
