//! Laws that relate the operations, proved on the integer model.
use vstd::prelude::*;

use crate::model::{
    difference, dot, filled, num_cols, product, same_shape, sum, transposed, well_formed, Grid,
};

verus! {

/// A filled matrix equals the table, written out cell by cell, with the same
/// number of rows and columns and the same value in every cell.
pub proof fn lemma_fill_is_literal(table: Grid, rows: nat, cols: nat, v: int)
    requires
        table.len() == rows,
        forall|i: int| 0 <= i < rows ==> #[trigger] table[i].len() == cols,
        forall|i: int, j: int| 0 <= i < rows && 0 <= j < cols ==> #[trigger] table[i][j] == v,
    ensures
        filled(rows, cols, v) == table,
{
    assert(filled(rows, cols, v) =~~= table);
}

/// Transposing twice gives back the matrix.
pub proof fn lemma_transpose_involution(m: Grid)
    requires
        well_formed(m),
    ensures
        transposed(transposed(m)) == m,
{
    assert(transposed(transposed(m)) =~~= m);
}

/// The transpose has as many rows as the matrix has columns, and as many
/// columns as it has rows.
pub proof fn lemma_transpose_shape(m: Grid)
    requires
        well_formed(m),
    ensures
        transposed(m).len() == num_cols(m),
        num_cols(transposed(m)) == m.len(),
        well_formed(transposed(m)),
{
}

/// Addition commutes.
pub proof fn lemma_sum_commutes(a: Grid, b: Grid)
    requires
        well_formed(a),
        well_formed(b),
        same_shape(a, b),
    ensures
        sum(a, b) == sum(b, a),
{
    assert(sum(a, b) =~~= sum(b, a));
}

/// A matrix minus itself is the matrix of zeros of its shape.
pub proof fn lemma_difference_self(a: Grid)
    requires
        well_formed(a),
    ensures
        difference(a, a) == filled(a.len(), num_cols(a) as nat, 0),
{
    assert(difference(a, a) =~~= filled(a.len(), num_cols(a) as nat, 0));
}

/// The product of an `m` by `k` matrix and a `k` by `n` matrix is an `m` by
/// `n` matrix.
pub proof fn lemma_product_shape(a: Grid, b: Grid)
    requires
        well_formed(a),
        well_formed(b),
        num_cols(a) == b.len(),
    ensures
        product(a, b).len() == a.len(),
        num_cols(product(a, b)) == num_cols(b),
        well_formed(product(a, b)),
{
}

/// A dot product against a sum of columns is the sum of the two dot products.
proof fn lemma_dot_distributes(a: Grid, b: Grid, c: Grid, r: int, col: int, k: int)
    requires
        well_formed(b),
        well_formed(c),
        same_shape(b, c),
        0 <= col < num_cols(b),
        0 <= k <= b.len(),
    ensures
        dot(a, sum(b, c), r, col, k) == dot(a, b, r, col, k) + dot(a, c, r, col, k),
    decreases k,
{
    if k > 0 {
        lemma_dot_distributes(a, b, c, r, col, k - 1);
        let x = a[r][k - 1];
        let y = b[k - 1][col];
        let z = c[k - 1][col];
        assert(sum(b, c)[k - 1][col] == y + z);
        assert(x * (y + z) == x * y + x * z) by (nonlinear_arith);
    }
}

/// Multiplication distributes over addition on the left:
/// `a * (b + c) == a * b + a * c`.
pub proof fn lemma_product_distributes(a: Grid, b: Grid, c: Grid)
    requires
        well_formed(a),
        well_formed(b),
        well_formed(c),
        same_shape(b, c),
        num_cols(a) == b.len(),
    ensures
        product(a, sum(b, c)) == sum(product(a, b), product(a, c)),
{
    let lhs = product(a, sum(b, c));
    let rhs = sum(product(a, b), product(a, c));
    assert forall|r: int, col: int| 0 <= r < a.len() && 0 <= col < num_cols(b) implies
        #[trigger] lhs[r][col] == rhs[r][col] by {
        lemma_dot_distributes(a, b, c, r, col, num_cols(a));
    }
    assert(lhs =~~= rhs);
}

} // verus!
