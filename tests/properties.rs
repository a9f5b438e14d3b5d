use rustrix::Matrix;

#[test]
fn fill_equals_literal_table() {
    let m = Matrix::fill(2, 3, 1);
    assert_eq!(m, Matrix::from(vec![vec![1, 1, 1], vec![1, 1, 1]]));
}

#[test]
fn fill_with_no_rows_is_empty() {
    let m: Matrix<i32> = Matrix::fill(0, 3, 7);
    assert_eq!(m.rows(), 0);
    assert_eq!(m, Matrix(Vec::new()));
}

#[test]
fn zeros_is_fill_with_zero() {
    let m: Matrix<i64> = Matrix::zeros(2, 2);
    assert_eq!(m, Matrix::fill(2, 2, 0));
}

#[test]
fn fill_sum_scenario() {
    let m = Matrix::fill(3, 3, 2).add(&Matrix::fill(3, 3, 3));
    assert_eq!(m, Matrix::fill(3, 3, 5));
}

#[test]
fn fill_difference_scenario() {
    let m = Matrix::fill(3, 3, 2).subtract(&Matrix::fill(3, 3, 3));
    assert_eq!(m, Matrix::fill(3, 3, -1));
}

#[test]
fn product_scenario() {
    let a = Matrix::from(vec![vec![1, 1, 1], vec![2, 2, 2]]);
    let b = Matrix::from(vec![vec![1, 1, 1, 1], vec![2, 2, 2, 2], vec![3, 3, 3, 3]]);
    let expected = Matrix::from(vec![vec![6, 6, 6, 6], vec![12, 12, 12, 12]]);
    assert_eq!(a.multiply(&b), expected);
}

#[test]
fn product_of_non_uniform_matrices() {
    let a = Matrix::from(vec![vec![1, 2], vec![3, 4]]);
    let b = Matrix::from(vec![vec![5, 6], vec![7, 8]]);
    assert_eq!(a.multiply(&b), Matrix::from(vec![vec![19, 22], vec![43, 50]]));
}

#[test]
fn dot_prod_matches_multiply() {
    let a = Matrix::from(vec![vec![3i64, 2, 1]]);
    let b = Matrix::from(vec![vec![1i64], vec![2], vec![3]]);
    assert_eq!(Matrix::dot_prod(a.clone(), b.clone()), a.multiply(&b));
    assert_eq!(a.multiply(&b), Matrix::from(vec![vec![10i64]]));
}

#[test]
fn transpose_scenario() {
    let m = Matrix::from(vec![vec![1, 2], vec![3, 4], vec![5, 6]]);
    assert_eq!(m.transpose(), Matrix::from(vec![vec![1, 3, 5], vec![2, 4, 6]]));
}

#[test]
fn tp_is_transpose() {
    let m = Matrix::from(vec![vec![1, 2, 3], vec![4, 5, 6]]);
    assert_eq!(m.tp(), m.transpose());
}

#[test]
fn mul_scalar_scenario() {
    let m = Matrix::from(vec![vec![1, 2, 3], vec![4, 5, 6]]);
    assert_eq!(m.mul_scalar(2), Matrix::from(vec![vec![2, 4, 6], vec![8, 10, 12]]));
}

#[test]
fn transpose_twice_gives_back_the_matrix() {
    let m = Matrix::from(vec![vec![1, 2, 3], vec![4, 5, 6]]);
    assert_eq!(m.transpose().transpose(), m);
}

#[test]
fn transpose_swaps_the_shape() {
    let m = Matrix::from(vec![vec![1, 2, 3, 4], vec![5, 6, 7, 8]]);
    let t = m.transpose();
    assert_eq!(t.rows(), m.cols());
    assert_eq!(t.cols(), m.rows());
    assert_eq!(t.rows(), 4);
    assert_eq!(t.cols(), 2);
}

#[test]
fn addition_commutes() {
    let a = Matrix::from(vec![vec![1, -2], vec![3, 9]]);
    let b = Matrix::from(vec![vec![7, 5], vec![-4, 0]]);
    assert_eq!(a.add(&b), b.add(&a));
    assert_eq!(a.add(&b), Matrix::from(vec![vec![8, 3], vec![-1, 9]]));
}

#[test]
fn matrix_minus_itself_is_zero() {
    let a = Matrix::from(vec![vec![1, -2, 5], vec![3, 9, 11]]);
    assert_eq!(a.subtract(&a), Matrix::zeros(2, 3));
}

#[test]
fn product_has_outer_shape() {
    let a = Matrix::fill(2, 5, 1);
    let b = Matrix::fill(5, 3, 2);
    let p = a.multiply(&b);
    assert_eq!(p.rows(), 2);
    assert_eq!(p.cols(), 3);
    assert_eq!(p, Matrix::fill(2, 3, 10));
}

#[test]
fn product_distributes_over_sum() {
    let a = Matrix::from(vec![vec![1, 2], vec![3, 4], vec![-1, 0]]);
    let b = Matrix::from(vec![vec![5, 6, 7], vec![8, 9, 10]]);
    let c = Matrix::from(vec![vec![-1, 0, 2], vec![4, -3, 1]]);
    assert_eq!(a.multiply(&b.add(&c)), a.multiply(&b).add(&a.multiply(&c)));
}

#[test]
fn get_reads_a_cell() {
    let m = Matrix::from(vec![vec![1, 2, 3], vec![4, 5, 6]]);
    assert_eq!(m.get(0, 2), 3);
    assert_eq!(m.get(1, 0), 4);
}

#[test]
fn set_overwrites_one_cell() {
    let mut m = Matrix::fill(2, 2, 0);
    m.set(1, 0, 9);
    assert_eq!(m, Matrix::from(vec![vec![0, 0], vec![9, 0]]));
    assert_eq!(m.get(1, 0), 9);
}

#[test]
fn single_cell_matrix() {
    let m = Matrix::from(vec![vec![-7i64]]);
    assert_eq!(m.rows(), 1);
    assert_eq!(m.cols(), 1);
    assert_eq!(m.transpose(), m);
    assert_eq!(m.mul_scalar(-3), Matrix::from(vec![vec![21i64]]));
    assert_eq!(m.multiply(&m), Matrix::from(vec![vec![49i64]]));
}

#[test]
fn large_values_in_i64() {
    let m = Matrix::from(vec![vec![i64::MAX - 1], vec![i64::MIN + 1]]);
    let n = Matrix::from(vec![vec![1i64], vec![-1]]);
    assert_eq!(m.add(&n), Matrix::from(vec![vec![i64::MAX], vec![i64::MIN]]));
}
