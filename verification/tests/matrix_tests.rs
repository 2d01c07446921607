use res_controller::matrix::{copy_of, copy_row, extend_row, hstack, Matrix};

#[test]
fn rows_of_unequal_length_are_no_matrix() {
    assert!(Matrix::try_from_rows(2, vec![vec![1, 2], vec![3]]).is_none());
    assert!(Matrix::try_from_rows(3, vec![vec![1, 2]]).is_none());
    let m = Matrix::try_from_rows(2, vec![vec![1, 2], vec![3, 4]]).unwrap();
    assert_eq!(m.nrows(), 2);
    assert_eq!(m.ncols(), 2);
    assert_eq!(m.get(1, 0), 3);
    assert_eq!(m.into_rows(), vec![vec![1, 2], vec![3, 4]]);
}

#[test]
fn a_matrix_without_rows_keeps_its_width() {
    let m: Matrix<u8> = Matrix::empty(7);
    assert_eq!(m.nrows(), 0);
    assert_eq!(m.ncols(), 7);
    let m: Matrix<u8> = Matrix::try_from_rows(7, Vec::new()).unwrap();
    assert_eq!(m.ncols(), 7);
}

#[test]
fn filled_and_duplicate() {
    let m = Matrix::filled(2, 3, 9i32);
    assert_eq!(m.nrows(), 2);
    assert_eq!(m.ncols(), 3);
    assert_eq!(m.row(1), &vec![9, 9, 9]);
    let d = m.duplicate();
    assert_eq!(d.into_rows(), m.into_rows());
    let m = Matrix::filled(3, 0, 9i32);
    assert_eq!(m.nrows(), 3);
    assert_eq!(m.ncols(), 0);
}

#[test]
fn hstack_puts_rows_side_by_side() {
    let left = Matrix::try_from_rows(2, vec![vec![1, 2], vec![3, 4]]).unwrap();
    let right = Matrix::try_from_rows(1, vec![vec![5], vec![6]]).unwrap();
    let out = hstack(left, right);
    assert_eq!(out.ncols(), 3);
    assert_eq!(out.into_rows(), vec![vec![1, 2, 5], vec![3, 4, 6]]);
}

#[test]
fn hstack_with_nothing_on_the_right_is_the_left() {
    let left = Matrix::try_from_rows(2, vec![vec![1, 2], vec![3, 4]]).unwrap();
    // The row count of a right side without columns does not matter.
    let right: Matrix<i32> = Matrix::filled(5, 0, 0);
    let out = hstack(left, right);
    assert_eq!(out.into_rows(), vec![vec![1, 2], vec![3, 4]]);
}

#[test]
fn hstack_onto_nothing_on_the_left() {
    let left: Matrix<i32> = Matrix::filled(2, 0, 0);
    let right = Matrix::try_from_rows(1, vec![vec![5], vec![6]]).unwrap();
    let out = hstack(left, right);
    assert_eq!(out.into_rows(), vec![vec![5], vec![6]]);
}

#[test]
fn row_helpers() {
    assert_eq!(copy_of('x', 3), vec!['x', 'x', 'x']);
    assert_eq!(copy_row(&vec![1, 2, 3]), vec![1, 2, 3]);
    let mut v = vec![1];
    extend_row(&mut v, &vec![2, 3]);
    assert_eq!(v, vec![1, 2, 3]);
    let m = Matrix::from_row(vec![4, 5]);
    assert_eq!(m.nrows(), 1);
    assert_eq!(m.ncols(), 2);
}
