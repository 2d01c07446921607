//! Dense row-major matrices over an arbitrary scalar type.
//!
//! The matrix type is generic in its element type, and its mathematical
//! model is a sequence of equally long rows. What is here moves entries
//! around and never computes with them.

use vstd::prelude::*;

verus! {

/// The rows of a vector of vectors, each taken by its view.
pub open spec fn rows_view<T>(rows: Seq<Vec<T>>) -> Seq<Seq<T>> {
    Seq::new(rows.len(), |i: int| rows[i]@)
}

/// Every row of `m` has exactly `ncols` entries.
pub open spec fn rectangular<T>(m: Seq<Seq<T>>, ncols: nat) -> bool {
    forall|i: int| 0 <= i < m.len() ==> (#[trigger] m[i]).len() == ncols
}

/// `nrows` copies of a row made of `ncols` copies of `value`.
pub open spec fn filled_spec<T>(nrows: nat, ncols: nat, value: T) -> Seq<Seq<T>> {
    Seq::new(nrows, |i: int| Seq::new(ncols, |j: int| value))
}

/// The rows of `left`, each followed by the row of `right` at the same index.
pub open spec fn hstack_rows<T>(left: Seq<Seq<T>>, right: Seq<Seq<T>>) -> Seq<Seq<T>> {
    Seq::new(left.len(), |i: int| left[i] + right[i])
}

/// What `hstack` returns: `left` itself when `right` has no columns, else the
/// row-wise concatenation.
pub open spec fn hstack_spec<T>(left: Seq<Seq<T>>, right: Seq<Seq<T>>, right_cols: nat) -> Seq<
    Seq<T>,
> {
    if right_cols == 0 {
        left
    } else {
        hstack_rows(left, right)
    }
}

/// `m` with rows and columns exchanged; `ncols` is the column count of `m`.
pub open spec fn transpose_spec<T>(m: Seq<Seq<T>>, ncols: nat) -> Seq<Seq<T>> {
    Seq::new(ncols, |j: int| Seq::new(m.len(), |i: int| m[i][j]))
}

/// A dense matrix with `nrows() x ncols()` entries, stored row by row.
///
/// The column count is kept explicitly so that a matrix without rows still
/// has a shape.
#[derive(Debug)]
pub struct Matrix<T> {
    ncols: usize,
    rows: Vec<Vec<T>>,
}

impl<T> View for Matrix<T> {
    type V = Seq<Seq<T>>;

    closed spec fn view(&self) -> Seq<Seq<T>> {
        rows_view(self.rows@)
    }
}

impl<T> Matrix<T> {
    #[verifier::type_invariant]
    spec fn inv(&self) -> bool {
        rectangular(rows_view(self.rows@), self.ncols as nat)
    }

    /// The number of columns.
    pub closed spec fn cols(&self) -> nat {
        self.ncols as nat
    }

    /// Builds a matrix from rows that are known to have `ncols` entries each.
    pub fn from_rows(ncols: usize, rows: Vec<Vec<T>>) -> (m: Self)
        requires
            rectangular(rows_view(rows@), ncols as nat),
        ensures
            m@ == rows_view(rows@),
            m.cols() == ncols,
    {
        Matrix { ncols, rows }
    }

    /// Builds a matrix from rows, or returns `None` when some row does not
    /// have `ncols` entries.
    pub fn try_from_rows(ncols: usize, rows: Vec<Vec<T>>) -> (r: Option<Self>)
        ensures
            r is Some <==> rectangular(rows_view(rows@), ncols as nat),
            r matches Some(m) ==> m@ == rows_view(rows@) && m.cols() == ncols,
    {
        let mut i: usize = 0;
        while i < rows.len()
            invariant
                i <= rows.len(),
                forall|k: int| 0 <= k < i ==> (#[trigger] rows_view(rows@)[k]).len() == ncols,
            decreases rows.len() - i,
        {
            if rows[i].len() != ncols {
                assert(rows_view(rows@)[i as int].len() != ncols);
                return None;
            }
            i += 1;
        }
        Some(Matrix { ncols, rows })
    }

    /// The matrix with no rows and `ncols` columns.
    pub fn empty(ncols: usize) -> (m: Self)
        ensures
            m@ == Seq::<Seq<T>>::empty(),
            m.cols() == ncols,
    {
        let rows: Vec<Vec<T>> = Vec::new();
        assert(rows_view(rows@) =~= Seq::<Seq<T>>::empty());
        Matrix { ncols, rows }
    }

    /// The matrix with the single row `row`.
    pub fn from_row(row: Vec<T>) -> (m: Self)
        ensures
            m@ == seq![row@],
            m.cols() == row@.len(),
    {
        let ncols = row.len();
        let mut rows: Vec<Vec<T>> = Vec::new();
        rows.push(row);
        assert(rows_view(rows@) =~= seq![row@]);
        Matrix { ncols, rows }
    }

    /// The number of rows.
    pub fn nrows(&self) -> (n: usize)
        ensures
            n == self@.len(),
            rectangular(self@, self.cols()),
    {
        proof {
            use_type_invariant(self);
        }
        self.rows.len()
    }

    /// The number of columns.
    pub fn ncols(&self) -> (n: usize)
        ensures
            n == self.cols(),
            rectangular(self@, self.cols()),
    {
        proof {
            use_type_invariant(self);
        }
        self.ncols
    }

    /// The row at index `i`.
    pub fn row(&self, i: usize) -> (r: &Vec<T>)
        requires
            i < self@.len(),
        ensures
            r@ == self@[i as int],
            r@.len() == self.cols(),
    {
        proof {
            use_type_invariant(self);
            assert(rows_view(self.rows@)[i as int].len() == self.ncols);
        }
        &self.rows[i]
    }

    /// Gives the rows back.
    pub fn into_rows(self) -> (rows: Vec<Vec<T>>)
        ensures
            rows_view(rows@) == self@,
            rectangular(self@, self.cols()),
    {
        proof {
            use_type_invariant(&self);
        }
        self.rows
    }
}

impl<T: Copy> Matrix<T> {
    /// The entry in row `i` and column `j`.
    pub fn get(&self, i: usize, j: usize) -> (x: T)
        requires
            i < self@.len(),
            j < self.cols(),
        ensures
            x == self@[i as int][j as int],
    {
        let r = self.row(i);
        r[j]
    }

    /// The `nrows x ncols` matrix whose every entry is `value`.
    pub fn filled(nrows: usize, ncols: usize, value: T) -> (m: Self)
        ensures
            m@ == filled_spec(nrows as nat, ncols as nat, value),
            m.cols() == ncols,
    {
        let mut rows: Vec<Vec<T>> = Vec::new();
        let mut i: usize = 0;
        while i < nrows
            invariant
                i <= nrows,
                rows@.len() == i,
                forall|k: int| 0 <= k < i ==> (#[trigger] rows@[k])@ == Seq::new(ncols as nat, |j: int| value),
            decreases nrows - i,
        {
            let row = copy_of(value, ncols);
            rows.push(row);
            i += 1;
        }
        assert(rows_view(rows@) =~= filled_spec(nrows as nat, ncols as nat, value));
        Matrix { ncols, rows }
    }

    /// A copy of the matrix.
    pub fn duplicate(&self) -> (m: Self)
        ensures
            m@ == self@,
            m.cols() == self.cols(),
    {
        proof {
            use_type_invariant(self);
        }
        let mut rows: Vec<Vec<T>> = Vec::new();
        let mut i: usize = 0;
        while i < self.rows.len()
            invariant
                i <= self.rows@.len(),
                rows@.len() == i,
                forall|k: int| 0 <= k < i ==> (#[trigger] rows@[k])@ == self.rows@[k]@,
            decreases self.rows@.len() - i,
        {
            let row = copy_row(&self.rows[i]);
            rows.push(row);
            i += 1;
        }
        assert(rows_view(rows@) =~= rows_view(self.rows@));
        Matrix { ncols: self.ncols, rows }
    }
}

/// A vector of `n` copies of `value`.
pub fn copy_of<T: Copy>(value: T, n: usize) -> (v: Vec<T>)
    ensures
        v@ == Seq::new(n as nat, |j: int| value),
{
    let mut v: Vec<T> = Vec::new();
    let mut j: usize = 0;
    while j < n
        invariant
            j <= n,
            v@.len() == j,
            forall|k: int| 0 <= k < j ==> v@[k] == value,
        decreases n - j,
    {
        v.push(value);
        j += 1;
    }
    assert(v@ =~= Seq::new(n as nat, |j: int| value));
    v
}

/// A copy of `row`.
pub fn copy_row<T: Copy>(row: &Vec<T>) -> (v: Vec<T>)
    ensures
        v@ == row@,
{
    let mut v: Vec<T> = Vec::new();
    let mut j: usize = 0;
    while j < row.len()
        invariant
            j <= row@.len(),
            v@ == row@.take(j as int),
        decreases row@.len() - j,
    {
        v.push(row[j]);
        assert(row@.take(j + 1) =~= row@.take(j as int).push(row@[j as int]));
        j += 1;
    }
    assert(row@.take(row@.len() as int) =~= row@);
    v
}

/// Appends the entries of `src` to `dst`.
pub fn extend_row<T: Copy>(dst: &mut Vec<T>, src: &Vec<T>)
    ensures
        final(dst)@ == old(dst)@ + src@,
{
    let mut j: usize = 0;
    while j < src.len()
        invariant
            j <= src@.len(),
            dst@ == old(dst)@ + src@.take(j as int),
        decreases src@.len() - j,
    {
        dst.push(src[j]);
        assert(src@.take(j + 1) =~= src@.take(j as int).push(src@[j as int]));
        assert(old(dst)@ + src@.take(j + 1) =~= (old(dst)@ + src@.take(j as int)).push(
            src@[j as int],
        ));
        j += 1;
    }
    assert(src@.take(src@.len() as int) =~= src@);
}

/// Stacks two matrices side by side. A `right` without columns leaves `left`
/// as it is, whatever the row count of `right`.
pub fn hstack<T: Copy>(left: Matrix<T>, right: Matrix<T>) -> (out: Matrix<T>)
    requires
        right.cols() != 0 ==> left@.len() == right@.len(),
        left.cols() + right.cols() <= usize::MAX,
    ensures
        out@ == hstack_spec(left@, right@, right.cols()),
        out.cols() == left.cols() + right.cols(),
{
    if right.ncols() == 0 {
        return left;
    }
    let n = left.nrows();
    let ncols = left.ncols() + right.ncols();
    let mut rows: Vec<Vec<T>> = Vec::new();
    let mut i: usize = 0;
    while i < n
        invariant
            i <= n,
            n == left@.len(),
            n == right@.len(),
            ncols == left.cols() + right.cols(),
            rows@.len() == i,
            forall|k: int| 0 <= k < i ==> (#[trigger] rows@[k])@ == left@[k] + right@[k],
        decreases n - i,
    {
        let mut row = copy_row(left.row(i));
        extend_row(&mut row, right.row(i));
        rows.push(row);
        i += 1;
    }
    assert(rows_view(rows@) =~= hstack_rows(left@, right@));
    Matrix::from_rows(ncols, rows)
}

} // verus!
