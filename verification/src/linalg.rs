//! The operations of linear algebra that the controllers are built from, and
//! the random draws.
//!
//! A product of matrices, a singular value decomposition or the largest
//! eigenvalue of a matrix is not computed in this crate: whoever uses it
//! supplies them by implementing `MatrixOps`. What they return depends on
//! what their arguments hold and on nothing else, and it has the shape that
//! the operation is known for: `matrix_ops_ok`. What is done entry by entry
//! (a sum of two matrices, the centering of columns, a transposition) is
//! done here.

use crate::matrix::{rectangular, rows_view, transpose_spec, Matrix};
use crate::scalar::{negated, scalar_ops_ok, sum, ScalarOps};
use vstd::prelude::*;

verus! {

/// The operations of linear algebra on scalars of type `T`.
pub trait MatrixOps<T>: ScalarOps<T> {
    /// The mean of the entries of `v`.
    fn mean(&self, v: &Vec<T>) -> T;

    /// The scalar product of `a` and `b`.
    fn dot(&self, a: &Vec<T>, b: &Vec<T>) -> T
        requires
            a@.len() == b@.len(),
    ;

    /// The product of the matrix `m` and the vector `v`.
    fn times_vector(&self, m: &Matrix<T>, v: &Vec<T>) -> Vec<T>
        requires
            m.cols() == v@.len(),
    ;

    /// The product of the matrices `a` and `b`.
    fn times_matrix(&self, a: &Matrix<T>, b: &Matrix<T>) -> Matrix<T>
        requires
            a.cols() == b@.len(),
    ;

    /// The singular value decomposition of `m`, with the singular values
    /// in descending order: the left singular vectors as columns where
    /// `compute_u` asks for them, the singular values, and the right
    /// singular vectors as rows where `compute_v` asks for them.
    fn svd(&self, m: Matrix<T>, compute_u: bool, compute_v: bool) -> (
        Option<Matrix<T>>,
        Vec<T>,
        Option<Matrix<T>>,
    )
        requires
            m@.len() > 0,
            m.cols() > 0,
    ;

    /// The largest magnitude of the eigenvalues of the square matrix `m`.
    fn spectral_radius(&self, m: &Matrix<T>) -> T
        requires
            m@.len() == m.cols(),
    ;
}

/// Random draws from a generator that nobody seeds: what is made from them
/// differs from one time to the next.
pub trait Draws<T> {
    /// A draw from the uniform distribution between minus a half and a half.
    fn draw_weight(&self) -> T;

    /// Whether a weight is kept, with the chance `connectivity`.
    fn draw_mask(&self, connectivity: T) -> bool;
}

/// Random draws from a seeded generator. A generator is a value: a draw
/// takes the generator before it and gives the generator after it, so that
/// what is made of the draws of a seed is the same whenever it is made.
pub trait SeededDraws<T> {
    /// A generator between two draws.
    type Stream;

    /// The generator that `seed` starts.
    fn seeded(&self, seed: u64) -> Self::Stream;

    /// A draw from the uniform distribution between `low` and `high`, both
    /// included.
    fn next_between(&self, stream: Self::Stream, low: T, high: T) -> (T, Self::Stream);

    /// A draw from the uniform distribution between `low` and `high`, `high`
    /// excluded.
    fn next_below(&self, stream: Self::Stream, low: T, high: T) -> (T, Self::Stream);

    /// A draw from the uniform distribution between zero and one, one
    /// excluded.
    fn next_unit(&self, stream: Self::Stream) -> (T, Self::Stream);
}

/// The generator that `seed` starts.
pub open spec fn stream_of<T, O: SeededDraws<T>>(ops: O, seed: u64) -> O::Stream {
    choose|s: O::Stream| call_ensures(O::seeded, (&ops, seed), s)
}

/// The draw between `low` and `high`, both included, of the generator
/// `stream`, and the generator after it.
pub open spec fn between_of<T, O: SeededDraws<T>>(ops: O, stream: O::Stream, low: T, high: T) -> (
    T,
    O::Stream,
) {
    choose|r: (T, O::Stream)| call_ensures(O::next_between, (&ops, stream, low, high), r)
}

/// The draw between `low` and `high`, `high` excluded, of the generator
/// `stream`, and the generator after it.
pub open spec fn below_of<T, O: SeededDraws<T>>(ops: O, stream: O::Stream, low: T, high: T) -> (
    T,
    O::Stream,
) {
    choose|r: (T, O::Stream)| call_ensures(O::next_below, (&ops, stream, low, high), r)
}

/// The draw between zero and one of the generator `stream`, and the
/// generator after it.
pub open spec fn unit_of<T, O: SeededDraws<T>>(ops: O, stream: O::Stream) -> (T, O::Stream) {
    choose|r: (T, O::Stream)| call_ensures(O::next_unit, (&ops, stream), r)
}

/// A seed starts one generator, and a generator has one next draw of each
/// kind.
pub open spec fn draws_ok<T, O: SeededDraws<T>>(ops: O) -> bool {
    &&& forall|seed: u64, s: O::Stream| #[trigger]
        call_ensures(O::seeded, (&ops, seed), s) ==> s == stream_of(ops, seed)
    &&& forall|s: O::Stream, low: T, high: T, r: (T, O::Stream)| #[trigger]
        call_ensures(O::next_between, (&ops, s, low, high), r) ==> r == between_of(
            ops,
            s,
            low,
            high,
        )
    &&& forall|s: O::Stream, low: T, high: T, r: (T, O::Stream)| #[trigger]
        call_ensures(O::next_below, (&ops, s, low, high), r) ==> r == below_of(ops, s, low, high)
    &&& forall|s: O::Stream, r: (T, O::Stream)| #[trigger]
        call_ensures(O::next_unit, (&ops, s), r) ==> r == unit_of(ops, s)
}

/// The generator `stream` after `k` draws between `low` and `high`.
pub open spec fn run_between<T, O: SeededDraws<T>>(
    ops: O,
    stream: O::Stream,
    low: T,
    high: T,
    k: nat,
) -> O::Stream
    decreases k,
{
    if k == 0 {
        stream
    } else {
        between_of(ops, run_between(ops, stream, low, high, (k - 1) as nat), low, high).1
    }
}

/// Draw `i`, counted from zero, of the draws between `low` and `high` of
/// the generator `stream`.
pub open spec fn drawn_between<T, O: SeededDraws<T>>(
    ops: O,
    stream: O::Stream,
    low: T,
    high: T,
    i: nat,
) -> T {
    between_of(ops, run_between(ops, stream, low, high, i), low, high).0
}

/// `k` draws between `low` and `high`, and the generator after them.
pub fn draw_row<T: Copy, O: SeededDraws<T>>(
    stream: O::Stream,
    low: T,
    high: T,
    k: usize,
    ops: &O,
) -> (r: (Vec<T>, O::Stream))
    requires
        draws_ok(*ops),
    ensures
        r.0@ == Seq::new(k as nat, |i: int| drawn_between(*ops, stream, low, high, i as nat)),
        r.1 == run_between(*ops, stream, low, high, k as nat),
{
    let mut row: Vec<T> = Vec::new();
    let mut current = stream;
    let mut i: usize = 0;
    while i < k
        invariant
            i <= k,
            draws_ok(*ops),
            current == run_between(*ops, stream, low, high, i as nat),
            row@.len() == i,
            forall|q: int|
                0 <= q < i ==> row@[q] == drawn_between(*ops, stream, low, high, q as nat),
        decreases k - i,
    {
        let (x, next) = ops.next_between(current, low, high);
        row.push(x);
        current = next;
        i += 1;
    }
    assert(row@ =~= Seq::new(
        k as nat,
        |i: int| drawn_between(*ops, stream, low, high, i as nat),
    ));
    (row, current)
}

/// `r` is the mean of a vector with the entries `v`.
pub open spec fn is_mean<T, O: MatrixOps<T>>(ops: O, v: Seq<T>, r: T) -> bool {
    exists|x: Vec<T>| x@ == v && #[trigger] call_ensures(O::mean, (&ops, &x), r)
}

/// The mean of the entries of `v`.
pub open spec fn mean_of<T, O: MatrixOps<T>>(ops: O, v: Seq<T>) -> T {
    choose|r: T| is_mean(ops, v, r)
}

/// `r` is the scalar product of vectors with the entries `a` and `b`.
pub open spec fn is_dot<T, O: MatrixOps<T>>(ops: O, a: Seq<T>, b: Seq<T>, r: T) -> bool {
    exists|x: Vec<T>, y: Vec<T>|
        x@ == a && y@ == b && #[trigger] call_ensures(O::dot, (&ops, &x, &y), r)
}

/// The scalar product of `a` and `b`.
pub open spec fn dot_of<T, O: MatrixOps<T>>(ops: O, a: Seq<T>, b: Seq<T>) -> T {
    choose|r: T| is_dot(ops, a, b, r)
}

/// `r` holds the product of a matrix with the rows `m` in `cols` columns and
/// a vector with the entries `v`.
pub open spec fn is_matrix_vector<T, O: MatrixOps<T>>(
    ops: O,
    m: Seq<Seq<T>>,
    cols: nat,
    v: Seq<T>,
    r: Seq<T>,
) -> bool {
    exists|x: Matrix<T>, y: Vec<T>, out: Vec<T>|
        x@ == m && x.cols() == cols && y@ == v && out@ == r && #[trigger] call_ensures(
            O::times_vector,
            (&ops, &x, &y),
            out,
        )
}

/// The product of the matrix with the rows `m` and the vector `v`.
pub open spec fn matrix_vector<T, O: MatrixOps<T>>(ops: O, m: Seq<Seq<T>>, cols: nat, v: Seq<T>)
    -> Seq<T> {
    choose|r: Seq<T>| is_matrix_vector(ops, m, cols, v, r)
}

/// `r` holds the rows of the product of a matrix with the rows `a` in
/// `a_cols` columns and a matrix with the rows `b` in `b_cols` columns.
pub open spec fn is_matrix_product<T, O: MatrixOps<T>>(
    ops: O,
    a: Seq<Seq<T>>,
    a_cols: nat,
    b: Seq<Seq<T>>,
    b_cols: nat,
    r: Seq<Seq<T>>,
) -> bool {
    exists|x: Matrix<T>, y: Matrix<T>, out: Matrix<T>|
        x@ == a && x.cols() == a_cols && y@ == b && y.cols() == b_cols && out@ == r
            && #[trigger] call_ensures(O::times_matrix, (&ops, &x, &y), out)
}

/// The rows of the product of two matrices.
pub open spec fn matrix_product<T, O: MatrixOps<T>>(
    ops: O,
    a: Seq<Seq<T>>,
    a_cols: nat,
    b: Seq<Seq<T>>,
    b_cols: nat,
) -> Seq<Seq<T>> {
    choose|r: Seq<Seq<T>>| is_matrix_product(ops, a, a_cols, b, b_cols, r)
}

/// What a singular value decomposition holds.
pub ghost struct SvdModel<T> {
    /// The left singular vectors as columns, where they were asked for.
    pub u: Option<Seq<Seq<T>>>,
    pub singular_values: Seq<T>,
    /// The right singular vectors as rows, where they were asked for.
    pub v_t: Option<Seq<Seq<T>>>,
}

/// What a result of `svd` holds.
pub open spec fn svd_view<T>(r: (Option<Matrix<T>>, Vec<T>, Option<Matrix<T>>)) -> SvdModel<T> {
    SvdModel {
        u: match r.0 {
            Some(u) => Some(u@),
            None => None,
        },
        singular_values: r.1@,
        v_t: match r.2 {
            Some(v_t) => Some(v_t@),
            None => None,
        },
    }
}

/// `r` is the decomposition of a matrix with the rows `m` in `cols` columns.
pub open spec fn is_svd<T, O: MatrixOps<T>>(
    ops: O,
    m: Seq<Seq<T>>,
    cols: nat,
    compute_u: bool,
    compute_v: bool,
    r: SvdModel<T>,
) -> bool {
    exists|x: Matrix<T>, out: (Option<Matrix<T>>, Vec<T>, Option<Matrix<T>>)|
        x@ == m && x.cols() == cols && svd_view(out) == r && #[trigger] call_ensures(
            O::svd,
            (&ops, x, compute_u, compute_v),
            out,
        )
}

/// The singular value decomposition of the matrix with the rows `m`.
pub open spec fn svd_of<T, O: MatrixOps<T>>(
    ops: O,
    m: Seq<Seq<T>>,
    cols: nat,
    compute_u: bool,
    compute_v: bool,
) -> SvdModel<T> {
    choose|r: SvdModel<T>| is_svd(ops, m, cols, compute_u, compute_v, r)
}

/// `r` is the spectral radius of a square matrix with the rows `m`.
pub open spec fn is_spectral_radius<T, O: MatrixOps<T>>(ops: O, m: Seq<Seq<T>>, r: T) -> bool {
    exists|x: Matrix<T>|
        x@ == m && x.cols() == m.len() && #[trigger] call_ensures(
            O::spectral_radius,
            (&ops, &x),
            r,
        )
}

/// The largest magnitude of the eigenvalues of the square matrix with the
/// rows `m`.
pub open spec fn spectral_radius_of<T, O: MatrixOps<T>>(ops: O, m: Seq<Seq<T>>) -> T {
    choose|r: T| is_spectral_radius(ops, m, r)
}

/// The lesser of two numbers.
pub open spec fn lesser(a: nat, b: nat) -> nat {
    if a <= b {
        a
    } else {
        b
    }
}

/// Every operation of linear algebra returns what its arguments determine,
/// in the shape that the operation is known for: a product of a matrix and a
/// vector has one entry per row of the matrix; a product of matrices has the
/// rows of the first and the columns of the second; a decomposition of a
/// matrix of `r` rows and `c` columns has `min(r, c)` singular values, left
/// singular vectors of `r` entries and right singular vectors of `c`
/// entries, as many of each as singular values, and each kind where it was
/// asked for and nowhere else.
pub open spec fn matrix_ops_ok<T, O: MatrixOps<T>>(ops: O) -> bool {
    &&& scalar_ops_ok(ops)
    &&& forall|v: Vec<T>, r: T| #[trigger]
        call_ensures(O::mean, (&ops, &v), r) ==> r == mean_of(ops, v@)
    &&& forall|a: Vec<T>, b: Vec<T>, r: T| #[trigger]
        call_ensures(O::dot, (&ops, &a, &b), r) ==> r == dot_of(ops, a@, b@)
    &&& forall|m: Matrix<T>, v: Vec<T>, out: Vec<T>| #[trigger]
        call_ensures(O::times_vector, (&ops, &m, &v), out) ==> {
            &&& out@ == matrix_vector(ops, m@, m.cols(), v@)
            &&& out@.len() == m@.len()
        }
    &&& forall|a: Matrix<T>, b: Matrix<T>, out: Matrix<T>| #[trigger]
        call_ensures(O::times_matrix, (&ops, &a, &b), out) ==> {
            &&& out@ == matrix_product(ops, a@, a.cols(), b@, b.cols())
            &&& out@.len() == a@.len()
            &&& out.cols() == b.cols()
        }
    &&& forall|
        m: Matrix<T>,
        compute_u: bool,
        compute_v: bool,
        out: (Option<Matrix<T>>, Vec<T>, Option<Matrix<T>>),
    | #[trigger]
        call_ensures(O::svd, (&ops, m, compute_u, compute_v), out) ==> {
            &&& svd_view(out) == svd_of(ops, m@, m.cols(), compute_u, compute_v)
            &&& out.1@.len() == lesser(m@.len(), m.cols())
            &&& out.0 is Some <==> compute_u
            &&& out.2 is Some <==> compute_v
            &&& out.0 matches Some(u) ==> u@.len() == m@.len() && u.cols() == out.1@.len()
            &&& out.2 matches Some(v_t) ==> v_t@.len() == out.1@.len() && v_t.cols() == m.cols()
        }
    &&& forall|m: Matrix<T>, r: T| #[trigger]
        call_ensures(O::spectral_radius, (&ops, &m), r) ==> r == spectral_radius_of(ops, m@)
}

/// The rows of `m`, each entry with the opposite of the mean of its column
/// added to it.
pub open spec fn centered<T, O: ScalarOps<T>>(ops: O, m: Seq<Seq<T>>, means: Seq<T>) -> Seq<
    Seq<T>,
> {
    Seq::new(
        m.len(),
        |i: int| Seq::new(m[i].len(), |j: int| sum(ops, m[i][j], negated(ops, means[j]))),
    )
}

/// The means of the columns of a matrix with the rows `m` in `cols` columns.
pub open spec fn column_means<T, O: MatrixOps<T>>(ops: O, m: Seq<Seq<T>>, cols: nat) -> Seq<T> {
    Seq::new(cols, |j: int| mean_of(ops, Seq::new(m.len(), |i: int| m[i][j])))
}

/// The sum of two matrices of one shape, entry by entry.
pub open spec fn matrix_sum<T, O: ScalarOps<T>>(ops: O, a: Seq<Seq<T>>, b: Seq<Seq<T>>) -> Seq<
    Seq<T>,
> {
    Seq::new(a.len(), |i: int| Seq::new(a[i].len(), |j: int| sum(ops, a[i][j], b[i][j])))
}

/// `m` with rows and columns exchanged.
pub fn transposed<T: Copy>(m: &Matrix<T>) -> (out: Matrix<T>)
    ensures
        out@ == transpose_spec(m@, m.cols()),
        out@.len() == m.cols(),
        out.cols() == m@.len(),
{
    let rows_in = m.nrows();
    let cols_in = m.ncols();
    let mut rows: Vec<Vec<T>> = Vec::new();
    let mut j: usize = 0;
    while j < cols_in
        invariant
            j <= cols_in,
            rows_in == m@.len(),
            cols_in == m.cols(),
            rows@.len() == j,
            forall|k: int|
                0 <= k < j ==> (#[trigger] rows@[k])@ == Seq::new(
                    m@.len(),
                    |i: int| m@[i][k],
                ),
        decreases cols_in - j,
    {
        let mut row: Vec<T> = Vec::new();
        let mut i: usize = 0;
        while i < rows_in
            invariant
                i <= rows_in,
                j < cols_in,
                rows_in == m@.len(),
                cols_in == m.cols(),
                row@.len() == i,
                forall|k: int| 0 <= k < i ==> row@[k] == m@[k][j as int],
            decreases rows_in - i,
        {
            row.push(m.get(i, j));
            i += 1;
        }
        assert(row@ =~= Seq::new(m@.len(), |i: int| m@[i][j as int]));
        rows.push(row);
        j += 1;
    }
    assert(rows_view(rows@) =~= transpose_spec(m@, m.cols()));
    Matrix::from_rows(rows_in, rows)
}

/// The sum of two matrices of one shape, entry by entry.
pub fn plus_matrix<T: Copy, O: ScalarOps<T>>(a: &Matrix<T>, b: &Matrix<T>, ops: &O) -> (out:
    Matrix<T>)
    requires
        a@.len() == b@.len(),
        a.cols() == b.cols(),
        scalar_ops_ok(*ops),
    ensures
        out@ == matrix_sum(*ops, a@, b@),
        out@.len() == a@.len(),
        out.cols() == a.cols(),
{
    let n = a.nrows();
    let cols = a.ncols();
    let other_rows = b.nrows();
    let mut rows: Vec<Vec<T>> = Vec::new();
    let mut i: usize = 0;
    while i < n
        invariant
            i <= n,
            n == a@.len(),
            n == b@.len(),
            cols == a.cols(),
            cols == b.cols(),
            rectangular(a@, a.cols()),
            rectangular(b@, b.cols()),
            scalar_ops_ok(*ops),
            rows@.len() == i,
            rectangular(rows_view(rows@), cols as nat),
            forall|k: int| 0 <= k < i ==> (#[trigger] rows@[k])@ == matrix_sum(*ops, a@, b@)[k],
        decreases n - i,
    {
        let mut row: Vec<T> = Vec::new();
        let mut j: usize = 0;
        while j < cols
            invariant
                j <= cols,
                i < n,
                n == a@.len(),
                n == b@.len(),
                cols == a.cols(),
                cols == b.cols(),
                scalar_ops_ok(*ops),
                row@.len() == j,
                forall|k: int|
                    0 <= k < j ==> row@[k] == sum(*ops, a@[i as int][k], b@[i as int][k]),
            decreases cols - j,
        {
            row.push(ops.plus(a.get(i, j), b.get(i, j)));
            j += 1;
        }
        let ghost before = rows_view(rows@);
        let ghost row_spec = row@;
        assert(row_spec =~= matrix_sum(*ops, a@, b@)[i as int]);
        rows.push(row);
        assert(rows_view(rows@) =~= before.push(row_spec));
        i += 1;
    }
    assert(rows_view(rows@) =~= matrix_sum(*ops, a@, b@));
    Matrix::from_rows(cols, rows)
}

/// The mean of each column of `m`.
pub fn means_of_columns<T: Copy, O: MatrixOps<T>>(m: &Matrix<T>, ops: &O) -> (means: Vec<T>)
    requires
        matrix_ops_ok(*ops),
    ensures
        means@ == column_means(*ops, m@, m.cols()),
{
    let cols = m.ncols();
    let mut means: Vec<T> = Vec::new();
    let mut j: usize = 0;
    while j < cols
        invariant
            j <= cols,
            cols == m.cols(),
            matrix_ops_ok(*ops),
            means@.len() == j,
            forall|k: int| 0 <= k < j ==> means@[k] == column_means(*ops, m@, m.cols())[k],
        decreases cols - j,
    {
        let column = crate::ridge::column_of(m, j);
        let mean = ops.mean(&column);
        proof {
            assert(is_mean(*ops, column@, mean));
        }
        means.push(mean);
        j += 1;
    }
    assert(means@ =~= column_means(*ops, m@, m.cols()));
    means
}

/// `m` with the mean of its column taken off each entry: the opposite of the
/// mean is added to it.
pub fn center_columns<T: Copy, O: ScalarOps<T>>(m: &Matrix<T>, means: &Vec<T>, ops: &O) -> (out:
    Matrix<T>)
    requires
        means@.len() == m.cols(),
        scalar_ops_ok(*ops),
    ensures
        out@ == centered(*ops, m@, means@),
        out@.len() == m@.len(),
        out.cols() == m.cols(),
{
    let n = m.nrows();
    let cols = m.ncols();
    let mut rows: Vec<Vec<T>> = Vec::new();
    let mut i: usize = 0;
    while i < n
        invariant
            i <= n,
            n == m@.len(),
            cols == m.cols(),
            means@.len() == cols,
            rectangular(m@, m.cols()),
            scalar_ops_ok(*ops),
            rows@.len() == i,
            rectangular(rows_view(rows@), cols as nat),
            forall|k: int| 0 <= k < i ==> (#[trigger] rows@[k])@ == centered(*ops, m@, means@)[k],
        decreases n - i,
    {
        let mut row: Vec<T> = Vec::new();
        let mut j: usize = 0;
        while j < cols
            invariant
                j <= cols,
                i < n,
                n == m@.len(),
                cols == m.cols(),
                means@.len() == cols,
                scalar_ops_ok(*ops),
                row@.len() == j,
                forall|k: int|
                    0 <= k < j ==> row@[k] == sum(
                        *ops,
                        m@[i as int][k],
                        negated(*ops, means@[k]),
                    ),
            decreases cols - j,
        {
            row.push(ops.plus(m.get(i, j), ops.negate(means[j])));
            j += 1;
        }
        let ghost before = rows_view(rows@);
        let ghost row_spec = row@;
        assert(row_spec =~= centered(*ops, m@, means@)[i as int]);
        rows.push(row);
        assert(rows_view(rows@) =~= before.push(row_spec));
        i += 1;
    }
    assert(rows_view(rows@) =~= centered(*ops, m@, means@));
    Matrix::from_rows(cols, rows)
}

} // verus!
