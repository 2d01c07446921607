//! Recursive least squares: a linear map from inputs to outputs that is
//! corrected sample by sample.

use crate::linalg::{
    dot_of, is_dot, is_matrix_product, is_matrix_vector, matrix_ops_ok, matrix_product,
    matrix_sum, matrix_vector, plus_matrix, MatrixOps,
};
use crate::matrix::{rows_view, Matrix};
use crate::scalar::{
    difference, one_of, product, quotient, scalar_ops_ok, sum, zero_of, ScalarOps,
};
use vstd::prelude::*;

verus! {

/// The identity matrix of `n` rows, every entry multiplied by `factor`.
pub open spec fn scaled_identity<T, O: ScalarOps<T>>(ops: O, n: nat, factor: T) -> Seq<Seq<T>> {
    Seq::new(
        n,
        |i: int|
            Seq::new(
                n,
                |j: int|
                    product(
                        ops,
                        if i == j {
                            one_of(ops)
                        } else {
                            zero_of(ops)
                        },
                        factor,
                    ),
            ),
    )
}

/// The matrix whose entry `(i, j)` is `a[i] * b[j]`.
pub open spec fn outer<T, O: ScalarOps<T>>(ops: O, a: Seq<T>, b: Seq<T>) -> Seq<Seq<T>> {
    Seq::new(a.len(), |i: int| Seq::new(b.len(), |j: int| product(ops, a[i], b[j])))
}

/// The gain of a sample `x`: `p * x / (lambda + x . (p * x))`.
pub open spec fn gain<T, O: MatrixOps<T>>(ops: O, p: Seq<Seq<T>>, n: nat, lambda: T, x: Seq<T>)
    -> Seq<T> {
    let px = matrix_vector(ops, p, n, x);
    let denom = sum(ops, lambda, dot_of(ops, x, px));
    px.map_values(|v: T| quotient(ops, v, denom))
}

/// What the weights `w` miss of the outputs `y` at the sample `x`:
/// `y - w * x`.
pub open spec fn residual<T, O: MatrixOps<T>>(
    ops: O,
    w: Seq<Seq<T>>,
    n: nat,
    x: Seq<T>,
    y: Seq<T>,
) -> Seq<T> {
    let y_hat = matrix_vector(ops, w, n, x);
    Seq::new(y.len(), |i: int| difference(ops, y[i], y_hat[i]))
}

/// The weights after a sample: `w + e * k^T` with the residual `e` and the
/// gain `k`.
pub open spec fn updated_weights<T, O: MatrixOps<T>>(
    ops: O,
    w: Seq<Seq<T>>,
    p: Seq<Seq<T>>,
    n: nat,
    lambda: T,
    x: Seq<T>,
    y: Seq<T>,
) -> Seq<Seq<T>> {
    matrix_sum(ops, w, outer(ops, residual(ops, w, n, x, y), gain(ops, p, n, lambda, x)))
}

/// The covariance after a sample: `(p - (k * x^T) * p) / lambda` with the
/// gain `k`.
pub open spec fn updated_covariance<T, O: MatrixOps<T>>(
    ops: O,
    p: Seq<Seq<T>>,
    n: nat,
    lambda: T,
    x: Seq<T>,
) -> Seq<Seq<T>> {
    let kxp = matrix_product(ops, outer(ops, gain(ops, p, n, lambda, x), x), n, p, n);
    Seq::new(
        n,
        |i: int| Seq::new(n, |j: int| quotient(ops, difference(ops, p[i][j], kxp[i][j]), lambda)),
    )
}

/// A recursive least squares estimator of a linear map from `inputs()`
/// scalars to `outputs()` scalars.
pub struct Rls<T> {
    w: Matrix<T>,
    p: Matrix<T>,
    lambda: T,
}

impl<T> Rls<T> {
    #[verifier::type_invariant]
    spec fn inv(&self) -> bool {
        &&& self.p@.len() == self.p.cols()
        &&& self.w.cols() == self.p.cols()
    }

    /// The weights, one row per output.
    pub closed spec fn weights(&self) -> Seq<Seq<T>> {
        self.w@
    }

    /// The covariance of the inputs.
    pub closed spec fn covariance(&self) -> Seq<Seq<T>> {
        self.p@
    }

    /// The number of inputs.
    pub closed spec fn inputs(&self) -> nat {
        self.p.cols()
    }

    /// The forgetting factor.
    pub closed spec fn forgetting(&self) -> T {
        self.lambda
    }
}

/// The matrix whose entry `(i, j)` is `a[i] * b[j]`.
pub fn outer_product<T: Copy, O: ScalarOps<T>>(a: &Vec<T>, b: &Vec<T>, ops: &O) -> (out: Matrix<T>)
    requires
        scalar_ops_ok(*ops),
    ensures
        out@ == outer(*ops, a@, b@),
        out@.len() == a@.len(),
        out.cols() == b@.len(),
{
    let mut rows: Vec<Vec<T>> = Vec::new();
    let mut i: usize = 0;
    while i < a.len()
        invariant
            i <= a@.len(),
            scalar_ops_ok(*ops),
            rows@.len() == i,
            forall|k: int| 0 <= k < i ==> (#[trigger] rows@[k])@ == outer(*ops, a@, b@)[k],
        decreases a@.len() - i,
    {
        let mut row: Vec<T> = Vec::new();
        let mut j: usize = 0;
        while j < b.len()
            invariant
                j <= b@.len(),
                i < a@.len(),
                scalar_ops_ok(*ops),
                row@.len() == j,
                forall|k: int| 0 <= k < j ==> row@[k] == product(*ops, a@[i as int], b@[k]),
            decreases b@.len() - j,
        {
            row.push(ops.times(a[i], b[j]));
            j += 1;
        }
        assert(row@ =~= outer(*ops, a@, b@)[i as int]);
        rows.push(row);
        i += 1;
    }
    assert(rows_view(rows@) =~= outer(*ops, a@, b@));
    Matrix::from_rows(b.len(), rows)
}

impl<T: Copy> Rls<T> {
    /// An estimator for `n` inputs and `m` outputs with the forgetting
    /// factor `lambda`: weights at zero and the identity times `p_init` as
    /// covariance.
    pub fn new<O: ScalarOps<T>>(n: usize, m: usize, lambda: T, p_init: T, ops: &O) -> (r: Self)
        requires
            scalar_ops_ok(*ops),
        ensures
            r.inputs() == n,
            r.weights() == crate::matrix::filled_spec(m as nat, n as nat, zero_of(*ops)),
            r.covariance() == scaled_identity(*ops, n as nat, p_init),
            r.forgetting() == lambda,
    {
        let zero = ops.zero();
        let one = ops.one();
        let mut rows: Vec<Vec<T>> = Vec::new();
        let mut i: usize = 0;
        while i < n
            invariant
                i <= n,
                scalar_ops_ok(*ops),
                zero == zero_of(*ops),
                one == one_of(*ops),
                rows@.len() == i,
                forall|k: int|
                    0 <= k < i ==> (#[trigger] rows@[k])@ == scaled_identity(
                        *ops,
                        n as nat,
                        p_init,
                    )[k],
            decreases n - i,
        {
            let mut row: Vec<T> = Vec::new();
            let mut j: usize = 0;
            while j < n
                invariant
                    j <= n,
                    i < n,
                    scalar_ops_ok(*ops),
                    zero == zero_of(*ops),
                    one == one_of(*ops),
                    row@.len() == j,
                    forall|k: int|
                        0 <= k < j ==> row@[k] == product(
                            *ops,
                            if i as int == k {
                                one_of(*ops)
                            } else {
                                zero_of(*ops)
                            },
                            p_init,
                        ),
                decreases n - j,
            {
                let unit = if i == j {
                    one
                } else {
                    zero
                };
                row.push(ops.times(unit, p_init));
                j += 1;
            }
            assert(row@ =~= scaled_identity(*ops, n as nat, p_init)[i as int]);
            rows.push(row);
            i += 1;
        }
        assert(rows_view(rows@) =~= scaled_identity(*ops, n as nat, p_init));
        Rls { w: Matrix::filled(m, n, zero), p: Matrix::from_rows(n, rows), lambda }
    }

    /// The weights.
    pub fn w(&self) -> (w: &Matrix<T>)
        ensures
            w@ == self.weights(),
            w.cols() == self.inputs(),
    {
        proof {
            use_type_invariant(self);
        }
        &self.w
    }

    /// The covariance.
    pub fn p(&self) -> (p: &Matrix<T>)
        ensures
            p@ == self.covariance(),
            p@.len() == self.inputs(),
            p.cols() == self.inputs(),
    {
        proof {
            use_type_invariant(self);
        }
        &self.p
    }

    /// Corrects the estimator by the sample of the inputs `x` and the
    /// outputs `y`.
    pub fn update<O: MatrixOps<T>>(&mut self, x: &Vec<T>, y: &Vec<T>, ops: &O)
        requires
            x@.len() == old(self).inputs(),
            y@.len() == old(self).weights().len(),
            matrix_ops_ok(*ops),
        ensures
            final(self).inputs() == old(self).inputs(),
            final(self).forgetting() == old(self).forgetting(),
            final(self).weights() == updated_weights(
                *ops,
                old(self).weights(),
                old(self).covariance(),
                old(self).inputs(),
                old(self).forgetting(),
                x@,
                y@,
            ),
            final(self).covariance() == updated_covariance(
                *ops,
                old(self).covariance(),
                old(self).inputs(),
                old(self).forgetting(),
                x@,
            ),
    {
        proof {
            use_type_invariant(&*self);
        }
        let n = self.p.ncols();
        let m = self.w.nrows();
        let px = ops.times_vector(&self.p, x);
        proof {
            assert(is_matrix_vector(*ops, self.p@, self.p.cols(), x@, px@));
        }
        let along = ops.dot(x, &px);
        proof {
            assert(is_dot(*ops, x@, px@, along));
        }
        let denom = ops.plus(self.lambda, along);
        let mut k: Vec<T> = Vec::new();
        let mut i: usize = 0;
        while i < n
            invariant
                i <= n,
                n == px@.len(),
                matrix_ops_ok(*ops),
                k@.len() == i,
                forall|q: int| 0 <= q < i ==> k@[q] == quotient(*ops, px@[q], denom),
            decreases n - i,
        {
            k.push(ops.divide(px[i], denom));
            i += 1;
        }
        assert(k@ =~= gain(*ops, self.p@, n as nat, self.lambda, x@));
        let y_hat = ops.times_vector(&self.w, x);
        proof {
            assert(is_matrix_vector(*ops, self.w@, self.w.cols(), x@, y_hat@));
        }
        let mut e: Vec<T> = Vec::new();
        let mut i: usize = 0;
        while i < m
            invariant
                i <= m,
                m == y@.len(),
                m == y_hat@.len(),
                matrix_ops_ok(*ops),
                e@.len() == i,
                forall|q: int| 0 <= q < i ==> e@[q] == difference(*ops, y@[q], y_hat@[q]),
            decreases m - i,
        {
            e.push(ops.minus(y[i], y_hat[i]));
            i += 1;
        }
        assert(e@ =~= residual(*ops, self.w@, n as nat, x@, y@));
        let correction = outer_product(&e, &k, ops);
        let w = plus_matrix(&self.w, &correction, ops);
        let kx = outer_product(&k, x, ops);
        let kxp = ops.times_matrix(&kx, &self.p);
        proof {
            assert(is_matrix_product(*ops, kx@, kx.cols(), self.p@, self.p.cols(), kxp@));
        }
        let ghost expected = updated_covariance(*ops, self.p@, n as nat, self.lambda, x@);
        let mut rows: Vec<Vec<T>> = Vec::new();
        let mut i: usize = 0;
        while i < n
            invariant
                i <= n,
                n == self.p@.len(),
                n == self.p.cols(),
                n == kxp@.len(),
                n == kxp.cols(),
                matrix_ops_ok(*ops),
                kxp@ == matrix_product(
                    *ops,
                    outer(*ops, gain(*ops, self.p@, n as nat, self.lambda, x@), x@),
                    n as nat,
                    self.p@,
                    n as nat,
                ),
                expected == updated_covariance(*ops, self.p@, n as nat, self.lambda, x@),
                rows@.len() == i,
                forall|q: int| 0 <= q < i ==> (#[trigger] rows@[q])@ == expected[q],
            decreases n - i,
        {
            let mut row: Vec<T> = Vec::new();
            let mut j: usize = 0;
            while j < n
                invariant
                    j <= n,
                    i < n,
                    n == self.p@.len(),
                    n == self.p.cols(),
                    n == kxp@.len(),
                    n == kxp.cols(),
                    matrix_ops_ok(*ops),
                    row@.len() == j,
                    forall|q: int|
                        0 <= q < j ==> row@[q] == quotient(
                            *ops,
                            difference(*ops, self.p@[i as int][q], kxp@[i as int][q]),
                            self.lambda,
                        ),
                decreases n - j,
            {
                row.push(ops.divide(ops.minus(self.p.get(i, j), kxp.get(i, j)), self.lambda));
                j += 1;
            }
            assert(row@ =~= expected[i as int]);
            rows.push(row);
            i += 1;
        }
        assert(rows_view(rows@) =~= expected);
        let p = Matrix::from_rows(n, rows);
        self.w = w;
        self.p = p;
    }

    /// The outputs that the estimator expects for the inputs `x`: `w * x`.
    pub fn predict<O: MatrixOps<T>>(&self, x: &Vec<T>, ops: &O) -> (y: Vec<T>)
        requires
            x@.len() == self.inputs(),
            matrix_ops_ok(*ops),
        ensures
            y@ == matrix_vector(*ops, self.weights(), self.inputs(), x@),
            y@.len() == self.weights().len(),
    {
        proof {
            use_type_invariant(self);
        }
        let y = ops.times_vector(&self.w, x);
        proof {
            assert(is_matrix_vector(*ops, self.w@, self.w.cols(), x@, y@));
        }
        y
    }
}

} // verus!
