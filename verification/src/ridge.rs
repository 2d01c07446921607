//! The linear readout: a ridge regression, fitted in closed form through a
//! singular value decomposition.
//!
//! Fitting centers the features, decomposes them once and filters the
//! singular values by the penalty; each output column is then solved on its
//! own. Predicting pairs every data row with every coefficient row.

use crate::linalg::{
    center_columns, centered, column_means, dot_of, is_dot, is_matrix_vector, is_mean, is_svd,
    matrix_ops_ok, matrix_vector, mean_of, means_of_columns, svd_of, svd_view, transposed,
    MatrixOps,
};
use crate::matrix::{rectangular, rows_view, transpose_spec, Matrix};
use crate::scalar::{difference, product, quotient, sum, ScalarOps};
use vstd::prelude::*;

verus! {

/// Why a regression could not predict.
#[derive(Clone, Copy, Debug, PartialEq, Eq, Structural)]
pub enum RidgeError {
    /// The model was never fitted.
    UnfittedModel,
}

/// A fitted linear map: one coefficient row and one intercept per output.
pub struct RidgeRegressionSol<T> {
    coeff: Matrix<T>,
    intercept: Vec<T>,
}

impl<T> RidgeRegressionSol<T> {
    #[verifier::type_invariant]
    spec fn inv(&self) -> bool {
        self.coeff@.len() == self.intercept@.len()
    }

    /// The coefficient rows, `outputs x features`.
    pub closed spec fn coeff_rows(&self) -> Seq<Seq<T>> {
        self.coeff@
    }

    /// The number of features.
    pub closed spec fn features(&self) -> nat {
        self.coeff.cols()
    }

    /// The intercepts, one per output.
    pub closed spec fn intercepts(&self) -> Seq<T> {
        self.intercept@
    }

    /// A solution from its parts.
    pub fn new(coeff: Matrix<T>, intercept: Vec<T>) -> (sol: Self)
        requires
            coeff@.len() == intercept@.len(),
        ensures
            sol.coeff_rows() == coeff@,
            sol.features() == coeff.cols(),
            sol.intercepts() == intercept@,
    {
        RidgeRegressionSol { coeff, intercept }
    }

    /// The coefficient matrix.
    pub fn coeff(&self) -> (m: &Matrix<T>)
        ensures
            m@ == self.coeff_rows(),
            m.cols() == self.features(),
            self.coeff_rows().len() == self.intercepts().len(),
    {
        proof {
            use_type_invariant(self);
        }
        &self.coeff
    }

    /// The intercepts.
    pub fn intercept(&self) -> (v: &Vec<T>)
        ensures
            v@ == self.intercepts(),
            self.coeff_rows().len() == self.intercepts().len(),
    {
        proof {
            use_type_invariant(self);
        }
        &self.intercept
    }
}

/// A ridge regression: its penalty and, once fitted, its solution.
pub struct RidgeRegression<T> {
    pub alpha: T,
    pub sol: Option<RidgeRegressionSol<T>>,
}

/// Column `j` of a matrix.
pub open spec fn column<T>(m: Seq<Seq<T>>, j: int) -> Seq<T> {
    Seq::new(m.len(), |i: int| m[i][j])
}

/// A singular value, filtered by the penalty: `sig / (sig * sig + alpha)`.
pub open spec fn filtered<T, O: ScalarOps<T>>(ops: O, sig: T, alpha: T) -> T {
    quotient(ops, sig, sum(ops, product(ops, sig, sig), alpha))
}

/// The singular values `s`, each filtered by the penalty.
pub open spec fn filtered_values<T, O: ScalarOps<T>>(ops: O, s: Seq<T>, alpha: T) -> Seq<T> {
    Seq::new(s.len(), |i: int| filtered(ops, s[i], alpha))
}

/// The targets `y` with their mean taken off each.
pub open spec fn centered_target<T, O: MatrixOps<T>>(ops: O, y: Seq<T>) -> Seq<T> {
    Seq::new(y.len(), |i: int| difference(ops, y[i], mean_of(ops, y)))
}

/// The coefficients for one column of targets: `V * (d o (U^T * y))`, where
/// `y` is the centered column, `U` and `V^T` are the singular vectors of the
/// centered features and `d` the filtered singular values.
pub open spec fn solved_coeff<T, O: MatrixOps<T>>(
    ops: O,
    u: Seq<Seq<T>>,
    v_t: Seq<Seq<T>>,
    features: nat,
    d: Seq<T>,
    y: Seq<T>,
) -> Seq<T> {
    let projected = matrix_vector(
        ops,
        transpose_spec(u, d.len()),
        u.len(),
        centered_target(ops, y),
    );
    let scaled = Seq::new(d.len(), |i: int| product(ops, d[i], projected[i]));
    matrix_vector(ops, transpose_spec(v_t, features), d.len(), scaled)
}

/// The intercept for one column of targets: the mean of the targets minus
/// the scalar product of the feature means and the coefficients.
pub open spec fn solved_intercept<T, O: MatrixOps<T>>(
    ops: O,
    y: Seq<T>,
    x_mean: Seq<T>,
    coeff: Seq<T>,
) -> T {
    difference(ops, mean_of(ops, y), dot_of(ops, x_mean, coeff))
}

/// The decomposition of the centered features `x`.
pub open spec fn feature_svd<T, O: MatrixOps<T>>(ops: O, x: Seq<Seq<T>>, features: nat)
    -> crate::linalg::SvdModel<T> {
    svd_of(ops, centered(ops, x, column_means(ops, x, features)), features, true, true)
}

/// The coefficient rows of the regression of the targets `y`, one column
/// per output, on the features `x` with the penalty `alpha`.
pub open spec fn fit_coeff<T, O: MatrixOps<T>>(
    ops: O,
    alpha: T,
    x: Seq<Seq<T>>,
    features: nat,
    y: Seq<Seq<T>>,
    outputs: nat,
) -> Seq<Seq<T>> {
    let svd = feature_svd(ops, x, features);
    Seq::new(
        outputs,
        |j: int|
            solved_coeff(
                ops,
                svd.u->Some_0,
                svd.v_t->Some_0,
                features,
                filtered_values(ops, svd.singular_values, alpha),
                column(y, j),
            ),
    )
}

/// The intercepts of the regression of the targets `y` on the features `x`
/// with the penalty `alpha`.
pub open spec fn fit_intercept<T, O: MatrixOps<T>>(
    ops: O,
    alpha: T,
    x: Seq<Seq<T>>,
    features: nat,
    y: Seq<Seq<T>>,
    outputs: nat,
) -> Seq<T> {
    Seq::new(
        outputs,
        |j: int|
            solved_intercept(
                ops,
                column(y, j),
                column_means(ops, x, features),
                fit_coeff(ops, alpha, x, features, y, outputs)[j],
            ),
    )
}

/// The prediction of a solution for the data rows `data`: entry `(i, j)` is
/// intercept `j` plus the scalar product of data row `i` and coefficient row
/// `j`.
pub open spec fn predict_spec<T, O: MatrixOps<T>>(
    ops: O,
    coeff: Seq<Seq<T>>,
    intercept: Seq<T>,
    data: Seq<Seq<T>>,
) -> Seq<Seq<T>> {
    Seq::new(
        data.len(),
        |i: int|
            Seq::new(
                intercept.len(),
                |j: int| sum(ops, intercept[j], dot_of(ops, data[i], coeff[j])),
            ),
    )
}

impl<T: Copy> RidgeRegression<T> {
    /// An unfitted regression with penalty `alpha`.
    pub fn new(alpha: T) -> (r: Self)
        ensures
            r.alpha == alpha,
            r.sol is None,
    {
        RidgeRegression { alpha, sol: None }
    }

    /// The coefficients and the intercept for one column of targets `y`,
    /// from the singular vectors `u` and `v_t` of the centered features, the
    /// filtered singular values `d` and the feature means `x_mean`.
    pub fn fit_on_decomposed_svd<O: MatrixOps<T>>(
        u: &Matrix<T>,
        v_t: &Matrix<T>,
        d: &Vec<T>,
        y: Vec<T>,
        x_mean: &Vec<T>,
        ops: &O,
    ) -> (r: (Vec<T>, T))
        requires
            u@.len() == y@.len(),
            u.cols() == d@.len(),
            v_t@.len() == d@.len(),
            v_t.cols() == x_mean@.len(),
            matrix_ops_ok(*ops),
        ensures
            r.0@ == solved_coeff(*ops, u@, v_t@, v_t.cols(), d@, y@),
            r.0@.len() == v_t.cols(),
            r.1 == solved_intercept(*ops, y@, x_mean@, r.0@),
    {
        let y_mean = ops.mean(&y);
        proof {
            assert(is_mean(*ops, y@, y_mean));
        }
        let mut centered_y: Vec<T> = Vec::new();
        let mut i: usize = 0;
        while i < y.len()
            invariant
                i <= y@.len(),
                matrix_ops_ok(*ops),
                y_mean == mean_of(*ops, y@),
                centered_y@.len() == i,
                forall|k: int| 0 <= k < i ==> centered_y@[k] == difference(*ops, y@[k], y_mean),
            decreases y@.len() - i,
        {
            centered_y.push(ops.minus(y[i], y_mean));
            i += 1;
        }
        assert(centered_y@ =~= centered_target(*ops, y@));
        let u_t = transposed(u);
        let projected = ops.times_vector(&u_t, &centered_y);
        proof {
            assert(is_matrix_vector(*ops, u_t@, u_t.cols(), centered_y@, projected@));
        }
        let mut scaled: Vec<T> = Vec::new();
        let mut k: usize = 0;
        while k < d.len()
            invariant
                k <= d@.len(),
                matrix_ops_ok(*ops),
                projected@.len() == d@.len(),
                scaled@.len() == k,
                forall|q: int| 0 <= q < k ==> scaled@[q] == product(*ops, d@[q], projected@[q]),
            decreases d@.len() - k,
        {
            scaled.push(ops.times(d[k], projected[k]));
            k += 1;
        }
        assert(scaled@ =~= Seq::new(d@.len(), |i: int| product(*ops, d@[i], projected@[i])));
        let v = transposed(v_t);
        let coeff = ops.times_vector(&v, &scaled);
        proof {
            assert(is_matrix_vector(*ops, v@, v.cols(), scaled@, coeff@));
        }
        let along = ops.dot(x_mean, &coeff);
        proof {
            assert(is_dot(*ops, x_mean@, coeff@, along));
        }
        let intercept = ops.minus(y_mean, along);
        (coeff, intercept)
    }

    /// Fits the regression of the targets `y` (one column per output) on the
    /// features `x`: the columns of `x` are centered on their means, the
    /// centered features are decomposed, the singular values are filtered by
    /// the penalty, and each column of targets is solved for on its own.
    pub fn fit_multiple_svd<O: MatrixOps<T>>(alpha: T, x: Matrix<T>, y: &Matrix<T>, ops: &O) -> (r:
        Self)
        requires
            x@.len() == y@.len(),
            x@.len() > 0,
            x.cols() > 0,
            matrix_ops_ok(*ops),
        ensures
            r.alpha == alpha,
            r.sol matches Some(sol) && sol.features() == x.cols() && sol.coeff_rows() == fit_coeff(
                *ops,
                alpha,
                x@,
                x.cols(),
                y@,
                y.cols(),
            ) && sol.intercepts() == fit_intercept(*ops, alpha, x@, x.cols(), y@, y.cols()),
    {
        let features = x.ncols();
        let outputs = y.ncols();
        let samples = y.nrows();
        let x_mean = means_of_columns(&x, ops);
        let centered_x = center_columns(&x, &x_mean, ops);
        let ghost centered_spec = centered_x;
        let decomposition = ops.svd(centered_x, true, true);
        let ghost model = feature_svd(*ops, x@, x.cols());
        proof {
            assert(is_svd(
                *ops,
                centered_spec@,
                centered_spec.cols(),
                true,
                true,
                svd_view(decomposition),
            ));
            assert(svd_view(decomposition) == model);
        }
        let (u, singular_values, v_t) = decomposition;
        let u = match u {
            Some(u) => u,
            None => {
                assert(false);
                Matrix::empty(0)
            },
        };
        let v_t = match v_t {
            Some(v_t) => v_t,
            None => {
                assert(false);
                Matrix::empty(0)
            },
        };
        let mut d: Vec<T> = Vec::new();
        let mut i: usize = 0;
        while i < singular_values.len()
            invariant
                i <= singular_values@.len(),
                matrix_ops_ok(*ops),
                d@.len() == i,
                forall|k: int| 0 <= k < i ==> d@[k] == filtered(*ops, singular_values@[k], alpha),
            decreases singular_values@.len() - i,
        {
            let sig = singular_values[i];
            d.push(ops.divide(sig, ops.plus(ops.times(sig, sig), alpha)));
            i += 1;
        }
        assert(d@ =~= filtered_values(*ops, singular_values@, alpha));
        let ghost expected = fit_coeff(*ops, alpha, x@, x.cols(), y@, y.cols());
        let ghost expected_intercept = fit_intercept(*ops, alpha, x@, x.cols(), y@, y.cols());
        let mut coeff_rows: Vec<Vec<T>> = Vec::new();
        let mut intercepts: Vec<T> = Vec::new();
        let mut j: usize = 0;
        while j < outputs
            invariant
                j <= outputs,
                outputs == y.cols(),
                samples == y@.len(),
                features == x.cols(),
                rectangular(y@, y.cols()),
                matrix_ops_ok(*ops),
                u@ == model.u->Some_0,
                v_t@ == model.v_t->Some_0,
                singular_values@ == model.singular_values,
                model == feature_svd(*ops, x@, x.cols()),
                u@.len() == samples,
                u.cols() == d@.len(),
                v_t@.len() == d@.len(),
                v_t.cols() == features,
                x_mean@ == column_means(*ops, x@, x.cols()),
                x_mean@.len() == features,
                d@ == filtered_values(*ops, singular_values@, alpha),
                expected == fit_coeff(*ops, alpha, x@, x.cols(), y@, y.cols()),
                expected_intercept == fit_intercept(*ops, alpha, x@, x.cols(), y@, y.cols()),
                coeff_rows@.len() == j,
                intercepts@.len() == j,
                rectangular(rows_view(coeff_rows@), features as nat),
                forall|k: int| 0 <= k < j ==> (#[trigger] coeff_rows@[k])@ == expected[k],
                forall|k: int| 0 <= k < j ==> intercepts@[k] == expected_intercept[k],
            decreases outputs - j,
        {
            let col = column_of(y, j);
            let (coeff, intercept) = Self::fit_on_decomposed_svd(&u, &v_t, &d, col, &x_mean, ops);
            let ghost before = rows_view(coeff_rows@);
            coeff_rows.push(coeff);
            intercepts.push(intercept);
            proof {
                assert(rows_view(coeff_rows@) =~= before.push(coeff@));
            }
            j += 1;
        }
        proof {
            assert(rows_view(coeff_rows@) =~= expected);
            assert(intercepts@ =~= expected_intercept);
        }
        let coeff = Matrix::from_rows(features, coeff_rows);
        let sol = RidgeRegressionSol::new(coeff, intercepts);
        RidgeRegression { alpha, sol: Some(sol) }
    }

    /// Predicts the outputs for each row of `repr`: a matrix with one row per
    /// data row and one column per output, each entry the intercept of the
    /// output plus the scalar product of the data row and the coefficients
    /// of the output. Without a solution the model is unfitted, and that is
    /// an error.
    pub fn predict<O: MatrixOps<T>>(&self, repr: &Matrix<T>, ops: &O) -> (r: Result<
        Matrix<T>,
        RidgeError,
    >)
        requires
            self.sol matches Some(sol) ==> repr.cols() == sol.features(),
            matrix_ops_ok(*ops),
        ensures
            match self.sol {
                Some(sol) => r matches Ok(out) && out.cols() == sol.intercepts().len() && out@
                    == predict_spec(*ops, sol.coeff_rows(), sol.intercepts(), repr@),
                None => r == Err::<Matrix<T>, RidgeError>(RidgeError::UnfittedModel),
            },
    {
        let sol = match &self.sol {
            Some(sol) => sol,
            None => {
                return Err(RidgeError::UnfittedModel);
            },
        };
        let coeff = sol.coeff();
        let intercept = sol.intercept();
        let outputs = intercept.len();
        let samples = repr.nrows();
        let features = coeff.ncols();
        let ghost expected = predict_spec(*ops, coeff@, intercept@, repr@);
        let mut rows: Vec<Vec<T>> = Vec::new();
        let mut i: usize = 0;
        while i < samples
            invariant
                i <= samples,
                samples == repr@.len(),
                outputs == intercept@.len(),
                outputs == coeff@.len(),
                coeff.cols() == repr.cols(),
                rectangular(coeff@, coeff.cols()),
                rectangular(repr@, repr.cols()),
                matrix_ops_ok(*ops),
                expected == predict_spec(*ops, coeff@, intercept@, repr@),
                rows@.len() == i,
                rectangular(rows_view(rows@), outputs as nat),
                forall|s: int| 0 <= s < i ==> (#[trigger] rows@[s])@ == expected[s],
            decreases samples - i,
        {
            let data_row = repr.row(i);
            let mut row: Vec<T> = Vec::new();
            let mut j: usize = 0;
            while j < outputs
                invariant
                    j <= outputs,
                    i < samples,
                    samples == repr@.len(),
                    outputs == intercept@.len(),
                    outputs == coeff@.len(),
                    coeff.cols() == repr.cols(),
                    data_row@ == repr@[i as int],
                    data_row@.len() == repr.cols(),
                    matrix_ops_ok(*ops),
                    row@.len() == j,
                    forall|k: int|
                        0 <= k < j ==> row@[k] == sum(
                            *ops,
                            intercept@[k],
                            dot_of(*ops, repr@[i as int], coeff@[k]),
                        ),
                decreases outputs - j,
            {
                let coeff_row = coeff.row(j);
                let along = ops.dot(data_row, coeff_row);
                proof {
                    assert(is_dot(*ops, data_row@, coeff_row@, along));
                }
                row.push(ops.plus(intercept[j], along));
                j += 1;
            }
            let ghost before = rows_view(rows@);
            let ghost row_spec = row@;
            assert(row_spec =~= expected[i as int]);
            rows.push(row);
            proof {
                assert(rows_view(rows@) =~= before.push(row_spec));
            }
            i += 1;
        }
        assert(rows_view(rows@) =~= expected);
        Ok(Matrix::from_rows(outputs, rows))
    }
}

/// Column `j` of `m` as a vector.
pub fn column_of<T: Copy>(m: &Matrix<T>, j: usize) -> (col: Vec<T>)
    requires
        j < m.cols(),
    ensures
        col@ == column(m@, j as int),
{
    let n = m.nrows();
    let mut col: Vec<T> = Vec::new();
    let mut i: usize = 0;
    while i < n
        invariant
            i <= n,
            n == m@.len(),
            j < m.cols(),
            col@.len() == i,
            forall|k: int| 0 <= k < i ==> col@[k] == m@[k][j as int],
        decreases n - i,
    {
        col.push(m.get(i, j));
        i += 1;
    }
    assert(col@ =~= column(m@, j as int));
    col
}

} // verus!
