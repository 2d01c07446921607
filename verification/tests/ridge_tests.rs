use nalgebra::{Complex, DMatrix, DVector, SVD};
use rand::{rngs::StdRng, thread_rng, Rng, SeedableRng};
use rand_distr::{Bernoulli, Distribution, Uniform};
use res_controller::linalg::{Draws, MatrixOps, SeededDraws};
use res_controller::matrix::Matrix;
use res_controller::scalar::ScalarOps;
use res_controller::ridge::{column_of, RidgeError, RidgeRegression, RidgeRegressionSol};

// Double precision arithmetic, with nalgebra for the linear algebra and rand
// for the draws.
struct F64Ops;

impl F64Ops {
    fn new() -> Self {
        F64Ops
    }
}

fn to_dmatrix(m: &Matrix<f64>) -> DMatrix<f64> {
    DMatrix::from_fn(m.nrows(), m.ncols(), |i, j| m.row(i)[j])
}

fn from_dmatrix(m: &DMatrix<f64>) -> Matrix<f64> {
    let rows: Vec<Vec<f64>> = (0..m.nrows())
        .map(|i| (0..m.ncols()).map(|j| m[(i, j)]).collect())
        .collect();
    Matrix::try_from_rows(m.ncols(), rows).unwrap()
}

impl ScalarOps<f64> for F64Ops {
    fn zero(&self) -> f64 {
        0.0
    }
    fn one(&self) -> f64 {
        1.0
    }
    fn plus(&self, a: f64, b: f64) -> f64 {
        a + b
    }
    fn minus(&self, a: f64, b: f64) -> f64 {
        a - b
    }
    fn times(&self, a: f64, b: f64) -> f64 {
        a * b
    }
    fn divide(&self, a: f64, b: f64) -> f64 {
        a / b
    }
    fn negate(&self, a: f64) -> f64 {
        -a
    }
    fn magnitude(&self, a: f64) -> f64 {
        a.abs()
    }
    fn sign(&self, a: f64) -> f64 {
        a.signum()
    }
    fn power_of(&self, a: f64, b: f64) -> f64 {
        a.powf(b)
    }
    fn limit(&self, a: f64, low: f64, high: f64) -> f64 {
        a.clamp(low, high)
    }
    fn exceeds(&self, a: f64, b: f64) -> bool {
        a > b
    }
    fn at_most(&self, a: f64, b: f64) -> bool {
        a <= b
    }
    fn from_count(&self, n: usize) -> f64 {
        n as f64
    }
    fn round_to_count(&self, a: f64) -> usize {
        a.round() as usize
    }
    fn squash(&self, a: f64) -> f64 {
        a.tanh()
    }
    fn exponential(&self, a: f64) -> f64 {
        a.exp()
    }
    fn square_root(&self, a: f64) -> f64 {
        a.sqrt()
    }
}

impl MatrixOps<f64> for F64Ops {
    fn mean(&self, v: &Vec<f64>) -> f64 {
        DVector::from_vec(v.clone()).mean()
    }
    fn dot(&self, a: &Vec<f64>, b: &Vec<f64>) -> f64 {
        DVector::from_vec(a.clone()).dot(&DVector::from_vec(b.clone()))
    }
    fn times_vector(&self, m: &Matrix<f64>, v: &Vec<f64>) -> Vec<f64> {
        (to_dmatrix(m) * DVector::from_vec(v.clone())).iter().cloned().collect()
    }
    fn times_matrix(&self, a: &Matrix<f64>, b: &Matrix<f64>) -> Matrix<f64> {
        from_dmatrix(&(to_dmatrix(a) * to_dmatrix(b)))
    }
    fn svd(
        &self,
        m: Matrix<f64>,
        compute_u: bool,
        compute_v: bool,
    ) -> (Option<Matrix<f64>>, Vec<f64>, Option<Matrix<f64>>) {
        let SVD { u, v_t, singular_values } = SVD::new(to_dmatrix(&m), compute_u, compute_v);
        (
            u.map(|u| from_dmatrix(&u)),
            singular_values.iter().cloned().collect(),
            v_t.map(|v_t| from_dmatrix(&v_t)),
        )
    }
    fn spectral_radius(&self, m: &Matrix<f64>) -> f64 {
        to_dmatrix(m)
            .schur()
            .complex_eigenvalues()
            .iter()
            .cloned()
            .map(Complex::norm)
            .fold(f64::NEG_INFINITY, f64::max)
    }
}

impl Draws<f64> for F64Ops {
    fn draw_weight(&self) -> f64 {
        Uniform::new(-0.5, 0.5).sample(&mut thread_rng())
    }
    fn draw_mask(&self, connectivity: f64) -> bool {
        Bernoulli::new(connectivity).unwrap().sample(&mut thread_rng())
    }
}

impl SeededDraws<f64> for F64Ops {
    type Stream = StdRng;

    fn seeded(&self, seed: u64) -> StdRng {
        StdRng::seed_from_u64(seed)
    }
    fn next_between(&self, mut stream: StdRng, low: f64, high: f64) -> (f64, StdRng) {
        let x = stream.gen_range(low..=high);
        (x, stream)
    }
    fn next_below(&self, mut stream: StdRng, low: f64, high: f64) -> (f64, StdRng) {
        let x = stream.gen_range(low..high);
        (x, stream)
    }
    fn next_unit(&self, mut stream: StdRng) -> (f64, StdRng) {
        let x = stream.gen::<f64>();
        (x, stream)
    }
}

fn design() -> Matrix<f64> {
    // Ten rows, three columns, full rank.
    let rows: Vec<Vec<f64>> = (0..10)
        .map(|i| {
            let t = i as f64;
            vec![t, (t * 0.7).sin() + 0.1 * t * t, (t * 1.3).cos() - 0.5 * t]
        })
        .collect();
    Matrix::try_from_rows(3, rows).unwrap()
}

#[test]
fn ridge_recovers_a_known_linear_map() {
    let ops = F64Ops::new();
    let x = design();
    let y_rows: Vec<Vec<f64>> = (0..x.nrows())
        .map(|i| {
            let r = x.row(i);
            vec![1.0 * r[0] + 2.0 * r[1] + 3.0 * r[2]]
        })
        .collect();
    let y = Matrix::try_from_rows(1, y_rows).unwrap();
    let model = RidgeRegression::fit_multiple_svd(0.0, x, &y, &ops);
    assert_eq!(model.alpha, 0.0);
    let sol = model.sol.as_ref().unwrap();
    assert_eq!(sol.coeff().nrows(), 1);
    assert_eq!(sol.coeff().ncols(), 3);
    let coeff = sol.coeff().row(0);
    assert!((coeff[0] - 1.0).abs() < 1e-8);
    assert!((coeff[1] - 2.0).abs() < 1e-8);
    assert!((coeff[2] - 3.0).abs() < 1e-8);
    assert!(sol.intercept()[0].abs() < 1e-8);
}

#[test]
fn ridge_fits_each_output_column_on_its_own() {
    let ops = F64Ops::new();
    let x = design();
    let y_rows: Vec<Vec<f64>> = (0..x.nrows())
        .map(|i| {
            let r = x.row(i);
            vec![r[0] - r[2] + 4.0, 0.5 * r[1] - 1.0]
        })
        .collect();
    let y = Matrix::try_from_rows(2, y_rows).unwrap();
    let model = RidgeRegression::fit_multiple_svd(0.0, x, &y, &ops);
    let sol = model.sol.as_ref().unwrap();
    assert_eq!(sol.coeff().nrows(), 2);
    let expected = [[1.0, 0.0, -1.0], [0.0, 0.5, 0.0]];
    for j in 0..2 {
        for f in 0..3 {
            assert!((sol.coeff().get(j, f) - expected[j][f]).abs() < 1e-8);
        }
    }
    assert!((sol.intercept()[0] - 4.0).abs() < 1e-8);
    assert!((sol.intercept()[1] + 1.0).abs() < 1e-8);
    let predicted = model.predict(&design(), &ops).unwrap();
    assert_eq!(predicted.nrows(), 10);
    assert_eq!(predicted.ncols(), 2);
    for i in 0..10 {
        assert!((predicted.get(i, 0) - y.get(i, 0)).abs() < 1e-7);
        assert!((predicted.get(i, 1) - y.get(i, 1)).abs() < 1e-7);
    }
}

#[test]
fn the_penalty_filters_the_singular_values() {
    let ops = F64Ops::new();
    // One centered feature with the singular value sqrt(2): the penalty 2
    // halves the coefficient, s / (s * s + alpha) against 1 / s.
    let x = || Matrix::try_from_rows(1, vec![vec![1.0], vec![-1.0]]).unwrap();
    let y = Matrix::try_from_rows(1, vec![vec![5.0], vec![1.0]]).unwrap();
    let free = RidgeRegression::fit_multiple_svd(0.0, x(), &y, &ops);
    let held = RidgeRegression::fit_multiple_svd(2.0, x(), &y, &ops);
    let free = free.sol.unwrap();
    let held = held.sol.unwrap();
    assert!((free.coeff().get(0, 0) - 2.0).abs() < 1e-12);
    assert!((held.coeff().get(0, 0) - 1.0).abs() < 1e-12);
    // The intercept is the mean of the targets: the feature has mean zero.
    assert!((free.intercept()[0] - 3.0).abs() < 1e-12);
    assert!((held.intercept()[0] - 3.0).abs() < 1e-12);
}

#[test]
fn one_solve_on_a_given_decomposition() {
    let ops = F64Ops::new();
    // u is 2 x 1, v_t is 1 x 2, one filtered singular value.
    let u = Matrix::try_from_rows(1, vec![vec![0.6], vec![0.8]]).unwrap();
    let v_t = Matrix::try_from_rows(2, vec![vec![1.0, -1.0]]).unwrap();
    let d = vec![0.5];
    let (coeff, intercept) =
        RidgeRegression::fit_on_decomposed_svd(&u, &v_t, &d, vec![3.0, 1.0], &vec![10.0, 20.0], &ops);
    // The centered targets are 1 and -1; u^T y = 0.6 - 0.8 = -0.2; times d:
    // -0.1; times v: (-0.1, 0.1). The intercept is 2 - (10, 20) . coeff.
    assert!((coeff[0] + 0.1).abs() < 1e-12);
    assert!((coeff[1] - 0.1).abs() < 1e-12);
    assert!((intercept - (2.0 - (-1.0 + 2.0))).abs() < 1e-12);
}

#[test]
fn a_penalty_shrinks_the_coefficients() {
    let ops = F64Ops::new();
    let x = design();
    let y_rows: Vec<Vec<f64>> = (0..x.nrows()).map(|i| vec![x.row(i)[0]]).collect();
    let y = Matrix::try_from_rows(1, y_rows).unwrap();
    let free = RidgeRegression::fit_multiple_svd(0.0, design(), &y, &ops);
    let held = RidgeRegression::fit_multiple_svd(1000.0, x, &y, &ops);
    let norm = |m: &RidgeRegression<f64>| -> f64 {
        m.sol.as_ref().unwrap().coeff().row(0).iter().map(|c| c * c).sum()
    };
    assert!(norm(&held) < norm(&free));
}

#[test]
fn predict_pairs_every_data_row_with_every_coefficient_row() {
    let ops = F64Ops::new();
    let coeff = Matrix::try_from_rows(2, vec![vec![1.0, 0.0], vec![0.0, 1.0], vec![1.0, 1.0]]).unwrap();
    let model = RidgeRegression {
        alpha: 0.5,
        sol: Some(RidgeRegressionSol::new(coeff, vec![10.0, 20.0, 30.0])),
    };
    let data = Matrix::try_from_rows(2, vec![vec![1.0, 2.0], vec![3.0, 4.0]]).unwrap();
    let out = model.predict(&data, &ops).unwrap();
    assert_eq!(out.into_rows(), vec![vec![11.0, 22.0, 33.0], vec![13.0, 24.0, 37.0]]);
    // No data rows give no prediction rows, in as many columns as outputs.
    let none: Matrix<f64> = Matrix::empty(2);
    let out = model.predict(&none, &ops).unwrap();
    assert_eq!(out.nrows(), 0);
    assert_eq!(out.ncols(), 3);
}

#[test]
fn predicting_before_fitting_is_an_error() {
    let ops = F64Ops::new();
    let model: RidgeRegression<f64> = RidgeRegression::new(1.0);
    assert!(model.sol.is_none());
    let data = Matrix::try_from_rows(2, vec![vec![1.0, 2.0]]).unwrap();
    assert_eq!(model.predict(&data, &ops).err(), Some(RidgeError::UnfittedModel));
}

#[test]
fn columns_are_read_top_down() {
    let m = Matrix::try_from_rows(2, vec![vec![1, 2], vec![3, 4], vec![5, 6]]).unwrap();
    assert_eq!(column_of(&m, 0), vec![1, 3, 5]);
    assert_eq!(column_of(&m, 1), vec![2, 4, 6]);
}
