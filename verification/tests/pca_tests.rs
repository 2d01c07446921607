use nalgebra::{Complex, DMatrix, DVector, SVD};
use rand::{rngs::StdRng, thread_rng, Rng, SeedableRng};
use rand_distr::{Bernoulli, Distribution, Uniform};
use res_controller::linalg::{Draws, MatrixOps, SeededDraws};
use res_controller::matrix::Matrix;
use res_controller::scalar::ScalarOps;
use res_controller::dimensionality_reducer::{
    leading_rows_transposed, NullReducer, PCADimensionalityReducer, Reducer, ReducerType,
};
use res_controller::linalg::{center_columns, means_of_columns, plus_matrix, transposed};

// Double precision arithmetic, with nalgebra for the linear algebra and rand
// for the draws.
struct F64Ops;

impl F64Ops {
    fn new() -> Self {
        F64Ops
    }
}

fn to_dmatrix(m: &Matrix<f64>) -> DMatrix<f64> {
    DMatrix::from_fn(m.nrows(), m.ncols(), |i, j| m.row(i)[j])
}

fn from_dmatrix(m: &DMatrix<f64>) -> Matrix<f64> {
    let rows: Vec<Vec<f64>> = (0..m.nrows())
        .map(|i| (0..m.ncols()).map(|j| m[(i, j)]).collect())
        .collect();
    Matrix::try_from_rows(m.ncols(), rows).unwrap()
}

impl ScalarOps<f64> for F64Ops {
    fn zero(&self) -> f64 {
        0.0
    }
    fn one(&self) -> f64 {
        1.0
    }
    fn plus(&self, a: f64, b: f64) -> f64 {
        a + b
    }
    fn minus(&self, a: f64, b: f64) -> f64 {
        a - b
    }
    fn times(&self, a: f64, b: f64) -> f64 {
        a * b
    }
    fn divide(&self, a: f64, b: f64) -> f64 {
        a / b
    }
    fn negate(&self, a: f64) -> f64 {
        -a
    }
    fn magnitude(&self, a: f64) -> f64 {
        a.abs()
    }
    fn sign(&self, a: f64) -> f64 {
        a.signum()
    }
    fn power_of(&self, a: f64, b: f64) -> f64 {
        a.powf(b)
    }
    fn limit(&self, a: f64, low: f64, high: f64) -> f64 {
        a.clamp(low, high)
    }
    fn exceeds(&self, a: f64, b: f64) -> bool {
        a > b
    }
    fn at_most(&self, a: f64, b: f64) -> bool {
        a <= b
    }
    fn from_count(&self, n: usize) -> f64 {
        n as f64
    }
    fn round_to_count(&self, a: f64) -> usize {
        a.round() as usize
    }
    fn squash(&self, a: f64) -> f64 {
        a.tanh()
    }
    fn exponential(&self, a: f64) -> f64 {
        a.exp()
    }
    fn square_root(&self, a: f64) -> f64 {
        a.sqrt()
    }
}

impl MatrixOps<f64> for F64Ops {
    fn mean(&self, v: &Vec<f64>) -> f64 {
        DVector::from_vec(v.clone()).mean()
    }
    fn dot(&self, a: &Vec<f64>, b: &Vec<f64>) -> f64 {
        DVector::from_vec(a.clone()).dot(&DVector::from_vec(b.clone()))
    }
    fn times_vector(&self, m: &Matrix<f64>, v: &Vec<f64>) -> Vec<f64> {
        (to_dmatrix(m) * DVector::from_vec(v.clone())).iter().cloned().collect()
    }
    fn times_matrix(&self, a: &Matrix<f64>, b: &Matrix<f64>) -> Matrix<f64> {
        from_dmatrix(&(to_dmatrix(a) * to_dmatrix(b)))
    }
    fn svd(
        &self,
        m: Matrix<f64>,
        compute_u: bool,
        compute_v: bool,
    ) -> (Option<Matrix<f64>>, Vec<f64>, Option<Matrix<f64>>) {
        let SVD { u, v_t, singular_values } = SVD::new(to_dmatrix(&m), compute_u, compute_v);
        (
            u.map(|u| from_dmatrix(&u)),
            singular_values.iter().cloned().collect(),
            v_t.map(|v_t| from_dmatrix(&v_t)),
        )
    }
    fn spectral_radius(&self, m: &Matrix<f64>) -> f64 {
        to_dmatrix(m)
            .schur()
            .complex_eigenvalues()
            .iter()
            .cloned()
            .map(Complex::norm)
            .fold(f64::NEG_INFINITY, f64::max)
    }
}

impl Draws<f64> for F64Ops {
    fn draw_weight(&self) -> f64 {
        Uniform::new(-0.5, 0.5).sample(&mut thread_rng())
    }
    fn draw_mask(&self, connectivity: f64) -> bool {
        Bernoulli::new(connectivity).unwrap().sample(&mut thread_rng())
    }
}

impl SeededDraws<f64> for F64Ops {
    type Stream = StdRng;

    fn seeded(&self, seed: u64) -> StdRng {
        StdRng::seed_from_u64(seed)
    }
    fn next_between(&self, mut stream: StdRng, low: f64, high: f64) -> (f64, StdRng) {
        let x = stream.gen_range(low..=high);
        (x, stream)
    }
    fn next_below(&self, mut stream: StdRng, low: f64, high: f64) -> (f64, StdRng) {
        let x = stream.gen_range(low..high);
        (x, stream)
    }
    fn next_unit(&self, mut stream: StdRng) -> (f64, StdRng) {
        let x = stream.gen::<f64>();
        (x, stream)
    }
}

fn data() -> Matrix<f64> {
    let rows: Vec<Vec<f64>> = (0..12)
        .map(|i| {
            let t = i as f64;
            vec![t, 2.0 * t + (t * 0.9).sin(), (t * 0.4).cos(), 0.1 * t * t - 3.0]
        })
        .collect();
    Matrix::try_from_rows(4, rows).unwrap()
}

#[test]
fn full_pca_is_orthonormal_and_lossless() {
    let ops = F64Ops::new();
    let input = data();
    let reducer = PCADimensionalityReducer::fit_with_max_components(&input, 4, &ops);
    assert_eq!(reducer.n_components(), 4);
    assert_eq!(reducer.mean().len(), 4);
    let components = to_dmatrix(reducer.components());
    let gram = components.transpose() * &components;
    let identity = DMatrix::<f64>::identity(4, 4);
    assert!((gram - identity).abs().max() < 1e-9);

    let reduced = reducer.transform(data(), &ops);
    assert_eq!(reduced.nrows(), 12);
    assert_eq!(reduced.ncols(), 4);
    // Back through the components and the mean: the data again.
    let restored = to_dmatrix(&reduced) * components.transpose();
    for i in 0..12 {
        for j in 0..4 {
            assert!((restored[(i, j)] + reducer.mean()[j] - input.get(i, j)).abs() < 1e-8);
        }
    }
}

#[test]
fn the_mean_is_the_mean_of_each_column() {
    let ops = F64Ops::new();
    let input = Matrix::try_from_rows(2, vec![vec![1.0, 10.0], vec![2.0, 20.0], vec![6.0, 30.0]]).unwrap();
    let reducer = PCADimensionalityReducer::fit_with_max_components(&input, 2, &ops);
    assert_eq!(reducer.mean(), &vec![3.0, 20.0]);
    assert_eq!(means_of_columns(&input, &ops), vec![3.0, 20.0]);
    let centered = center_columns(&input, &vec![3.0, 20.0], &ops);
    assert_eq!(
        centered.into_rows(),
        vec![vec![-2.0, -10.0], vec![-1.0, 0.0], vec![3.0, 10.0]]
    );
    // The first component points along the direction of most variance.
    let first = [reducer.components().get(0, 0), reducer.components().get(1, 0)];
    assert!(first[1].abs() > first[0].abs());
}

#[test]
fn the_number_of_components_is_limited_by_the_features() {
    let ops = F64Ops::new();
    let reducer = PCADimensionalityReducer::fit_with_max_components(&data(), 512, &ops);
    assert_eq!(reducer.n_components(), 4);
    assert_eq!(reducer.max_components(), 512);
    let reducer = PCADimensionalityReducer::fit_with_max_components(&data(), 2, &ops);
    assert_eq!(reducer.n_components(), 2);
    assert_eq!(reducer.components().nrows(), 4);
    let reduced = reducer.transform(data(), &ops);
    assert_eq!(reduced.ncols(), 2);
    assert_eq!(reduced.nrows(), 12);
}

#[test]
fn degenerate_data_gives_a_reducer_that_changes_nothing() {
    let ops = F64Ops::new();
    let no_rows: Matrix<f64> = Matrix::empty(3);
    let reducer = PCADimensionalityReducer::fit_with_max_components(&no_rows, 2, &ops);
    assert_eq!(reducer.n_components(), 0);
    assert_eq!(reducer.mean().len(), 0);
    let out = reducer.transform(data(), &ops);
    assert_eq!(out.into_rows(), data().into_rows());

    let no_columns: Matrix<f64> = Matrix::filled(5, 0, 0.0);
    let reducer = PCADimensionalityReducer::fit_with_max_components(&no_columns, 2, &ops);
    assert_eq!(reducer.n_components(), 0);
}

#[test]
fn empty_data_passes_through_a_fitted_reducer() {
    let ops = F64Ops::new();
    let reducer = PCADimensionalityReducer::fit_with_max_components(&data(), 2, &ops);
    let no_rows: Matrix<f64> = Matrix::empty(4);
    let out = reducer.transform(no_rows, &ops);
    assert_eq!(out.nrows(), 0);
    assert_eq!(out.ncols(), 4);
}

#[test]
fn the_default_reducer_has_no_components() {
    let ops = F64Ops::new();
    let reducer: PCADimensionalityReducer<f64> = PCADimensionalityReducer::default();
    assert_eq!(reducer.n_components(), 0);
    assert_eq!(reducer.max_components(), 512);
    let out = reducer.transform(data(), &ops);
    assert_eq!(out.into_rows(), data().into_rows());
}

#[test]
fn the_null_reducer_is_the_identity() {
    let ops = F64Ops::new();
    let out = NullReducer.transform(data());
    assert_eq!(out.into_rows(), data().into_rows());
    let reducer: Reducer<f64> = Reducer::new(ReducerType::Null, &data(), &ops);
    assert!(matches!(reducer, Reducer::NullReducer(_)));
    let out = reducer.transform(data(), &ops);
    assert_eq!(out.into_rows(), data().into_rows());
    let reducer: Reducer<f64> = Reducer::null_reducer();
    assert!(matches!(reducer, Reducer::NullReducer(_)));
}

#[test]
fn the_kind_asked_for_is_the_kind_made() {
    let ops = F64Ops::new();
    let reducer = Reducer::new(ReducerType::PCA(3), &data(), &ops);
    match &reducer {
        Reducer::PCAReducer(p) => assert_eq!(p.n_components(), 3),
        Reducer::NullReducer(_) => panic!("a principal-component reducer was asked for"),
    }
    let out = reducer.transform(data(), &ops);
    assert_eq!(out.ncols(), 3);
    let reducer = Reducer::pca_reducer(&data(), 1, &ops);
    assert!(matches!(reducer, Reducer::PCAReducer(_)));
}

#[test]
fn a_projection_by_hand() {
    let ops = F64Ops::new();
    // Components that keep the second feature and the sum of the first two.
    let components = Matrix::try_from_rows(2, vec![vec![0.0, 1.0], vec![1.0, 1.0]]).unwrap();
    let reducer = PCADimensionalityReducer::from_parts(vec![1.0, 2.0], components, 2);
    let out = reducer.transform(Matrix::try_from_rows(2, vec![vec![4.0, 7.0]]).unwrap(), &ops);
    assert_eq!(out.into_rows(), vec![vec![5.0, 8.0]]);
}

#[test]
fn leading_rows_become_columns() {
    let v_t = Matrix::try_from_rows(3, vec![vec![1, 2, 3], vec![4, 5, 6], vec![7, 8, 9]]).unwrap();
    let out = leading_rows_transposed(&v_t, 2);
    assert_eq!(out.into_rows(), vec![vec![1, 4], vec![2, 5], vec![3, 6]]);
    let out = leading_rows_transposed(&v_t, 0);
    assert_eq!(out.nrows(), 3);
    assert_eq!(out.ncols(), 0);
    let p = PCADimensionalityReducer::from_parts(
        vec![0, 0, 0],
        leading_rows_transposed(&v_t, 1),
        1,
    );
    assert_eq!(p.n_components(), 1);
    assert_eq!(transposed(&v_t).into_rows(), vec![vec![1, 4, 7], vec![2, 5, 8], vec![3, 6, 9]]);
}

#[test]
fn matrices_are_added_entry_by_entry() {
    let ops = F64Ops::new();
    let a = Matrix::try_from_rows(2, vec![vec![1.0, 2.0], vec![3.0, 4.0]]).unwrap();
    let b = Matrix::try_from_rows(2, vec![vec![0.5, 0.25], vec![-3.0, 1.0]]).unwrap();
    assert_eq!(plus_matrix(&a, &b, &ops).into_rows(), vec![vec![1.5, 2.25], vec![0.0, 5.0]]);
}
