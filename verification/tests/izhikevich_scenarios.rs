use nalgebra::{Complex, DMatrix, DVector, SVD};
use rand::{rngs::StdRng, thread_rng, Rng, SeedableRng};
use rand_distr::{Bernoulli, Distribution, Uniform};
use res_controller::linalg::{Draws, MatrixOps, SeededDraws};
use res_controller::matrix::Matrix;
use res_controller::scalar::ScalarOps;
use res_controller::flight::{Channels, FlightLog, SnapShot};
use res_controller::flight_controller::Controller;
use res_controller::input_mapping::ReservoirInput;
use res_controller::izhikevich::{random_izhikevich, IzhikevichHarness, IzhikevichInput};
use res_controller::izhikevich_controller::{
    input_current, random_input_weights, train_izhikevich_controller2,
    IzhikevichControllerParameters,
};
use res_controller::loaders::FlDataSet;
use res_controller::training::evaluate_open_loop_dataset_mse;
use std::time::Duration;

// Double precision arithmetic, with nalgebra for the linear algebra and rand
// for the draws.
struct F64Ops;

impl F64Ops {
    fn new() -> Self {
        F64Ops
    }
}

fn to_dmatrix(m: &Matrix<f64>) -> DMatrix<f64> {
    DMatrix::from_fn(m.nrows(), m.ncols(), |i, j| m.row(i)[j])
}

fn from_dmatrix(m: &DMatrix<f64>) -> Matrix<f64> {
    let rows: Vec<Vec<f64>> = (0..m.nrows())
        .map(|i| (0..m.ncols()).map(|j| m[(i, j)]).collect())
        .collect();
    Matrix::try_from_rows(m.ncols(), rows).unwrap()
}

impl ScalarOps<f64> for F64Ops {
    fn zero(&self) -> f64 {
        0.0
    }
    fn one(&self) -> f64 {
        1.0
    }
    fn plus(&self, a: f64, b: f64) -> f64 {
        a + b
    }
    fn minus(&self, a: f64, b: f64) -> f64 {
        a - b
    }
    fn times(&self, a: f64, b: f64) -> f64 {
        a * b
    }
    fn divide(&self, a: f64, b: f64) -> f64 {
        a / b
    }
    fn negate(&self, a: f64) -> f64 {
        -a
    }
    fn magnitude(&self, a: f64) -> f64 {
        a.abs()
    }
    fn sign(&self, a: f64) -> f64 {
        a.signum()
    }
    fn power_of(&self, a: f64, b: f64) -> f64 {
        a.powf(b)
    }
    fn limit(&self, a: f64, low: f64, high: f64) -> f64 {
        a.clamp(low, high)
    }
    fn exceeds(&self, a: f64, b: f64) -> bool {
        a > b
    }
    fn at_most(&self, a: f64, b: f64) -> bool {
        a <= b
    }
    fn from_count(&self, n: usize) -> f64 {
        n as f64
    }
    fn round_to_count(&self, a: f64) -> usize {
        a.round() as usize
    }
    fn squash(&self, a: f64) -> f64 {
        a.tanh()
    }
    fn exponential(&self, a: f64) -> f64 {
        a.exp()
    }
    fn square_root(&self, a: f64) -> f64 {
        a.sqrt()
    }
}

impl MatrixOps<f64> for F64Ops {
    fn mean(&self, v: &Vec<f64>) -> f64 {
        DVector::from_vec(v.clone()).mean()
    }
    fn dot(&self, a: &Vec<f64>, b: &Vec<f64>) -> f64 {
        DVector::from_vec(a.clone()).dot(&DVector::from_vec(b.clone()))
    }
    fn times_vector(&self, m: &Matrix<f64>, v: &Vec<f64>) -> Vec<f64> {
        (to_dmatrix(m) * DVector::from_vec(v.clone())).iter().cloned().collect()
    }
    fn times_matrix(&self, a: &Matrix<f64>, b: &Matrix<f64>) -> Matrix<f64> {
        from_dmatrix(&(to_dmatrix(a) * to_dmatrix(b)))
    }
    fn svd(
        &self,
        m: Matrix<f64>,
        compute_u: bool,
        compute_v: bool,
    ) -> (Option<Matrix<f64>>, Vec<f64>, Option<Matrix<f64>>) {
        let SVD { u, v_t, singular_values } = SVD::new(to_dmatrix(&m), compute_u, compute_v);
        (
            u.map(|u| from_dmatrix(&u)),
            singular_values.iter().cloned().collect(),
            v_t.map(|v_t| from_dmatrix(&v_t)),
        )
    }
    fn spectral_radius(&self, m: &Matrix<f64>) -> f64 {
        to_dmatrix(m)
            .schur()
            .complex_eigenvalues()
            .iter()
            .cloned()
            .map(Complex::norm)
            .fold(f64::NEG_INFINITY, f64::max)
    }
}

impl Draws<f64> for F64Ops {
    fn draw_weight(&self) -> f64 {
        Uniform::new(-0.5, 0.5).sample(&mut thread_rng())
    }
    fn draw_mask(&self, connectivity: f64) -> bool {
        Bernoulli::new(connectivity).unwrap().sample(&mut thread_rng())
    }
}

impl SeededDraws<f64> for F64Ops {
    type Stream = StdRng;

    fn seeded(&self, seed: u64) -> StdRng {
        StdRng::seed_from_u64(seed)
    }
    fn next_between(&self, mut stream: StdRng, low: f64, high: f64) -> (f64, StdRng) {
        let x = stream.gen_range(low..=high);
        (x, stream)
    }
    fn next_below(&self, mut stream: StdRng, low: f64, high: f64) -> (f64, StdRng) {
        let x = stream.gen_range(low..high);
        (x, stream)
    }
    fn next_unit(&self, mut stream: StdRng) -> (f64, StdRng) {
        let x = stream.gen::<f64>();
        (x, stream)
    }
}

fn snapshot(ms: u128, phase: f64) -> SnapShot<f64> {
    let x = (ms as f64 * 0.004 + phase).sin();
    let throttle = 0.2 + 0.1 * x;
    SnapShot {
        time_nanos: ms * 1_000_000,
        battery: 16.0,
        angular_velocity: [6.0 * x, -4.0 * x, 3.0],
        channels: Channels { throttle, roll: x, pitch: -0.8 * x, yaw: 0.6 },
        motor_input: [0.4 + 0.2 * throttle, 0.4, 0.45, 0.5 - 0.1 * throttle],
    }
}

fn flight(id: &str, ms: u128, phase: f64) -> FlightLog<f64> {
    FlightLog { simulation_id: id.to_string(), steps: (0..ms).map(|t| snapshot(t, phase)).collect() }
}

fn data_set(id: &str, ms: u128) -> FlDataSet<f64> {
    FlDataSet {
        dataset_id: id.to_string(),
        train_data: vec![flight("training_0", ms, 0.0), flight("training_1", ms, 1.0)],
        test_data: vec![flight("testing_0", ms, 2.0)],
    }
}

fn transform_data_set(
    flight_log: FlightLog<f64>,
    number_of_neurons: usize,
    sample_rate: Duration,
) -> Vec<IzhikevichInput<f64>> {
    let ops = F64Ops::new();
    let FlightLog { steps, .. } = flight_log;
    let w_in = random_input_weights(number_of_neurons, &ops);
    let g_in: f64 = 5.0;
    steps
        .iter()
        .map(|s| IzhikevichInput {
            input: input_current(&w_in, &ReservoirInput::from_snapshot(s, &ops), g_in, &ops),
            duration_nanos: sample_rate.as_nanos(),
        })
        .collect()
}

#[test]
fn find_izhikevich_reservoir() {
    let ops = F64Ops::new();
    let sample_rate = Duration::from_millis(10);

    let mut fl_data_set = data_set("10_len", 200);
    fl_data_set.downsample(sample_rate);
    assert_eq!(fl_data_set.train_data[0].steps.len(), 20);

    let reservoir = random_izhikevich(512, 0.05, 0.80, &ops);
    let mut harness = IzhikevichHarness::new(reservoir);

    let first_flight = fl_data_set.train_data[0].duplicate();
    let inputs = transform_data_set(first_flight, harness.reservoir().neuron_count(), sample_rate);
    for input in inputs {
        harness.process_input(input, &ops);
    }

    let spikes_t = harness.spike_counts();
    assert_eq!(spikes_t.len(), 200);
    assert_eq!(harness.input_end_steps().len(), 20);
    assert_eq!(*harness.input_end_steps().last().unwrap(), 200);
    assert_eq!(harness.total_time_nanos(), 200_000_000);
    let total_spikes: usize = spikes_t.iter().sum();
    assert!(total_spikes > 0);
    for f in harness.firings().iter() {
        assert!(f.windows(2).all(|w| w[0] < w[1]));
        assert!(f.iter().all(|id| *id < 512));
    }
}

#[test]
fn train_and_evaluate_izhikevich_controller() {
    let ops = F64Ops::new();
    let mut fl_data_set = data_set("intermediate_dataset", 150);
    fl_data_set.downsample(Duration::from_millis(10));
    let params = IzhikevichControllerParameters {
        n: 512,
        p: 0.05,
        excit_frac: 0.80,
        scheduler_delta_nanos: Duration::from_millis(10).as_nanos(),
        network_delta_nanos: Duration::from_millis(10).as_nanos(),
        g_in: 5.,
        alpha: 1.,
    };
    let controller = train_izhikevich_controller2(params, &fl_data_set.train_data, &ops);
    let sol = controller.readout().sol.as_ref().unwrap();
    assert_eq!(sol.coeff().nrows(), 4);
    assert_eq!(sol.coeff().ncols(), 1 + 512 + 4);

    // Open loop: the controller is shown the held-out flight step by step.
    let mut controller = Controller::Spiking(controller);
    let res = evaluate_open_loop_dataset_mse(&mut controller, &fl_data_set, &ops).unwrap();
    assert_eq!(res.episode_mses.len(), 1);
    assert_eq!(res.episode_mses[0].0, "testing_0");
    assert!(res.mean_mse.is_finite());
    assert!(res.mean_mse < 0.05);
    for s in fl_data_set.test_data[0].steps.iter() {
        let predicted = controller.update(s.update(), &ops).unwrap();
        assert!(predicted.input.iter().all(|x| 0.0 <= *x && *x <= 1.0));
    }
}

#[test]
fn a_random_reservoir_draws_sender_by_sender() {
    let ops = F64Ops::new();
    let n = 30;
    let made = random_izhikevich(n, 0.2, 0.8, &ops);
    // The same draws in the same order, written out.
    let mut rng = StdRng::seed_from_u64(42);
    let e_count = 24;
    let v: Vec<f64> = (0..n).map(|_| -65.0 + rng.gen_range(-5.0..=5.0)).collect();
    let mut connections = DMatrix::<f64>::zeros(n, n);
    for pre in 0..n {
        for post in 0..n {
            if post == pre {
                continue;
            }
            if rng.gen::<f64>() < 0.2 {
                connections[(post, pre)] = if pre < e_count {
                    rng.gen_range(0.0..=0.5)
                } else {
                    -rng.gen_range(0.0..=1.0)
                };
            }
        }
    }
    assert_eq!(made.v(), &v);
    assert_eq!(to_dmatrix(made.connections()), connections);
    let mut rng = StdRng::seed_from_u64(1337);
    let w_in = random_input_weights(n, &ops);
    for i in 0..n {
        for j in 0..10 {
            assert_eq!(w_in.get(i, j), rng.gen_range(-1.0..=1.0));
        }
    }
}
