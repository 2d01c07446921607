use nalgebra::{Complex, DMatrix, DVector, SVD};
use rand::{rngs::StdRng, thread_rng, Rng, SeedableRng};
use rand_distr::{Bernoulli, Distribution, Uniform};
use res_controller::linalg::{Draws, MatrixOps, SeededDraws};
use res_controller::matrix::Matrix;
use res_controller::scalar::ScalarOps;
use res_controller::controllers::{motor_command, readout_command};
use res_controller::dimensionality_reducer::{Reducer, ReducerType};
use res_controller::esn::Esn;
use res_controller::esn_controller::{checked_width, DroneEsn, DroneRCParameters, NonAdaptingDroneRc};
use res_controller::flight::{Channels, FlightControllerUpdate, FlightLog, SnapShot};
use res_controller::flight_controller::Controller;
use res_controller::input_mapping::{MultipleReservoirInputTrajectory, ReservoirInput};
use res_controller::loaders::FlDataSet;
use res_controller::repr::BufferedStates;
use res_controller::ridge::{RidgeError, RidgeRegression, RidgeRegressionSol};
use res_controller::setpoints::snapshots_to_motor_inputs;
use res_controller::training::{
    evaluate_open_loop_dataset_mse, evaluate_open_loop_fl_mse, mean_squared_error,
    train_on_dataset,
};
use res_controller::flight::MotorInput;

// Double precision arithmetic, with nalgebra for the linear algebra and rand
// for the draws.
struct F64Ops;

impl F64Ops {
    fn new() -> Self {
        F64Ops
    }
}

fn to_dmatrix(m: &Matrix<f64>) -> DMatrix<f64> {
    DMatrix::from_fn(m.nrows(), m.ncols(), |i, j| m.row(i)[j])
}

fn from_dmatrix(m: &DMatrix<f64>) -> Matrix<f64> {
    let rows: Vec<Vec<f64>> = (0..m.nrows())
        .map(|i| (0..m.ncols()).map(|j| m[(i, j)]).collect())
        .collect();
    Matrix::try_from_rows(m.ncols(), rows).unwrap()
}

impl ScalarOps<f64> for F64Ops {
    fn zero(&self) -> f64 {
        0.0
    }
    fn one(&self) -> f64 {
        1.0
    }
    fn plus(&self, a: f64, b: f64) -> f64 {
        a + b
    }
    fn minus(&self, a: f64, b: f64) -> f64 {
        a - b
    }
    fn times(&self, a: f64, b: f64) -> f64 {
        a * b
    }
    fn divide(&self, a: f64, b: f64) -> f64 {
        a / b
    }
    fn negate(&self, a: f64) -> f64 {
        -a
    }
    fn magnitude(&self, a: f64) -> f64 {
        a.abs()
    }
    fn sign(&self, a: f64) -> f64 {
        a.signum()
    }
    fn power_of(&self, a: f64, b: f64) -> f64 {
        a.powf(b)
    }
    fn limit(&self, a: f64, low: f64, high: f64) -> f64 {
        a.clamp(low, high)
    }
    fn exceeds(&self, a: f64, b: f64) -> bool {
        a > b
    }
    fn at_most(&self, a: f64, b: f64) -> bool {
        a <= b
    }
    fn from_count(&self, n: usize) -> f64 {
        n as f64
    }
    fn round_to_count(&self, a: f64) -> usize {
        a.round() as usize
    }
    fn squash(&self, a: f64) -> f64 {
        a.tanh()
    }
    fn exponential(&self, a: f64) -> f64 {
        a.exp()
    }
    fn square_root(&self, a: f64) -> f64 {
        a.sqrt()
    }
}

impl MatrixOps<f64> for F64Ops {
    fn mean(&self, v: &Vec<f64>) -> f64 {
        DVector::from_vec(v.clone()).mean()
    }
    fn dot(&self, a: &Vec<f64>, b: &Vec<f64>) -> f64 {
        DVector::from_vec(a.clone()).dot(&DVector::from_vec(b.clone()))
    }
    fn times_vector(&self, m: &Matrix<f64>, v: &Vec<f64>) -> Vec<f64> {
        (to_dmatrix(m) * DVector::from_vec(v.clone())).iter().cloned().collect()
    }
    fn times_matrix(&self, a: &Matrix<f64>, b: &Matrix<f64>) -> Matrix<f64> {
        from_dmatrix(&(to_dmatrix(a) * to_dmatrix(b)))
    }
    fn svd(
        &self,
        m: Matrix<f64>,
        compute_u: bool,
        compute_v: bool,
    ) -> (Option<Matrix<f64>>, Vec<f64>, Option<Matrix<f64>>) {
        let SVD { u, v_t, singular_values } = SVD::new(to_dmatrix(&m), compute_u, compute_v);
        (
            u.map(|u| from_dmatrix(&u)),
            singular_values.iter().cloned().collect(),
            v_t.map(|v_t| from_dmatrix(&v_t)),
        )
    }
    fn spectral_radius(&self, m: &Matrix<f64>) -> f64 {
        to_dmatrix(m)
            .schur()
            .complex_eigenvalues()
            .iter()
            .cloned()
            .map(Complex::norm)
            .fold(f64::NEG_INFINITY, f64::max)
    }
}

impl Draws<f64> for F64Ops {
    fn draw_weight(&self) -> f64 {
        Uniform::new(-0.5, 0.5).sample(&mut thread_rng())
    }
    fn draw_mask(&self, connectivity: f64) -> bool {
        Bernoulli::new(connectivity).unwrap().sample(&mut thread_rng())
    }
}

impl SeededDraws<f64> for F64Ops {
    type Stream = StdRng;

    fn seeded(&self, seed: u64) -> StdRng {
        StdRng::seed_from_u64(seed)
    }
    fn next_between(&self, mut stream: StdRng, low: f64, high: f64) -> (f64, StdRng) {
        let x = stream.gen_range(low..=high);
        (x, stream)
    }
    fn next_below(&self, mut stream: StdRng, low: f64, high: f64) -> (f64, StdRng) {
        let x = stream.gen_range(low..high);
        (x, stream)
    }
    fn next_unit(&self, mut stream: StdRng) -> (f64, StdRng) {
        let x = stream.gen::<f64>();
        (x, stream)
    }
}

fn snapshot(t: usize, throttle: f64) -> SnapShot<f64> {
    let motor = 0.5 + 0.05 * throttle;
    SnapShot {
        time_nanos: (t as u128) * 10_000_000,
        battery: 16.0,
        angular_velocity: [0.01 * throttle, -0.02 * throttle, 0.005],
        channels: Channels { throttle, roll: 0.0, pitch: 0.0, yaw: 0.0 },
        motor_input: [motor, motor, motor, motor],
    }
}

fn episode(id: &str, throttles: &[f64]) -> FlightLog<f64> {
    FlightLog {
        simulation_id: id.to_string(),
        steps: throttles.iter().enumerate().map(|(t, x)| snapshot(t, *x)).collect(),
    }
}

fn show(s: &SnapShot<f64>) -> FlightControllerUpdate<f64> {
    s.update()
}

fn train(train_data: &Vec<FlightLog<f64>>, parameters: DroneRCParameters<f64>) -> NonAdaptingDroneRc<f64> {
    let motor_inputs = snapshots_to_motor_inputs(train_data);
    NonAdaptingDroneRc::train_new(train_data, motor_inputs, parameters, &F64Ops::new())
}

fn tick(
    controller: &mut NonAdaptingDroneRc<f64>,
    update: FlightControllerUpdate<f64>,
) -> Result<[f64; 4], RidgeError> {
    controller.update(update, &F64Ops::new()).map(|m| m.input)
}

fn small_parameters() -> DroneRCParameters<f64> {
    DroneRCParameters {
        internal_units: 4,
        connectivity: 1.0,
        spectral_radius: 0.5,
        input_scaling: 0.15,
        buffer_size: 1,
        alpha: 1.0,
        reducer_type: ReducerType::Null,
        use_setpoint_repr: false,
    }
}

fn training_flights() -> Vec<FlightLog<f64>> {
    vec![
        episode("train_0", &[0.00, 0.05, 0.10, 0.15, 0.20]),
        episode("train_1", &[0.20, 0.12, 0.08, 0.04, 0.02]),
    ]
}

fn drone_esn(units: usize) -> DroneEsn<f64> {
    let ops = F64Ops::new();
    DroneEsn::from_esn(Esn::from_weights(
        0.1,
        Esn::internal_weights(units, 1.0, 0.5, &ops),
        Esn::input_weights(units, 10, 0.1, &ops),
    ))
    .unwrap()
}

#[test]
fn esn_controller_imitates_a_near_linear_response() {
    let ops = F64Ops::new();
    let held_out = episode("test_0", &[0.02, 0.07, 0.11, 0.16, 0.18]);
    let controller = train(&training_flights(), small_parameters());
    assert_eq!(controller.lag(), 1);
    assert_eq!(controller.esn().n_internal_units(), 4);
    assert!(controller.readout().sol.is_some());
    assert!(!controller.use_setpoint_repr());
    let mut controller = Controller::Esn(controller);
    controller.init(&ops);
    let mse = evaluate_open_loop_fl_mse(&mut controller, &held_out, &ops).unwrap();
    assert!(mse < 1e-3);
}

#[test]
fn training_on_a_data_set_uses_its_training_flights() {
    let ops = F64Ops::new();
    let dataset = FlDataSet {
        dataset_id: "synthetic".to_string(),
        train_data: training_flights(),
        test_data: vec![
            episode("test_0", &[0.02, 0.07, 0.11, 0.16, 0.18]),
            episode("test_1", &[0.18, 0.11, 0.03]),
        ],
    };
    let controller = train_on_dataset(&dataset, small_parameters(), &ops);
    assert_eq!(controller.readout().sol.as_ref().unwrap().coeff().nrows(), 4);
    assert_eq!(controller.readout().sol.as_ref().unwrap().coeff().ncols(), 8);
    let mut controller = Controller::Esn(controller);
    let result = evaluate_open_loop_dataset_mse(&mut controller, &dataset, &ops).unwrap();
    assert_eq!(result.episode_mses.len(), 2);
    assert_eq!(result.episode_mses[0].0, "test_0");
    assert_eq!(result.episode_mses[1].0, "test_1");
    let errors: Vec<f64> = result.episode_mses.iter().map(|e| e.1).collect();
    assert!(errors.iter().all(|e| *e >= 0.0 && *e < 1e-2));
    assert_eq!(result.mean_mse, (0.0 + errors[0] + errors[1]) / 2.0);
}

#[test]
fn the_error_of_an_episode_is_the_mean_over_four_motors() {
    let ops = F64Ops::new();
    let predicted = vec![
        MotorInput { input: [0.5, 0.5, 0.5, 0.5] },
        MotorInput { input: [1.0, 0.0, 0.25, 0.75] },
    ];
    let actual = vec![[0.5, 0.0, 0.5, 1.0], [1.0, 0.0, 0.25, 0.25]];
    // Squared differences: 0.25 + 0.25 in the first command, 0.25 in the
    // second, over eight scalars.
    assert_eq!(mean_squared_error(&predicted, &actual, &ops), 0.75 / 8.0);
}

#[test]
fn esn_controller_with_pca_and_setpoints_runs() {
    let ops = F64Ops::new();
    let train_data = vec![
        episode("train_0", &[0.00, 0.05, 0.10, 0.15, 0.20, 0.10]),
        episode("train_1", &[0.20, 0.12, 0.08, 0.04, 0.02, 0.07]),
    ];
    let parameters = DroneRCParameters {
        internal_units: 6,
        connectivity: 0.8,
        spectral_radius: 0.9,
        input_scaling: 0.15,
        buffer_size: 2,
        alpha: 1.0,
        reducer_type: ReducerType::PCA(3),
        use_setpoint_repr: true,
    };
    let controller = train(&train_data, parameters);
    match controller.reducer() {
        Reducer::PCAReducer(p) => assert_eq!(p.n_components(), 3),
        Reducer::NullReducer(_) => panic!("a principal-component reducer was asked for"),
    }
    assert!(controller.use_setpoint_repr());
    assert_eq!(controller.readout().sol.as_ref().unwrap().coeff().ncols(), 3 + 4);
    assert_eq!(controller.readout().sol.as_ref().unwrap().coeff().nrows(), 4);
    let mut controller = Controller::Esn(controller);
    let mse = evaluate_open_loop_fl_mse(&mut controller, &train_data[0], &ops).unwrap();
    assert!(mse < 1e-2);
}

#[test]
fn the_readout_is_fitted_to_the_features_of_the_training_flights() {
    let ops = F64Ops::new();
    let train_data = training_flights();
    let controller = train(&train_data, small_parameters());
    // The same features again, from the reservoir that training made.
    let traj = MultipleReservoirInputTrajectory::from_flight_logs(&train_data, &ops);
    let states = controller.esn().compute_state_matricies(traj, &ops);
    let features = BufferedStates::new(1).repr2(&states);
    assert_eq!(features.nrows(), 10);
    assert_eq!(features.ncols(), 8);
    let again =
        RidgeRegression::fit_multiple_svd(1.0, features, &snapshots_to_motor_inputs(&train_data), &ops);
    let fitted = controller.readout().sol.as_ref().unwrap();
    let again = again.sol.as_ref().unwrap();
    assert_eq!(fitted.coeff().duplicate().into_rows(), again.coeff().duplicate().into_rows());
    assert_eq!(fitted.intercept(), again.intercept());
}

#[test]
fn a_tick_follows_its_stages() {
    let ops = F64Ops::new();
    let mut controller = train(&training_flights(), small_parameters());
    let update = show(&snapshot(0, 0.3));
    // By hand: the next state, the window with that state twice (nothing
    // older is there), and the prediction of the readout, clamped.
    let mut state = controller.runtime_state().duplicate();
    let input = ReservoirInput::from_flight_controller_update(show(&snapshot(0, 0.3)), &ops);
    controller.esn().advance_state(&input, &mut state, &ops);
    let mut row = state.row(0).clone();
    row.extend(state.row(0).iter());
    let features = Matrix::try_from_rows(8, vec![row]).unwrap();
    let expected = readout_command(controller.readout(), &features, &ops).unwrap();
    let command = tick(&mut controller, update).unwrap();
    assert_eq!(command, expected.input);
    assert_eq!(controller.runtime_state().row(0), state.row(0));
}

#[test]
fn update_output_stays_within_unit_interval() {
    // A readout with huge coefficients and intercepts of either sign.
    let units = 3;
    let lag = 1;
    let features = units * (lag + 1);
    let coeff = Matrix::try_from_rows(
        features,
        vec![vec![1e9; features], vec![-1e9; features], vec![0.0; features], vec![1e-3; features]],
    )
    .unwrap();
    let readout = RidgeRegression {
        alpha: 1.0,
        sol: Some(RidgeRegressionSol::new(coeff, vec![1e12, -1e12, 0.25, 7.0])),
    };
    let mut controller = NonAdaptingDroneRc::from_parts(
        drone_esn(units),
        lag,
        Reducer::null_reducer(),
        readout,
        false,
        &F64Ops::new(),
    )
    .unwrap();
    for t in 0..50 {
        let update = show(&snapshot(t, ((t as f64) * 0.37).sin()));
        let command = tick(&mut controller, update).unwrap();
        for x in command.iter() {
            assert!(0.0 <= *x && *x <= 1.0);
        }
        assert_eq!(command[0], 1.0);
        assert_eq!(command[1], 0.0);
        assert_eq!(command[3], 1.0);
    }
}

#[test]
fn motor_command_clamps_each_of_the_first_four_entries() {
    let pr = Matrix::try_from_rows(5, vec![vec![-3.0, 0.25, 1.0, 1e300, 42.0]]).unwrap();
    let command = motor_command(&pr, &F64Ops::new());
    assert_eq!(command.input, [0.0, 0.25, 1.0, 1.0]);
}

#[test]
fn unfitted_controller_reports_the_error() {
    let ops = F64Ops::new();
    let mut controller = NonAdaptingDroneRc::from_parts(
        drone_esn(2),
        0,
        Reducer::null_reducer(),
        RidgeRegression::new(1.0),
        false,
        &ops,
    )
    .unwrap();
    let r = tick(&mut controller, show(&snapshot(0, 0.5)));
    assert_eq!(r, Err(RidgeError::UnfittedModel));
    let mut controller = Controller::Esn(controller);
    let log = episode("test_0", &[0.1, 0.2]);
    assert_eq!(
        evaluate_open_loop_fl_mse(&mut controller, &log, &ops),
        Err(RidgeError::UnfittedModel)
    );
    let dataset = FlDataSet { dataset_id: "d".to_string(), train_data: Vec::new(), test_data: vec![log] };
    assert!(evaluate_open_loop_dataset_mse(&mut controller, &dataset, &ops).is_err());
}

#[test]
fn parts_that_do_not_fit_are_refused() {
    let ops = F64Ops::new();
    // The readout expects 3 features, the state representation has 2 * (1 + 1).
    let coeff = Matrix::try_from_rows(3, vec![vec![0.0; 3]; 4]).unwrap();
    let readout = RidgeRegression {
        alpha: 1.0,
        sol: Some(RidgeRegressionSol::new(coeff, vec![0.0; 4])),
    };
    assert!(NonAdaptingDroneRc::from_parts(drone_esn(2), 1, Reducer::null_reducer(), readout, false, &ops)
        .is_none());
    // A readout with fewer than four outputs commands no drone.
    let coeff = Matrix::try_from_rows(4, vec![vec![0.0; 4]; 3]).unwrap();
    let readout = RidgeRegression {
        alpha: 1.0,
        sol: Some(RidgeRegressionSol::new(coeff, vec![0.0; 3])),
    };
    assert!(NonAdaptingDroneRc::from_parts(drone_esn(2), 1, Reducer::null_reducer(), readout, false, &ops)
        .is_none());
    // A reservoir for another number of input variables is no drone reservoir.
    let other = Esn::from_weights(
        0.1,
        Esn::internal_weights(2, 1.0, 0.5, &ops),
        Esn::input_weights(2, 7, 0.1, &ops),
    );
    assert!(DroneEsn::from_esn(other).is_none());
    assert_eq!(checked_width(3, 4), Some(15));
    assert_eq!(checked_width(0, usize::MAX), Some(0));
    assert_eq!(checked_width(2, usize::MAX), None);
    assert_eq!(checked_width(usize::MAX, 1), None);
}

#[test]
fn init_forgets_the_flight() {
    let ops = F64Ops::new();
    let train_data = training_flights();
    let mut controller = train(&train_data, small_parameters());
    let first: Vec<[f64; 4]> =
        train_data[0].steps.iter().map(|s| tick(&mut controller, show(s)).unwrap()).collect();
    controller.init(&ops);
    assert_eq!(controller.runtime_state().row(0), &vec![0.0; 4]);
    let again: Vec<[f64; 4]> =
        train_data[0].steps.iter().map(|s| tick(&mut controller, show(s)).unwrap()).collect();
    assert_eq!(first, again);
    assert_eq!(controller.scheduler_delta(), 10_000_000);
    let mut either = Controller::Esn(controller);
    assert_eq!(either.scheduler_delta(), 10_000_000);
    either.init(&ops);
    let once_more: Vec<[f64; 4]> = train_data[0]
        .steps
        .iter()
        .map(|s| either.update(show(s), &ops).unwrap().input)
        .collect();
    assert_eq!(first, once_more);
}
