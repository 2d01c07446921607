use nalgebra::{Complex, DMatrix, DVector, SVD};
use rand::{rngs::StdRng, thread_rng, Rng, SeedableRng};
use rand_distr::{Bernoulli, Distribution, Uniform};
use res_controller::linalg::{Draws, MatrixOps, SeededDraws};
use res_controller::matrix::Matrix;
use res_controller::scalar::ScalarOps;
use res_controller::bf_rates::{
    stick_input_to_angular_velocity, stick_inputs_to_targets, BetaflightRates,
};
use res_controller::flight::{Channels, FlightControllerUpdate, FlightLog, SnapShot};
use res_controller::input_gen::{
    generate_brownian, walk_from_flips, InputGenerationMethod, InputGenerator,
};
use res_controller::input_mapping::{
    MultipleReservoirInput, MultipleReservoirInputTrajectory, ReservoirInput, NVARS,
};
use res_controller::setpoints::{
    setpoints_from_flight_logs, setpoints_from_flight_update, snapshots_to_motor_inputs,
};
use res_controller::utils::{generate_channel_commands, spectral_radius_linspace_inclusive};

// Double precision arithmetic, with nalgebra for the linear algebra and rand
// for the draws.
struct F64Ops;

impl F64Ops {
    fn new() -> Self {
        F64Ops
    }
}

fn to_dmatrix(m: &Matrix<f64>) -> DMatrix<f64> {
    DMatrix::from_fn(m.nrows(), m.ncols(), |i, j| m.row(i)[j])
}

fn from_dmatrix(m: &DMatrix<f64>) -> Matrix<f64> {
    let rows: Vec<Vec<f64>> = (0..m.nrows())
        .map(|i| (0..m.ncols()).map(|j| m[(i, j)]).collect())
        .collect();
    Matrix::try_from_rows(m.ncols(), rows).unwrap()
}

impl ScalarOps<f64> for F64Ops {
    fn zero(&self) -> f64 {
        0.0
    }
    fn one(&self) -> f64 {
        1.0
    }
    fn plus(&self, a: f64, b: f64) -> f64 {
        a + b
    }
    fn minus(&self, a: f64, b: f64) -> f64 {
        a - b
    }
    fn times(&self, a: f64, b: f64) -> f64 {
        a * b
    }
    fn divide(&self, a: f64, b: f64) -> f64 {
        a / b
    }
    fn negate(&self, a: f64) -> f64 {
        -a
    }
    fn magnitude(&self, a: f64) -> f64 {
        a.abs()
    }
    fn sign(&self, a: f64) -> f64 {
        a.signum()
    }
    fn power_of(&self, a: f64, b: f64) -> f64 {
        a.powf(b)
    }
    fn limit(&self, a: f64, low: f64, high: f64) -> f64 {
        a.clamp(low, high)
    }
    fn exceeds(&self, a: f64, b: f64) -> bool {
        a > b
    }
    fn at_most(&self, a: f64, b: f64) -> bool {
        a <= b
    }
    fn from_count(&self, n: usize) -> f64 {
        n as f64
    }
    fn round_to_count(&self, a: f64) -> usize {
        a.round() as usize
    }
    fn squash(&self, a: f64) -> f64 {
        a.tanh()
    }
    fn exponential(&self, a: f64) -> f64 {
        a.exp()
    }
    fn square_root(&self, a: f64) -> f64 {
        a.sqrt()
    }
}

impl MatrixOps<f64> for F64Ops {
    fn mean(&self, v: &Vec<f64>) -> f64 {
        DVector::from_vec(v.clone()).mean()
    }
    fn dot(&self, a: &Vec<f64>, b: &Vec<f64>) -> f64 {
        DVector::from_vec(a.clone()).dot(&DVector::from_vec(b.clone()))
    }
    fn times_vector(&self, m: &Matrix<f64>, v: &Vec<f64>) -> Vec<f64> {
        (to_dmatrix(m) * DVector::from_vec(v.clone())).iter().cloned().collect()
    }
    fn times_matrix(&self, a: &Matrix<f64>, b: &Matrix<f64>) -> Matrix<f64> {
        from_dmatrix(&(to_dmatrix(a) * to_dmatrix(b)))
    }
    fn svd(
        &self,
        m: Matrix<f64>,
        compute_u: bool,
        compute_v: bool,
    ) -> (Option<Matrix<f64>>, Vec<f64>, Option<Matrix<f64>>) {
        let SVD { u, v_t, singular_values } = SVD::new(to_dmatrix(&m), compute_u, compute_v);
        (
            u.map(|u| from_dmatrix(&u)),
            singular_values.iter().cloned().collect(),
            v_t.map(|v_t| from_dmatrix(&v_t)),
        )
    }
    fn spectral_radius(&self, m: &Matrix<f64>) -> f64 {
        to_dmatrix(m)
            .schur()
            .complex_eigenvalues()
            .iter()
            .cloned()
            .map(Complex::norm)
            .fold(f64::NEG_INFINITY, f64::max)
    }
}

impl Draws<f64> for F64Ops {
    fn draw_weight(&self) -> f64 {
        Uniform::new(-0.5, 0.5).sample(&mut thread_rng())
    }
    fn draw_mask(&self, connectivity: f64) -> bool {
        Bernoulli::new(connectivity).unwrap().sample(&mut thread_rng())
    }
}

impl SeededDraws<f64> for F64Ops {
    type Stream = StdRng;

    fn seeded(&self, seed: u64) -> StdRng {
        StdRng::seed_from_u64(seed)
    }
    fn next_between(&self, mut stream: StdRng, low: f64, high: f64) -> (f64, StdRng) {
        let x = stream.gen_range(low..=high);
        (x, stream)
    }
    fn next_below(&self, mut stream: StdRng, low: f64, high: f64) -> (f64, StdRng) {
        let x = stream.gen_range(low..high);
        (x, stream)
    }
    fn next_unit(&self, mut stream: StdRng) -> (f64, StdRng) {
        let x = stream.gen::<f64>();
        (x, stream)
    }
}

const MAX_RATE: f64 = 11.682;
const CENTER_RATE: f64 = 1.19;

fn curve(stick: f64) -> f64 {
    let x = stick.abs();
    stick.signum() * (x * CENTER_RATE + (MAX_RATE - CENTER_RATE) * x.powf(2.0))
}

fn snapshot(seed: f64) -> SnapShot<f64> {
    SnapShot {
        time_nanos: 0,
        battery: 16.0,
        angular_velocity: [seed, 2.0 * seed, 3.0 * seed],
        channels: Channels { throttle: 0.1 + seed, roll: 0.2, pitch: -0.3, yaw: 0.4 },
        motor_input: [seed, seed + 1.0, seed + 2.0, seed + 3.0],
    }
}

fn standardize(update: FlightControllerUpdate<f64>) -> ReservoirInput<f64> {
    ReservoirInput::from_flight_controller_update(update, &F64Ops::new())
}

#[test]
fn the_default_curve() {
    let ops = F64Ops::new();
    let rates = BetaflightRates::default(&ops);
    assert_eq!(rates.max_rate, 11.682);
    assert_eq!(rates.center_rate, 1.19);
    assert_eq!(rates.expo, 0.0);
}

#[test]
fn the_rate_curve_at_full_and_half_stick() {
    let ops = F64Ops::new();
    let at = |stick: f64| stick_input_to_angular_velocity(stick, &ops);
    assert!((at(1.0) - 11.682).abs() < 1e-12);
    assert!((at(-1.0) + 11.682).abs() < 1e-12);
    assert!((at(0.5) - (0.5 * 1.19 + (11.682 - 1.19) * 0.25)).abs() < 1e-12);
    assert_eq!(at(0.0), 0.0);
    // Beyond full stick the curve goes on as it is written.
    assert!((at(2.0) - 44.348).abs() < 1e-9);
    assert!((at(-2.0) + 44.348).abs() < 1e-9);
    // Another curve: with more curvature the rate at half stick is lower.
    let bent = BetaflightRates { max_rate: 10.0, center_rate: 2.0, expo: 1.0 };
    assert!((bent.actual_rate(0.5, &ops) - (0.5 * 2.0 + 8.0 * 0.125)).abs() < 1e-12);
    for stick in [-1.5, -1.0, -0.3, 0.2, 0.77, 3.0] {
        assert_eq!(at(stick), curve(stick));
    }
}

#[test]
fn targets_take_the_opposite_for_pitch_and_roll() {
    let ops = F64Ops::new();
    let sticks = Channels { throttle: 0.0, roll: 1.0, pitch: 0.5, yaw: -1.0 };
    let rates = stick_inputs_to_targets(&sticks, &ops);
    assert_eq!(rates.yaw, curve(-1.0));
    assert_eq!(rates.pitch, -curve(0.5));
    assert_eq!(rates.roll, -curve(1.0));
}

#[test]
fn standardized_input_in_its_order() {
    let ops = F64Ops::new();
    let s = snapshot(0.5);
    let input = ReservoirInput::from_snapshot(&s, &ops);
    let roll_rate = 0.5 / MAX_RATE;
    let pitch_rate = 1.0 / MAX_RATE;
    let yaw_rate = 1.5 / MAX_RATE;
    let roll_target = -curve(0.2) / MAX_RATE;
    let pitch_target = -curve(-0.3) / MAX_RATE;
    let yaw_target = curve(0.4) / MAX_RATE;
    // The throttle, then rate, target and error of roll, of pitch and of yaw.
    let expected = vec![
        0.6,
        roll_rate,
        roll_target,
        roll_target - roll_rate,
        pitch_rate,
        pitch_target,
        pitch_target - pitch_rate,
        yaw_rate,
        yaw_target,
        yaw_target - yaw_rate,
    ];
    assert_eq!(NVARS, 10);
    assert_eq!(input.to_vector(), expected);
    let m = input.to_matrix();
    assert_eq!(m.nrows(), 1);
    assert_eq!(m.ncols(), 10);
    assert_eq!(m.row(0), &expected);
    // A snapshot and what the controller was shown at it give the same input.
    assert_eq!(standardize(s.update()).to_vector(), expected);
}

#[test]
fn inputs_of_one_instant_are_rows_of_a_matrix() {
    let ops = F64Ops::new();
    let snapshots = vec![snapshot(0.0), snapshot(1.0), snapshot(2.0)];
    let inputs = MultipleReservoirInput::from_snapshots(&snapshots, &ops);
    assert_eq!(inputs.eps(), 3);
    let expected: Vec<Vec<f64>> = snapshots.iter().map(|s| standardize(s.update()).to_vector()).collect();
    assert_eq!(inputs.into_matrix().into_rows(), expected);
}

fn log(id: &str, seeds: &[f64]) -> FlightLog<f64> {
    FlightLog { simulation_id: id.to_string(), steps: seeds.iter().map(|s| snapshot(*s)).collect() }
}

#[test]
fn trajectories_go_instant_by_instant() {
    let ops = F64Ops::new();
    // The first log sets the number of instants; longer logs are cut.
    let logs = vec![log("a", &[0.0, 1.0]), log("b", &[10.0, 11.0, 12.0])];
    let traj = MultipleReservoirInputTrajectory::from_flight_logs(&logs, &ops);
    let (eps, time, inputs) = traj.to_reservoir_input();
    assert_eq!(eps, 2);
    assert_eq!(time, 2);
    assert_eq!(inputs.len(), 2);
    for t in 0..2 {
        assert_eq!(inputs[t].nrows(), 2);
        assert_eq!(inputs[t].ncols(), 10);
        for ep in 0..2 {
            assert_eq!(inputs[t].row(ep), &standardize(logs[ep].steps[t].update()).to_vector());
        }
    }
}

#[test]
fn setpoints_are_throttle_yaw_pitch_roll() {
    let update = snapshot(0.5).update();
    let m = setpoints_from_flight_update(&update);
    assert_eq!(m.nrows(), 1);
    assert_eq!(m.ncols(), 4);
    assert_eq!(m.row(0), &vec![0.6, 0.4, -0.3, 0.2]);
    let logs = vec![log("a", &[0.0, 1.0]), log("b", &[]), log("c", &[2.0])];
    let m = setpoints_from_flight_logs(&logs);
    assert_eq!(m.ncols(), 4);
    assert_eq!(
        m.into_rows(),
        vec![vec![0.1, 0.4, -0.3, 0.2], vec![1.1, 0.4, -0.3, 0.2], vec![2.1, 0.4, -0.3, 0.2]]
    );
    let none: Vec<FlightLog<f64>> = Vec::new();
    let m = setpoints_from_flight_logs(&none);
    assert_eq!(m.nrows(), 0);
    assert_eq!(m.ncols(), 4);
}

#[test]
fn motor_inputs_are_one_row_per_step() {
    let logs = vec![log("a", &[0.0, 1.0]), log("b", &[5.0])];
    let m = snapshots_to_motor_inputs(&logs);
    assert_eq!(m.ncols(), 4);
    assert_eq!(
        m.into_rows(),
        vec![vec![0.0, 1.0, 2.0, 3.0], vec![1.0, 2.0, 3.0, 4.0], vec![5.0, 6.0, 7.0, 8.0]]
    );
}

#[test]
fn the_command_grid_runs_roll_fastest() {
    let ops = F64Ops::new();
    let grid = generate_channel_commands(&ops);
    assert_eq!(grid.len(), 125);
    let values = [-1.0, -0.5, 0.0, 0.5, 1.0];
    for (i, c) in grid.iter().enumerate() {
        assert_eq!(c.throttle, -1.0);
        assert_eq!(c.yaw, values[i / 25]);
        assert_eq!(c.pitch, values[(i / 5) % 5]);
        assert_eq!(c.roll, values[i % 5]);
    }
}

#[test]
fn spectral_radii_in_equal_steps() {
    let ops = F64Ops::new();
    assert_eq!(
        spectral_radius_linspace_inclusive(0.5, 1.5, 5, &ops),
        vec![0.5, 0.75, 1.0, 1.25, 1.5]
    );
    assert_eq!(spectral_radius_linspace_inclusive(2.0, -2.0, 2, &ops), vec![2.0, -2.0]);
}

#[test]
fn a_wandering_stick_follows_its_coin() {
    let ops = F64Ops::new();
    // Heads three times: the velocity grows by a step each millisecond.
    let walk = walk_from_flips(&vec![true, true, true], &ops);
    let step = 0.0001;
    let v1 = 0.0 + step;
    let v2 = v1 + step;
    let v3 = v2 + step;
    assert_eq!(walk, vec![v1, v1 + v2, v1 + v2 + v3]);
    // Heads then tails: the stick moves one step and stays.
    let walk = walk_from_flips(&vec![true, false], &ops);
    assert_eq!(walk, vec![step, step + (step - step)]);
    let none: Vec<f64> = walk_from_flips(&Vec::new(), &ops);
    assert!(none.is_empty());
}

#[test]
fn a_wandering_stick_stops_at_the_end_of_its_range() {
    let ops = F64Ops::new();
    // With heads only the stick reaches one after about 141 milliseconds and
    // is held there.
    let walk = walk_from_flips(&vec![true; 400], &ops);
    assert!(walk.iter().all(|p| *p >= -1.0 && *p <= 1.0));
    let first_at_end = walk.iter().position(|p| *p == 1.0).unwrap();
    assert_eq!(first_at_end, 140);
    // Having stopped, the stick starts slowly again and leaves the range at
    // once: it stays at the end.
    assert!(walk[first_at_end..].iter().all(|p| *p == 1.0));
    let walk = generate_brownian(2000, &ops);
    assert_eq!(walk.len(), 2000);
    assert!(walk.iter().all(|p| *p >= -1.0 && *p <= 1.0));
    assert!(walk.iter().any(|p| *p != 0.0));
}

#[test]
fn sticks_are_generated_each_by_its_method() {
    let ops = F64Ops::new();
    let resting = InputGenerator::default(&ops);
    let channels = resting.generate(3, &ops);
    assert_eq!(channels.len(), 3);
    for c in channels.iter() {
        assert_eq!((c.throttle, c.yaw, c.pitch, c.roll), (-1.0, 0.0, 0.0, 0.0));
    }
    let generator = InputGenerator::default(&ops)
        .set_throttle(InputGenerationMethod::Uniform(0.25))
        .set_yaw(InputGenerationMethod::Brownian)
        .set_pitch(InputGenerationMethod::Uniform(-0.5))
        .set_roll(InputGenerationMethod::Uniform(0.75));
    let channels = generator.generate(50, &ops);
    assert_eq!(channels.len(), 50);
    for c in channels.iter() {
        assert_eq!((c.throttle, c.pitch, c.roll), (0.25, -0.5, 0.75));
        assert!(c.yaw.abs() <= 1.0);
    }
    // The first step of a wandering stick is one step up or down.
    assert_eq!(channels[0].yaw.abs(), 0.0001);
    assert!(generator.generate(0, &ops).is_empty());
    assert_eq!(InputGenerationMethod::Uniform(2.0).to_values(2, &ops), vec![2.0, 2.0]);
}
