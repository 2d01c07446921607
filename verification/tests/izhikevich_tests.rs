use nalgebra::{Complex, DMatrix, DVector, SVD};
use rand::{rngs::StdRng, thread_rng, Rng, SeedableRng};
use rand_distr::{Bernoulli, Distribution, Uniform};
use res_controller::linalg::{Draws, MatrixOps, SeededDraws};
use res_controller::matrix::Matrix;
use res_controller::scalar::ScalarOps;
use res_controller::izhikevich::{
    count_micro_steps, draw_connection, fast_spiking_single_neuron_reservoir,
    random_izhikevich, regular_spiking_single_neuron_reservoir, reservoir_from_stream,
    IzhikevichHarness, IzhikevichInput, IzhikevichReservoir, MICRO_STEP_NANOS,
};
use res_controller::stats::{activity, activity_of};

// Double precision arithmetic, with nalgebra for the linear algebra and rand
// for the draws.
struct F64Ops;

impl F64Ops {
    fn new() -> Self {
        F64Ops
    }
}

fn to_dmatrix(m: &Matrix<f64>) -> DMatrix<f64> {
    DMatrix::from_fn(m.nrows(), m.ncols(), |i, j| m.row(i)[j])
}

fn from_dmatrix(m: &DMatrix<f64>) -> Matrix<f64> {
    let rows: Vec<Vec<f64>> = (0..m.nrows())
        .map(|i| (0..m.ncols()).map(|j| m[(i, j)]).collect())
        .collect();
    Matrix::try_from_rows(m.ncols(), rows).unwrap()
}

impl ScalarOps<f64> for F64Ops {
    fn zero(&self) -> f64 {
        0.0
    }
    fn one(&self) -> f64 {
        1.0
    }
    fn plus(&self, a: f64, b: f64) -> f64 {
        a + b
    }
    fn minus(&self, a: f64, b: f64) -> f64 {
        a - b
    }
    fn times(&self, a: f64, b: f64) -> f64 {
        a * b
    }
    fn divide(&self, a: f64, b: f64) -> f64 {
        a / b
    }
    fn negate(&self, a: f64) -> f64 {
        -a
    }
    fn magnitude(&self, a: f64) -> f64 {
        a.abs()
    }
    fn sign(&self, a: f64) -> f64 {
        a.signum()
    }
    fn power_of(&self, a: f64, b: f64) -> f64 {
        a.powf(b)
    }
    fn limit(&self, a: f64, low: f64, high: f64) -> f64 {
        a.clamp(low, high)
    }
    fn exceeds(&self, a: f64, b: f64) -> bool {
        a > b
    }
    fn at_most(&self, a: f64, b: f64) -> bool {
        a <= b
    }
    fn from_count(&self, n: usize) -> f64 {
        n as f64
    }
    fn round_to_count(&self, a: f64) -> usize {
        a.round() as usize
    }
    fn squash(&self, a: f64) -> f64 {
        a.tanh()
    }
    fn exponential(&self, a: f64) -> f64 {
        a.exp()
    }
    fn square_root(&self, a: f64) -> f64 {
        a.sqrt()
    }
}

impl MatrixOps<f64> for F64Ops {
    fn mean(&self, v: &Vec<f64>) -> f64 {
        DVector::from_vec(v.clone()).mean()
    }
    fn dot(&self, a: &Vec<f64>, b: &Vec<f64>) -> f64 {
        DVector::from_vec(a.clone()).dot(&DVector::from_vec(b.clone()))
    }
    fn times_vector(&self, m: &Matrix<f64>, v: &Vec<f64>) -> Vec<f64> {
        (to_dmatrix(m) * DVector::from_vec(v.clone())).iter().cloned().collect()
    }
    fn times_matrix(&self, a: &Matrix<f64>, b: &Matrix<f64>) -> Matrix<f64> {
        from_dmatrix(&(to_dmatrix(a) * to_dmatrix(b)))
    }
    fn svd(
        &self,
        m: Matrix<f64>,
        compute_u: bool,
        compute_v: bool,
    ) -> (Option<Matrix<f64>>, Vec<f64>, Option<Matrix<f64>>) {
        let SVD { u, v_t, singular_values } = SVD::new(to_dmatrix(&m), compute_u, compute_v);
        (
            u.map(|u| from_dmatrix(&u)),
            singular_values.iter().cloned().collect(),
            v_t.map(|v_t| from_dmatrix(&v_t)),
        )
    }
    fn spectral_radius(&self, m: &Matrix<f64>) -> f64 {
        to_dmatrix(m)
            .schur()
            .complex_eigenvalues()
            .iter()
            .cloned()
            .map(Complex::norm)
            .fold(f64::NEG_INFINITY, f64::max)
    }
}

impl Draws<f64> for F64Ops {
    fn draw_weight(&self) -> f64 {
        Uniform::new(-0.5, 0.5).sample(&mut thread_rng())
    }
    fn draw_mask(&self, connectivity: f64) -> bool {
        Bernoulli::new(connectivity).unwrap().sample(&mut thread_rng())
    }
}

impl SeededDraws<f64> for F64Ops {
    type Stream = StdRng;

    fn seeded(&self, seed: u64) -> StdRng {
        StdRng::seed_from_u64(seed)
    }
    fn next_between(&self, mut stream: StdRng, low: f64, high: f64) -> (f64, StdRng) {
        let x = stream.gen_range(low..=high);
        (x, stream)
    }
    fn next_below(&self, mut stream: StdRng, low: f64, high: f64) -> (f64, StdRng) {
        let x = stream.gen_range(low..high);
        (x, stream)
    }
    fn next_unit(&self, mut stream: StdRng) -> (f64, StdRng) {
        let x = stream.gen::<f64>();
        (x, stream)
    }
}

fn window(input: Vec<f64>, ms: u128) -> IzhikevichInput<f64> {
    IzhikevichInput { input, duration_nanos: ms * 1_000_000 }
}

fn pair() -> IzhikevichReservoir<f64> {
    // Neuron 0 sends the weight 2.5 to neuron 1; nothing comes back.
    let connections = Matrix::try_from_rows(2, vec![vec![0.0, 0.0], vec![2.5, 0.0]]).unwrap();
    IzhikevichReservoir::new(
        vec![0.02, 0.1],
        vec![0.2, 0.2],
        vec![-65.0, -60.0],
        vec![8.0, 2.0],
        connections,
        vec![35.0, 30.0],
        vec![1.0, 2.0],
    )
}

#[test]
fn the_single_neurons_rest_with_the_parameters_of_their_class() {
    let ops = F64Ops::new();
    let rs = regular_spiking_single_neuron_reservoir(&ops);
    assert_eq!((rs.a(), rs.b(), rs.c(), rs.d()), (&vec![0.02], &vec![0.2], &vec![-65.0], &vec![8.0]));
    assert_eq!(rs.v(), &vec![-65.0]);
    assert_eq!(rs.u(), &vec![0.2 * -65.0]);
    assert_eq!(rs.connections().duplicate().into_rows(), vec![vec![0.0]]);
    assert_eq!(rs.neuron_count(), 1);
    assert_eq!(rs.dt_nanos(), 1_000_000);
    let fs = fast_spiking_single_neuron_reservoir(&ops);
    assert_eq!((fs.a(), fs.b(), fs.c(), fs.d()), (&vec![0.1], &vec![0.2], &vec![-65.0], &vec![2.0]));
    assert_eq!(fs.v(), &vec![-65.0]);
    assert_eq!(fs.u(), &vec![0.2 * -65.0]);
}

#[test]
fn a_resting_neuron_never_fires() {
    let ops = F64Ops::new();
    let mut harness = IzhikevichHarness::new(regular_spiking_single_neuron_reservoir(&ops));
    harness.process_input(window(vec![0.0], 1000), &ops);
    assert_eq!(harness.firings().len(), 1000);
    assert!(harness.firings().iter().all(|f| f.is_empty()));
    assert_eq!(harness.input_end_steps(), &vec![1000]);
    assert_eq!(harness.total_time_nanos(), 1_000_000_000);
    assert!(harness.spike_counts().iter().all(|c| *c == 0));
    let traces = harness.calculate_spike_traces(0.9, &ops);
    assert_eq!(traces.into_rows(), vec![vec![0.0]]);
}

#[test]
fn a_driven_neuron_fires_periodically() {
    let ops = F64Ops::new();
    let mut harness = IzhikevichHarness::new(regular_spiking_single_neuron_reservoir(&ops));
    harness.process_input(window(vec![10.0], 1000), &ops);
    let spikes: Vec<usize> = harness
        .firings()
        .iter()
        .enumerate()
        .filter(|(_, f)| !f.is_empty())
        .map(|(t, _)| t)
        .collect();
    assert!(spikes.len() >= 5);
    let intervals: Vec<usize> = spikes.windows(2).map(|w| w[1] - w[0]).collect();
    // The intervals between spikes are bounded on both sides.
    assert!(intervals.iter().all(|i| *i > 1 && *i < 100));
    // After the first spikes the rhythm stays within a narrow band.
    let late = &intervals[2..];
    let shortest = *late.iter().min().unwrap();
    let longest = *late.iter().max().unwrap();
    assert!(longest < 2 * shortest);
    assert_eq!(spikes[0], 4);
    assert_eq!(spikes.len(), 20);
    for f in harness.firings().iter() {
        assert!(f.len() <= 1);
        assert!(f.iter().all(|id| *id == 0));
    }
    assert_eq!(harness.spike_counts().iter().sum::<usize>(), 20);
}

#[test]
fn one_micro_step_by_hand() {
    let ops = F64Ops::new();
    let mut r = regular_spiking_single_neuron_reservoir(&ops);
    r.excite(vec![0.0], &ops);
    // At rest the rate is 0.04 * 65 * 65 - 5 * 65 + 140 + 13 = -3: the first
    // half step leads to -66.5, where the rate is -2.61.
    let v = -66.5 + 0.5 * (0.04 * 66.5 * 66.5 - 5.0 * 66.5 + 140.0 + 13.0);
    assert!((r.v()[0] - v).abs() < 1e-12);
    assert!((r.v()[0] + 67.805).abs() < 1e-9);
    let u = -13.0 + 0.02 * (0.2 * v + 13.0);
    assert!((r.u()[0] - u).abs() < 1e-12);
    assert!((r.u()[0] + 13.01122).abs() < 1e-9);
}

#[test]
fn the_current_is_kept_between_its_bounds() {
    let ops = F64Ops::new();
    let run = |input: f64| {
        let mut r = regular_spiking_single_neuron_reservoir(&ops);
        r.excite(vec![input], &ops);
        (r.v()[0], r.u()[0])
    };
    assert_eq!(run(1000.0), run(50.0));
    assert_eq!(run(-1000.0), run(-100.0));
    assert!(run(50.0) != run(49.0));
    assert!(run(-100.0) != run(-99.0));
}

#[test]
fn diffuse_resets_and_passes_weights_on() {
    let ops = F64Ops::new();
    let mut r = pair();
    // Neuron 0 is above the threshold; neuron 1 sits on it and does not fire.
    let (input, fired) = r.diffuse(vec![1.0, 1.0], &ops);
    assert_eq!(fired, vec![0]);
    // Neuron 0 restarts at its reset potential and its recovery variable
    // rises by its increment.
    assert_eq!(r.v(), &vec![-65.0, 30.0]);
    assert_eq!(r.u(), &vec![9.0, 2.0]);
    // Column 0 of the connections went into the input.
    assert_eq!(input, vec![1.0, 3.5]);
    assert_eq!(r.neuron_count(), 2);
    // Nothing fires now.
    let (input, fired) = r.diffuse(vec![0.5, 0.5], &ops);
    assert!(fired.is_empty());
    assert_eq!(input, vec![0.5, 0.5]);
}

#[test]
fn micro_steps_cover_the_window() {
    assert_eq!(MICRO_STEP_NANOS, 1_000_000);
    assert_eq!(count_micro_steps(0, 1_000_000), 0);
    assert_eq!(count_micro_steps(1, 1_000_000), 1);
    assert_eq!(count_micro_steps(1_000_000, 1_000_000), 1);
    assert_eq!(count_micro_steps(1_000_001, 1_000_000), 2);
    assert_eq!(count_micro_steps(10_000_000, 1_000_000), 10);
    assert_eq!(count_micro_steps(u128::MAX, 1), u128::MAX);
}

#[test]
fn window_ends_are_cumulative() {
    let ops = F64Ops::new();
    let mut harness = IzhikevichHarness::new(regular_spiking_single_neuron_reservoir(&ops));
    assert_eq!(harness.reservoir().dt_nanos(), 1_000_000);
    harness.process_input(window(vec![0.0], 10), &ops);
    harness.process_input(IzhikevichInput { input: vec![0.0], duration_nanos: 1_500_000 }, &ops);
    harness.process_input(window(vec![0.0], 0), &ops);
    harness.process_input(window(vec![0.0], 3), &ops);
    assert_eq!(harness.input_end_steps(), &vec![10, 12, 12, 15]);
    assert_eq!(harness.firings().len(), 15);
    assert_eq!(harness.total_time_nanos(), 15_000_000);
}

#[test]
fn spike_traces_are_sampled_at_the_window_ends() {
    let ops = F64Ops::new();
    let mut harness = IzhikevichHarness::new(regular_spiking_single_neuron_reservoir(&ops));
    // The driven neuron fires in micro-step 4 (counted from 0) for the first
    // time, and not again for tens of micro-steps.
    harness.process_input(window(vec![10.0], 4), &ops);
    harness.process_input(window(vec![10.0], 1), &ops);
    harness.process_input(window(vec![10.0], 2), &ops);
    harness.process_input(window(vec![10.0], 0), &ops);
    assert_eq!(harness.input_end_steps(), &vec![4, 5, 7, 7]);
    assert_eq!(harness.spike_counts(), vec![0, 0, 0, 0, 1, 0, 0]);
    let traces = harness.calculate_spike_traces(0.5, &ops);
    assert_eq!(traces.nrows(), 4);
    assert_eq!(traces.ncols(), 1);
    // A micro-step halves the trace and a spike adds one; a window without
    // micro-steps repeats the trace.
    assert_eq!(traces.into_rows(), vec![vec![0.0], vec![1.0], vec![0.25], vec![0.25]]);
}

#[test]
fn traces_without_neurons_or_windows_are_empty_but_shaped() {
    let ops = F64Ops::new();
    let empty: IzhikevichReservoir<f64> = IzhikevichReservoir::new(
        Vec::new(),
        Vec::new(),
        Vec::new(),
        Vec::new(),
        Matrix::empty(0),
        Vec::new(),
        Vec::new(),
    );
    let mut harness = IzhikevichHarness::new(empty);
    harness.process_input(window(Vec::new(), 3), &ops);
    harness.process_input(window(Vec::new(), 3), &ops);
    let traces = harness.calculate_spike_traces(0.5, &ops);
    assert_eq!(traces.nrows(), 2);
    assert_eq!(traces.ncols(), 0);

    let harness = IzhikevichHarness::new(regular_spiking_single_neuron_reservoir(&ops));
    let traces = harness.calculate_spike_traces(0.5, &ops);
    assert_eq!(traces.nrows(), 0);
    assert_eq!(traces.ncols(), 1);
}

#[test]
fn a_copy_of_a_reservoir_runs_on_its_own() {
    let ops = F64Ops::new();
    let first = regular_spiking_single_neuron_reservoir(&ops);
    let mut copy = first.duplicate();
    copy.excite(vec![10.0], &ops);
    assert_eq!(first.v(), &vec![-65.0]);
    assert!(copy.v()[0] != -65.0);
}

#[test]
fn a_random_reservoir_has_two_classes_and_no_self_connections() {
    let ops = F64Ops::new();
    let r = random_izhikevich(40, 0.3, 0.8, &ops);
    assert_eq!(r.neuron_count(), 40);
    assert_eq!(r.dt_nanos(), MICRO_STEP_NANOS);
    let mut connected = 0;
    for i in 0..40 {
        let excitatory = i < 32;
        assert_eq!(r.a()[i], if excitatory { 0.02 } else { 0.1 });
        assert_eq!(r.b()[i], 0.2);
        assert_eq!(r.c()[i], -65.0);
        assert_eq!(r.d()[i], if excitatory { 8.0 } else { 2.0 });
        assert!(r.v()[i] >= -70.0 && r.v()[i] <= -60.0);
        assert_eq!(r.u()[i], r.b()[i] * r.v()[i]);
        assert_eq!(r.connections().get(i, i), 0.0);
        for post in 0..40 {
            let w = r.connections().get(post, i);
            if excitatory {
                assert!(w >= 0.0 && w <= 0.5);
            } else {
                assert!(w <= 0.0 && w >= -1.0);
            }
            if w != 0.0 {
                connected += 1;
            }
        }
    }
    // About three in ten of the 1560 possible connections exist.
    assert!(connected > 300 && connected < 650);
    // The draws start from a fixed seed: the same reservoir again.
    let again = random_izhikevich(40, 0.3, 0.8, &ops);
    assert_eq!(again.v(), r.v());
    assert_eq!(again.connections().duplicate().into_rows(), r.connections().duplicate().into_rows());
    // No neurons, no reservoir to speak of.
    assert_eq!(random_izhikevich(0, 0.3, 0.8, &ops).neuron_count(), 0);
    // Another generator gives another reservoir.
    let other = reservoir_from_stream(40, 0.3, 0.8, StdRng::seed_from_u64(7), &ops);
    assert!(other.v() != r.v());
    let same = reservoir_from_stream(40, 0.3, 0.8, StdRng::seed_from_u64(42), &ops);
    assert_eq!(same.v(), r.v());
}

#[test]
fn without_a_chance_nothing_is_connected() {
    let ops = F64Ops::new();
    let r = random_izhikevich(3, 0.0, 0.5, &ops);
    assert_eq!(r.neuron_count(), 3);
    // One and a half neurons round to two excitatory ones.
    assert_eq!(r.a(), &vec![0.02, 0.02, 0.1]);
    assert_eq!(r.d(), &vec![8.0, 8.0, 2.0]);
    assert_eq!(r.c(), &vec![-65.0, -65.0, -65.0]);
    assert_eq!(r.connections().duplicate().into_rows(), vec![vec![0.0; 3]; 3]);
    assert_eq!(r.dt_nanos(), 1_000_000);
    // With every chance every other neuron is reached, unless the weight
    // drawn is zero itself.
    let full = random_izhikevich(6, 1.0, 0.5, &ops);
    for pre in 0..6 {
        for post in 0..6 {
            assert_eq!(full.connections().get(post, pre) == 0.0, post == pre);
        }
    }
}

#[test]
fn one_connection_by_its_draws() {
    let ops = F64Ops::new();
    let mut rng = StdRng::seed_from_u64(3);
    let unit = rng.gen::<f64>();
    let weight = rng.gen_range(0.0..=1.0);
    // A chance above the draw connects, with the next draw as weight; an
    // inhibitory sender sends its opposite.
    let (w, _) = draw_connection(StdRng::seed_from_u64(3), unit + 0.01, false, false, &ops);
    assert_eq!(w, -weight);
    // A chance at the draw or below does not connect.
    let (w, mut after) = draw_connection(StdRng::seed_from_u64(3), unit, true, false, &ops);
    assert_eq!(w, 0.0);
    let mut again = StdRng::seed_from_u64(3);
    let _ = again.gen::<f64>();
    assert_eq!(after.gen::<f64>(), again.gen::<f64>());
    // A neuron sends nothing to itself, and no draw is made for that.
    let (w, mut untouched) = draw_connection(StdRng::seed_from_u64(3), 1.0, true, true, &ops);
    assert_eq!(w, 0.0);
    assert_eq!(untouched.gen::<f64>(), unit);
}

#[test]
fn activity_in_numbers() {
    let ops = F64Ops::new();
    // Four micro-steps of two neurons over four milliseconds.
    let stats = activity_of(&vec![0, 2, 0, 2], 2, 4_000_000, &ops).unwrap();
    assert_eq!(stats.t_steps, 4);
    assert_eq!(stats.total_spikes, 4);
    assert_eq!(stats.dt_secs, 0.004);
    assert_eq!(stats.mean, 1.0);
    assert_eq!(stats.std, 1.0);
    assert_eq!(stats.cv, 1.0);
    assert_eq!(stats.threshold, 3.0);
    assert_eq!(stats.burst_steps, 0);
    assert_eq!(stats.burst_frac, 0.0);
    assert_eq!(stats.silent_frac, 0.5);
    assert_eq!(stats.rate_hz, 4.0 / (2.0 * 0.004));
    // Even activity: a micro-step with more than the mean plus one is a
    // burst, and there is none.
    let stats = activity_of(&vec![3, 3, 3], 5, 2_500_000_000, &ops).unwrap();
    assert_eq!((stats.mean, stats.std, stats.cv, stats.threshold), (3.0, 0.0, 0.0, 4.0));
    assert_eq!(stats.dt_secs, 2.5);
    assert_eq!(stats.silent_frac, 0.0);
    // One micro-step far above the others is a burst.
    let mut counts = vec![1; 99];
    counts.push(50);
    let stats = activity_of(&counts, 60, 100_000_000, &ops).unwrap();
    assert_eq!(stats.burst_steps, 1);
    assert_eq!(stats.burst_frac, 0.01);
    // No micro-steps, no statistics; nor where the spikes cannot be counted.
    assert!(activity_of(&Vec::new(), 2, 0, &ops).is_none());
    assert!(activity_of(&vec![usize::MAX, 1], 2, 1, &ops).is_none());
}

#[test]
fn the_activity_of_a_harness() {
    let ops = F64Ops::new();
    let mut harness = IzhikevichHarness::new(regular_spiking_single_neuron_reservoir(&ops));
    assert!(activity(&harness, &ops).is_none());
    harness.process_input(window(vec![10.0], 1000), &ops);
    let stats = activity(&harness, &ops).unwrap();
    assert_eq!(stats.t_steps, 1000);
    assert_eq!(stats.total_spikes, 20);
    assert_eq!(stats.dt_secs, 1.0);
    assert_eq!(stats.rate_hz, 20.0);
    assert_eq!(stats.mean, 0.02);
    assert_eq!(stats.silent_frac, 0.98);
    assert_eq!(stats.burst_steps, 20);
}
