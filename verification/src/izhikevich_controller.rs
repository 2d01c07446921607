//! The controller built on a spiking reservoir.
//!
//! At every tick the controller standardizes what it is shown, projects it
//! through its input weights and gain into a current for each neuron, runs
//! its reservoir under that current for one network period while the spike
//! traces follow what fires, and lets the readout predict four motor
//! commands from a one, the traces and the stick positions.

use crate::controllers::{command_spec, command_view, is_clamped, readout_command};
use crate::flight::{Channels, FlightControllerUpdate, FlightLog, MotorInput, SnapShot};
use crate::input_mapping::{shown, standardized, vector_of, ReservoirInput, NVARS};
use crate::izhikevich::{
    bumped, count_micro_steps, decayed, excitatory_count, firing_ids_bounds, ids_below,
    micro_step, micro_steps, millis_of, random_izhikevich, random_reservoir, run_firings,
    run_model, spike_traces, step_millis, trace_after, trace_from, IzhikevichHarness,
    IzhikevichInput, IzhikevichReservoir, ReservoirModel, MICRO_STEP_NANOS, RESERVOIR_SEED,
};
use crate::linalg::{
    draw_row, drawn_between, draws_ok, is_matrix_vector, matrix_ops_ok, matrix_vector,
    run_between, stream_of, MatrixOps, SeededDraws,
};
use crate::matrix::{copy_of, copy_row, extend_row, rectangular, rows_view, Matrix};
use crate::ridge::{fit_coeff, fit_intercept, RidgeError, RidgeRegression};
use crate::scalar::{
    count_of, exp_of, negated, one_of, product, quotient, scale_row, zero_of, ScalarOps,
};
use crate::setpoints::{log_motor_inputs, motor_inputs_spec, snapshots_to_motor_inputs};
use vstd::prelude::*;

verus! {

/// The seed of the draws that the input weights of a trained controller are
/// made from.
pub const INPUT_WEIGHT_SEED: u64 = 1337;

/// The current into each neuron for the input vector `v`: the product of
/// the input weights and the vector, every entry multiplied by the gain.
pub open spec fn current_spec<T, O: MatrixOps<T>>(ops: O, w_in: Seq<Seq<T>>, v: Seq<T>, g_in: T)
    -> Seq<T> {
    matrix_vector(ops, w_in, NVARS as nat, v).map_values(|x: T| product(ops, x, g_in))
}

/// The features of a tick: a one, the spike traces, and the stick positions
/// throttle, yaw, pitch, roll.
pub open spec fn representation_row<T, O: ScalarOps<T>>(
    ops: O,
    traces: Seq<T>,
    channels: Channels<T>,
) -> Seq<T> {
    seq![one_of(ops)] + traces + seq![
        channels.throttle,
        channels.yaw,
        channels.pitch,
        channels.roll,
    ]
}

/// A trained controller on a spiking reservoir, with the reservoir in its
/// present state and the spike trace of each neuron.
pub struct IzhikevichController<T> {
    reservoir: IzhikevichReservoir<T>,
    spike_traces: Vec<T>,
    spike_trace_decay_factor: T,
    w_in: Matrix<T>,
    readout: RidgeRegression<T>,
    scheduler_delta_nanos: u128,
    network_delta_nanos: u128,
    g_in: T,
}

/// The parts of a spiking controller fit together: one trace and one row of
/// input weights per neuron, one column of input weights per input variable,
/// and a readout for a one, the traces and four stick positions with at
/// least four outputs.
pub open spec fn spiking_parts_fit<T>(
    n: nat,
    traces: nat,
    w_in: Matrix<T>,
    readout: RidgeRegression<T>,
) -> bool {
    &&& traces == n
    &&& w_in@.len() == n
    &&& w_in.cols() == NVARS
    &&& 1 + n + 4 <= usize::MAX
    &&& readout.sol matches Some(sol) ==> sol.features() == 1 + n + 4 && sol.intercepts().len()
        >= 4
}

impl<T> IzhikevichController<T> {
    #[verifier::type_invariant]
    spec fn inv(&self) -> bool {
        spiking_parts_fit(self.reservoir@.n(), self.spike_traces@.len(), self.w_in, self.readout)
    }

    /// The reservoir in its present state.
    pub closed spec fn reservoir_model(&self) -> ReservoirModel<T> {
        self.reservoir@
    }

    /// The length of a micro-step of the reservoir in nanoseconds.
    pub closed spec fn dt(&self) -> nat {
        self.reservoir.dt()
    }

    /// The spike trace of each neuron.
    pub closed spec fn traces(&self) -> Seq<T> {
        self.spike_traces@
    }

    /// The factor by which every trace decays in a micro-step.
    pub closed spec fn decay_factor(&self) -> T {
        self.spike_trace_decay_factor
    }

    /// The input weights, one row per neuron.
    pub closed spec fn input_weights(&self) -> Seq<Seq<T>> {
        self.w_in@
    }

    /// The gain of the input.
    pub closed spec fn gain(&self) -> T {
        self.g_in
    }

    /// The readout.
    pub closed spec fn readout_spec(&self) -> RidgeRegression<T> {
        self.readout
    }

    /// The tick interval in nanoseconds.
    pub closed spec fn scheduler_nanos(&self) -> nat {
        self.scheduler_delta_nanos as nat
    }

    /// The time for which the reservoir runs at each tick, in nanoseconds.
    pub closed spec fn network_nanos(&self) -> nat {
        self.network_delta_nanos as nat
    }

    /// The trained parts are the same in `self` and `other`.
    pub open spec fn same_training(&self, other: &Self) -> bool {
        &&& self.reservoir_model().n() == other.reservoir_model().n()
        &&& self.dt() == other.dt()
        &&& self.decay_factor() == other.decay_factor()
        &&& self.input_weights() == other.input_weights()
        &&& self.gain() == other.gain()
        &&& self.readout_spec() == other.readout_spec()
        &&& self.scheduler_nanos() == other.scheduler_nanos()
        &&& self.network_nanos() == other.network_nanos()
    }

    /// A tick that shows `update` takes the controller `self` to `after`
    /// with the outcome `r`: the reservoir runs for one network period under
    /// the current that the standardized input makes, the traces follow
    /// what fires, and the outcome is what the readout commands for a one,
    /// the traces and the stick positions.
    pub open spec fn ticks_to<O: MatrixOps<T>>(
        &self,
        ops: O,
        update: FlightControllerUpdate<T>,
        after: &Self,
        r: Result<MotorInput<T>, RidgeError>,
    ) -> bool {
        let current = current_spec(
            ops,
            self.input_weights(),
            vector_of(standardized(ops, update)),
            self.gain(),
        );
        let k = micro_steps(self.network_nanos(), self.dt());
        &&& after.same_training(self)
        &&& after.reservoir_model() == run_model(ops, self.reservoir_model(), self.dt(), current, k)
        &&& after.traces() == trace_from(
            ops,
            self.traces(),
            run_firings(ops, self.reservoir_model(), self.dt(), current, k),
            self.decay_factor(),
            k,
        )
        &&& command_view(r) == command_spec(
            ops,
            self.readout_spec(),
            seq![representation_row(ops, after.traces(), update.channels)],
        )
    }
}

impl<T: Copy> IzhikevichController<T> {
    /// A controller from its parts, with all traces at zero; `None` where
    /// the parts do not fit together.
    pub fn from_parts<O: ScalarOps<T>>(
        reservoir: IzhikevichReservoir<T>,
        spike_trace_decay_factor: T,
        w_in: Matrix<T>,
        readout: RidgeRegression<T>,
        scheduler_delta_nanos: u128,
        network_delta_nanos: u128,
        g_in: T,
        ops: &O,
    ) -> (r: Option<Self>)
        requires
            crate::scalar::scalar_ops_ok(*ops),
        ensures
            r is Some <==> spiking_parts_fit(reservoir@.n(), reservoir@.n(), w_in, readout),
            r matches Some(c) ==> {
                &&& c.reservoir_model() == reservoir@
                &&& c.dt() == reservoir.dt()
                &&& c.traces() == Seq::new(reservoir@.n(), |i: int| zero_of(*ops))
                &&& c.decay_factor() == spike_trace_decay_factor
                &&& c.input_weights() == w_in@
                &&& c.gain() == g_in
                &&& c.readout_spec() == readout
                &&& c.scheduler_nanos() == scheduler_delta_nanos
                &&& c.network_nanos() == network_delta_nanos
            },
    {
        let n = reservoir.neuron_count();
        if w_in.nrows() != n || w_in.ncols() != NVARS {
            return None;
        }
        if n > usize::MAX - 5 {
            return None;
        }
        match &readout.sol {
            Some(sol) => {
                if sol.coeff().ncols() != 1 + n + 4 || sol.intercept().len() < 4 {
                    return None;
                }
            },
            None => {},
        }
        let spike_traces = copy_of(ops.zero(), n);
        Some(
            IzhikevichController {
                reservoir,
                spike_traces,
                spike_trace_decay_factor,
                w_in,
                readout,
                scheduler_delta_nanos,
                network_delta_nanos,
                g_in,
            },
        )
    }

    /// Nothing: reservoir and traces go on from where they are.
    pub fn init(&mut self)
        ensures
            *final(self) == *old(self),
    {
    }

    /// The tick interval in nanoseconds.
    pub fn scheduler_delta(&self) -> (nanos: u128)
        ensures
            nanos == self.scheduler_nanos(),
    {
        self.scheduler_delta_nanos
    }

    /// The time for which the reservoir runs at each tick, in nanoseconds.
    pub fn network_delta(&self) -> (nanos: u128)
        ensures
            nanos == self.network_nanos(),
    {
        self.network_delta_nanos
    }

    /// The reservoir in its present state.
    pub fn reservoir(&self) -> (r: &IzhikevichReservoir<T>)
        ensures
            r@ == self.reservoir_model(),
            r.dt() == self.dt(),
    {
        &self.reservoir
    }

    /// The spike trace of each neuron.
    pub fn spike_traces(&self) -> (t: &Vec<T>)
        ensures
            t@ == self.traces(),
            t@.len() == self.reservoir_model().n(),
    {
        proof {
            use_type_invariant(self);
        }
        &self.spike_traces
    }

    /// The factor by which every trace decays in a micro-step.
    pub fn spike_trace_decay_factor(&self) -> (f: T)
        ensures
            f == self.decay_factor(),
    {
        self.spike_trace_decay_factor
    }

    /// The input weights.
    pub fn w_in(&self) -> (w: &Matrix<T>)
        ensures
            w@ == self.input_weights(),
            w@.len() == self.reservoir_model().n(),
            w.cols() == NVARS,
    {
        proof {
            use_type_invariant(self);
        }
        &self.w_in
    }

    /// The gain of the input.
    pub fn g_in(&self) -> (g: T)
        ensures
            g == self.gain(),
    {
        self.g_in
    }

    /// The readout.
    pub fn readout(&self) -> (r: &RidgeRegression<T>)
        ensures
            *r == self.readout_spec(),
    {
        &self.readout
    }

    /// Runs the reservoir under the current `input.input` for
    /// `input.duration_nanos`. In each micro-step the firing neurons are
    /// reset and pass their weights on, every trace decays, the trace of
    /// each firing neuron is counted up, and every neuron integrates.
    pub fn step<O: ScalarOps<T>>(&mut self, input: IzhikevichInput<T>, ops: &O)
        requires
            input.input@.len() == old(self).reservoir_model().n(),
            crate::scalar::scalar_ops_ok(*ops),
        ensures
            final(self).same_training(old(self)),
            final(self).reservoir_model() == run_model(
                *ops,
                old(self).reservoir_model(),
                old(self).dt(),
                input.input@,
                micro_steps(input.duration_nanos as nat, old(self).dt()),
            ),
            final(self).traces() == trace_from(
                *ops,
                old(self).traces(),
                run_firings(
                    *ops,
                    old(self).reservoir_model(),
                    old(self).dt(),
                    input.input@,
                    micro_steps(input.duration_nanos as nat, old(self).dt()),
                ),
                old(self).decay_factor(),
                micro_steps(input.duration_nanos as nat, old(self).dt()),
            ),
    {
        proof {
            use_type_invariant(&*self);
        }
        // Take the controller apart, leaving one without neurons in its
        // place, and put it together again when the reservoir has run.
        let mut taken = IzhikevichController {
            reservoir: IzhikevichReservoir::new(
                Vec::new(),
                Vec::new(),
                Vec::new(),
                Vec::new(),
                Matrix::empty(0),
                Vec::new(),
                Vec::new(),
            ),
            spike_traces: Vec::new(),
            spike_trace_decay_factor: self.spike_trace_decay_factor,
            w_in: Matrix::empty(NVARS),
            readout: RidgeRegression::new(self.readout.alpha),
            scheduler_delta_nanos: self.scheduler_delta_nanos,
            network_delta_nanos: self.network_delta_nanos,
            g_in: self.g_in,
        };
        std::mem::swap(self, &mut taken);
        let IzhikevichController {
            reservoir,
            spike_traces,
            spike_trace_decay_factor,
            w_in,
            readout,
            scheduler_delta_nanos,
            network_delta_nanos,
            g_in,
        } = taken;
        let mut reservoir = reservoir;
        let mut trace = spike_traces;

        let dt = reservoir.dt_nanos();
        let n = reservoir.neuron_count();
        let one = ops.one();
        let steps = count_micro_steps(input.duration_nanos, dt);
        let ghost m0 = reservoir@;
        let ghost start = trace@;
        let ghost cur = input.input@;
        let ghost planned = run_firings(*ops, m0, dt as nat, cur, steps as nat);
        proof {
            assert forall|t: int, k: int|
                0 <= t < planned.len() && 0 <= k < planned[t].len() implies (
            #[trigger] planned[t][k]) < n by {
                let before = run_model(*ops, m0, dt as nat, cur, t as nat);
                run_model_keeps_shape(*ops, m0, dt as nat, cur, t as nat);
                firing_ids_bounds(*ops, before.v, before.n());
            }
        }
        let mut done: u128 = 0;
        while done < steps
            invariant
                done <= steps,
                reservoir@ == run_model(*ops, m0, dt as nat, cur, done as nat),
                reservoir@.wf(),
                reservoir@.n() == n,
                reservoir.dt() == dt,
                cur == input.input@,
                cur.len() == n,
                start.len() == n,
                crate::scalar::scalar_ops_ok(*ops),
                one == one_of(*ops),
                planned == run_firings(*ops, m0, dt as nat, cur, steps as nat),
                ids_below(planned, n as nat),
                trace@ == trace_from(*ops, start, planned, spike_trace_decay_factor, done as nat),
                trace@.len() == n,
            decreases steps - done,
        {
            let current = copy_row(&input.input);
            let ghost before = reservoir@;
            let (input_and_firings, fired) = reservoir.diffuse(current, ops);
            proof {
                firing_ids_bounds(*ops, before.v, n as nat);
                assert(planned[done as int] == fired@);
            }
            let ghost decayed_trace = decayed(*ops, trace@, spike_trace_decay_factor);
            trace = scale_row(&trace, spike_trace_decay_factor, ops);
            let mut k: usize = 0;
            while k < fired.len()
                invariant
                    k <= fired@.len(),
                    forall|j: int| 0 <= j < fired@.len() ==> fired@[j] < n,
                    crate::scalar::scalar_ops_ok(*ops),
                    one == one_of(*ops),
                    decayed_trace.len() == n,
                    trace@ == bumped(*ops, decayed_trace, fired@, k as nat),
                    trace@.len() == n,
                decreases fired@.len() - k,
            {
                let id = fired[k];
                let raised = ops.plus(trace[id], one);
                trace.set(id, raised);
                k += 1;
            }
            reservoir.excite(input_and_firings, ops);
            proof {
                assert(reservoir@ == micro_step(*ops, before, dt as nat, cur));
            }
            done += 1;
        }
        *self = IzhikevichController {
            reservoir,
            spike_traces: trace,
            spike_trace_decay_factor,
            w_in,
            readout,
            scheduler_delta_nanos,
            network_delta_nanos,
            g_in,
        };
    }

    /// The input of the reservoir for a standardized input: the product of
    /// the input weights and the input vector, multiplied by the gain, held
    /// for the time that the reservoir runs at each tick.
    pub fn izhikevich_input_calc<O: MatrixOps<T>>(&self, update: ReservoirInput<T>, ops: &O) -> (input:
        IzhikevichInput<T>)
        requires
            matrix_ops_ok(*ops),
        ensures
            input.input@ == current_spec(
                *ops,
                self.input_weights(),
                vector_of(update),
                self.gain(),
            ),
            input.input@.len() == self.reservoir_model().n(),
            input.duration_nanos == self.network_nanos(),
    {
        proof {
            use_type_invariant(self);
        }
        let input = input_current(&self.w_in, &update, self.g_in, ops);
        IzhikevichInput { input, duration_nanos: self.network_delta_nanos }
    }

    /// The features of a tick: a one, the spike traces, and the stick
    /// positions throttle, yaw, pitch, roll.
    pub fn representation<O: ScalarOps<T>>(&self, update: FlightControllerUpdate<T>, ops: &O) -> (out:
        Vec<T>)
        requires
            crate::scalar::scalar_ops_ok(*ops),
        ensures
            out@ == representation_row(*ops, self.traces(), update.channels),
            out@.len() == 1 + self.reservoir_model().n() + 4,
    {
        proof {
            use_type_invariant(self);
        }
        feature_row(&self.spike_traces, &update.channels, ops)
    }

    /// One tick: from what the controller is shown to a motor command.
    ///
    /// The standardized input becomes a current; the reservoir runs under it
    /// for one network period while the traces follow its spikes; the
    /// readout predicts from a one, the traces and the stick positions, and
    /// the command is the prediction, each entry kept between zero and one.
    /// A controller whose readout was never fitted returns the error and is
    /// advanced all the same.
    pub fn update<O: MatrixOps<T>>(&mut self, update: FlightControllerUpdate<T>, ops: &O) -> (r:
        Result<MotorInput<T>, RidgeError>)
        requires
            matrix_ops_ok(*ops),
        ensures
            old(self).ticks_to(*ops, update, final(self), r),
            r is Ok <==> old(self).readout_spec().sol is Some,
            r matches Ok(cmd) ==> is_clamped(*ops, cmd.input@),
    {
        let reservoir_input = ReservoirInput::from_flight_controller_update(update, ops);
        let izhikevich_input = self.izhikevich_input_calc(reservoir_input, ops);
        self.step(izhikevich_input, ops);
        proof {
            use_type_invariant(&*self);
        }
        let representation = self.representation(update, ops);
        let features = Matrix::from_row(representation);
        readout_command(&self.readout, &features, ops)
    }
}

/// The current into each neuron for a standardized input.
pub fn input_current<T: Copy, O: MatrixOps<T>>(
    w_in: &Matrix<T>,
    update: &ReservoirInput<T>,
    g_in: T,
    ops: &O,
) -> (input: Vec<T>)
    requires
        w_in.cols() == NVARS,
        matrix_ops_ok(*ops),
    ensures
        input@ == current_spec(*ops, w_in@, vector_of(*update), g_in),
        input@.len() == w_in@.len(),
{
    let fl_update_input = update.to_vector();
    let projected = ops.times_vector(w_in, &fl_update_input);
    proof {
        assert(is_matrix_vector(*ops, w_in@, w_in.cols(), fl_update_input@, projected@));
    }
    scale_row(&projected, g_in, ops)
}

/// The feature row for the spike traces `traces` and the stick positions
/// `channels`.
pub fn feature_row<T: Copy, O: ScalarOps<T>>(traces: &Vec<T>, channels: &Channels<T>, ops: &O) -> (out:
    Vec<T>)
    requires
        crate::scalar::scalar_ops_ok(*ops),
    ensures
        out@ == representation_row(*ops, traces@, *channels),
        out@.len() == 1 + traces@.len() + 4,
{
    let mut out: Vec<T> = Vec::new();
    out.push(ops.one());
    extend_row(&mut out, traces);
    out.push(channels.throttle);
    out.push(channels.yaw);
    out.push(channels.pitch);
    out.push(channels.roll);
    assert(out@ =~= representation_row(*ops, traces@, *channels));
    out
}

/// What a spiking controller is trained with.
#[derive(Debug)]
pub struct IzhikevichControllerParameters<T> {
    /// The number of neurons.
    pub n: usize,
    /// The chance of a connection between two neurons.
    pub p: T,
    /// The share of excitatory neurons.
    pub excit_frac: T,
    /// The tick interval in nanoseconds.
    pub scheduler_delta_nanos: u128,
    /// The time for which the reservoir runs at each tick, in nanoseconds.
    pub network_delta_nanos: u128,
    pub g_in: T,
    pub alpha: T,
}

/// The reservoir after the first `w` windows of `currents`, each held for
/// `k` micro-steps of `dt` nanoseconds.
pub open spec fn model_after_windows<T, O: ScalarOps<T>>(
    ops: O,
    m: ReservoirModel<T>,
    dt: nat,
    currents: Seq<Seq<T>>,
    k: nat,
    w: nat,
) -> ReservoirModel<T>
    decreases w,
{
    if w == 0 {
        m
    } else {
        run_model(
            ops,
            model_after_windows(ops, m, dt, currents, k, (w - 1) as nat),
            dt,
            currents[w - 1],
            k,
        )
    }
}

/// The firing log of the first `w` windows of `currents`, each held for `k`
/// micro-steps of `dt` nanoseconds.
pub open spec fn log_after_windows<T, O: ScalarOps<T>>(
    ops: O,
    m: ReservoirModel<T>,
    dt: nat,
    currents: Seq<Seq<T>>,
    k: nat,
    w: nat,
) -> Seq<Seq<usize>>
    decreases w,
{
    if w == 0 {
        Seq::empty()
    } else {
        log_after_windows(ops, m, dt, currents, k, (w - 1) as nat) + run_firings(
            ops,
            model_after_windows(ops, m, dt, currents, k, (w - 1) as nat),
            dt,
            currents[w - 1],
            k,
        )
    }
}

/// The current into the reservoir at each step of a log.
pub open spec fn log_currents<T, O: MatrixOps<T>>(
    ops: O,
    steps: Seq<SnapShot<T>>,
    w_in: Seq<Seq<T>>,
    g_in: T,
) -> Seq<Seq<T>> {
    Seq::new(
        steps.len(),
        |t: int| current_spec(ops, w_in, vector_of(standardized(ops, shown(steps[t]))), g_in),
    )
}

/// The feature rows of one log for training: the reservoir starts from `m`
/// and runs through the currents of the log, one window of `k` micro-steps
/// per step; row `t` holds a one, the spike traces at the end of window `t`,
/// started at zero, and the stick positions of step `t`.
pub open spec fn log_representation<T, O: ScalarOps<T>>(
    ops: O,
    steps: Seq<SnapShot<T>>,
    currents: Seq<Seq<T>>,
    m: ReservoirModel<T>,
    dt: nat,
    k: nat,
    decay: T,
) -> Seq<Seq<T>> {
    Seq::new(
        steps.len(),
        |t: int|
            representation_row(
                ops,
                trace_after(
                    ops,
                    log_after_windows(ops, m, dt, currents, k, steps.len()),
                    m.n(),
                    decay,
                    log_after_windows(ops, m, dt, currents, k, (t + 1) as nat).len(),
                ),
                steps[t].channels,
            ),
    )
}

/// The feature rows of a batch of logs for training, one log after the
/// other, each from a reservoir in the state `m`.
pub open spec fn training_representation<T, O: MatrixOps<T>>(
    ops: O,
    logs: Seq<FlightLog<T>>,
    w_in: Seq<Seq<T>>,
    g_in: T,
    m: ReservoirModel<T>,
    dt: nat,
    k: nat,
    decay: T,
) -> Seq<Seq<T>> {
    Seq::new(
        logs.len(),
        |e: int|
            log_representation(
                ops,
                logs[e].steps@,
                log_currents(ops, logs[e].steps@, w_in, g_in),
                m,
                dt,
                k,
                decay,
            ),
    ).flatten()
}

/// Running a reservoir keeps its shape.
pub proof fn run_model_keeps_shape<T, O: ScalarOps<T>>(
    ops: O,
    m: ReservoirModel<T>,
    dt: nat,
    input: Seq<T>,
    k: nat,
)
    requires
        m.wf(),
    ensures
        run_model(ops, m, dt, input, k).wf(),
        run_model(ops, m, dt, input, k).n() == m.n(),
    decreases k,
{
    if k > 0 {
        run_model_keeps_shape(ops, m, dt, input, (k - 1) as nat);
    }
}

/// Every window adds `k` micro-steps to the log.
pub proof fn log_after_windows_len<T, O: ScalarOps<T>>(
    ops: O,
    m: ReservoirModel<T>,
    dt: nat,
    currents: Seq<Seq<T>>,
    k: nat,
    w: nat,
)
    ensures
        log_after_windows(ops, m, dt, currents, k, w).len() == w * k,
    decreases w,
{
    if w > 0 {
        log_after_windows_len(ops, m, dt, currents, k, (w - 1) as nat);
        assert((w - 1) * k + k == w * k) by (nonlinear_arith);
    } else {
        assert(0 * k == 0) by (nonlinear_arith);
    }
}

/// The log of the first windows is the beginning of the log of more
/// windows.
pub proof fn log_after_windows_prefix<T, O: ScalarOps<T>>(
    ops: O,
    m: ReservoirModel<T>,
    dt: nat,
    currents: Seq<Seq<T>>,
    k: nat,
    w: nat,
    total: nat,
)
    requires
        w <= total,
    ensures
        log_after_windows(ops, m, dt, currents, k, w).is_prefix_of(
            log_after_windows(ops, m, dt, currents, k, total),
        ),
    decreases total - w,
{
    if w < total {
        log_after_windows_prefix(ops, m, dt, currents, k, w, (total - 1) as nat);
        let shorter = log_after_windows(ops, m, dt, currents, k, (total - 1) as nat);
        let longer = log_after_windows(ops, m, dt, currents, k, total);
        let first = log_after_windows(ops, m, dt, currents, k, w);
        assert(first.is_prefix_of(longer)) by {
            assert(first.len() <= shorter.len());
            assert(forall|i: int| 0 <= i < first.len() ==> first[i] == shorter[i]);
            assert(forall|i: int| 0 <= i < shorter.len() ==> shorter[i] == longer[i]);
        }
    }
}

/// A spike trace at a micro-step depends on the log up to that micro-step
/// alone.
pub proof fn trace_from_prefix<T, O: ScalarOps<T>>(
    ops: O,
    start: Seq<T>,
    a: Seq<Seq<usize>>,
    b: Seq<Seq<usize>>,
    decay: T,
    t: nat,
)
    requires
        t <= a.len(),
        a.is_prefix_of(b),
    ensures
        trace_from(ops, start, a, decay, t) == trace_from(ops, start, b, decay, t),
    decreases t,
{
    if t > 0 {
        trace_from_prefix(ops, start, a, b, decay, (t - 1) as nat);
        assert(a[t - 1] == b[t - 1]);
    }
}

/// All firing ids of the windows of a well-formed reservoir name neurons of
/// it.
pub proof fn log_after_windows_ids<T, O: ScalarOps<T>>(
    ops: O,
    m: ReservoirModel<T>,
    dt: nat,
    currents: Seq<Seq<T>>,
    k: nat,
    w: nat,
)
    requires
        m.wf(),
    ensures
        ids_below(log_after_windows(ops, m, dt, currents, k, w), m.n()),
        model_after_windows(ops, m, dt, currents, k, w).wf(),
        model_after_windows(ops, m, dt, currents, k, w).n() == m.n(),
    decreases w,
{
    if w > 0 {
        log_after_windows_ids(ops, m, dt, currents, k, (w - 1) as nat);
        let before = model_after_windows(ops, m, dt, currents, k, (w - 1) as nat);
        let prev = log_after_windows(ops, m, dt, currents, k, (w - 1) as nat);
        let added = run_firings(ops, before, dt, currents[w - 1], k);
        run_model_keeps_shape(ops, before, dt, currents[w - 1], k);
        assert forall|t: int, j: int|
            0 <= t < added.len() && 0 <= j < added[t].len() implies (#[trigger] added[t][j])
            < m.n() by {
            let at = run_model(ops, before, dt, currents[w - 1], t as nat);
            run_model_keeps_shape(ops, before, dt, currents[w - 1], t as nat);
            firing_ids_bounds(ops, at.v, at.n());
        }
        let all = prev + added;
        assert forall|t: int, j: int| 0 <= t < all.len() && 0 <= j < all[t].len() implies (
        #[trigger] all[t][j]) < m.n() by {
            if t < prev.len() {
                assert(all[t] == prev[t]);
            } else {
                assert(all[t] == added[t - prev.len()]);
            }
        }
    }
}

/// Two sequences of blocks of pairwise equal lengths flatten to equal
/// lengths.
pub proof fn flatten_len_agree<T, U>(a: Seq<Seq<T>>, b: Seq<Seq<U>>)
    requires
        a.len() == b.len(),
        forall|i: int| 0 <= i < a.len() ==> (#[trigger] a[i]).len() == b[i].len(),
    ensures
        a.flatten().len() == b.flatten().len(),
    decreases a.len(),
{
    if a.len() > 0 {
        flatten_len_agree(a.drop_last(), b.drop_last());
        assert(a.drop_last().push(a.last()) =~= a);
        assert(b.drop_last().push(b.last()) =~= b);
        a.drop_last().lemma_flatten_push(a.last());
        b.drop_last().lemma_flatten_push(b.last());
    }
}

/// Every log fits the clock of a harness: its windows of `window` nanoseconds
/// add up to no more than the clock can count.
pub open spec fn logs_fit_clock<T>(logs: Seq<FlightLog<T>>, window: nat) -> bool {
    forall|e: int| 0 <= e < logs.len() ==> (#[trigger] logs[e]).steps@.len() * window <= u128::MAX
}

/// The factor by which the traces of a trained controller decay in a
/// micro-step of `dt` nanoseconds: `exp(-dt / 20)` with `dt` in
/// milliseconds.
pub open spec fn trained_decay<T, O: ScalarOps<T>>(ops: O, dt: nat) -> T {
    exp_of(ops, quotient(ops, negated(ops, step_millis(ops, dt)), count_of(ops, 20)))
}

/// The generator after the input weights of the first `i` neurons were
/// drawn from the generator `stream`: ten draws between minus one and one
/// for each.
pub open spec fn weights_stream<T, O: ScalarOps<T> + SeededDraws<T>>(
    ops: O,
    stream: O::Stream,
    i: nat,
) -> O::Stream
    decreases i,
{
    if i == 0 {
        stream
    } else {
        run_between(
            ops,
            weights_stream(ops, stream, (i - 1) as nat),
            negated(ops, one_of(ops)),
            one_of(ops),
            NVARS as nat,
        )
    }
}

/// The input weights of `n` neurons that the generator `stream` gives: one
/// row per neuron and one column per input variable, each entry a draw
/// between minus one and one, drawn row by row.
pub open spec fn projection<T, O: ScalarOps<T> + SeededDraws<T>>(ops: O, n: nat, stream: O::Stream)
    -> Seq<Seq<T>> {
    Seq::new(
        n,
        |i: int|
            Seq::new(
                NVARS as nat,
                |j: int|
                    drawn_between(
                        ops,
                        weights_stream(ops, stream, i as nat),
                        negated(ops, one_of(ops)),
                        one_of(ops),
                        j as nat,
                    ),
            ),
    )
}

/// The readout of `c` is the ridge solution for the motor commands of `logs`
/// and their training representation by the reservoir, input weights, gain
/// and decay factor of `c`.
pub open spec fn is_spiking_training<T, O: MatrixOps<T>>(
    ops: O,
    c: IzhikevichController<T>,
    logs: Seq<FlightLog<T>>,
    alpha: T,
) -> bool {
    let x = training_representation(
        ops,
        logs,
        c.input_weights(),
        c.gain(),
        c.reservoir_model(),
        c.dt(),
        micro_steps(c.network_nanos(), c.dt()),
        c.decay_factor(),
    );
    let features = 1 + c.reservoir_model().n() + 4;
    &&& c.readout_spec().alpha == alpha
    &&& c.readout_spec().sol matches Some(sol) && sol.features() == features && sol.coeff_rows()
        == fit_coeff(ops, alpha, x, features as nat, motor_inputs_spec(logs), 4)
        && sol.intercepts() == fit_intercept(
        ops,
        alpha,
        x,
        features as nat,
        motor_inputs_spec(logs),
        4,
    )
}

/// The training representation of `logs`: for each log a copy of
/// `reservoir` runs through the currents of the log, one window of `network`
/// nanoseconds per step, under a harness; the spike traces at the ends of
/// the windows, between a one and the stick positions, are the feature rows
/// of the log.
pub fn training_rows<T: Copy, O: MatrixOps<T>>(
    flight_logs: &Vec<FlightLog<T>>,
    reservoir: &IzhikevichReservoir<T>,
    w_in: &Matrix<T>,
    g_in: T,
    network: u128,
    decay: T,
    ops: &O,
) -> (x: Matrix<T>)
    requires
        w_in@.len() == reservoir@.n(),
        w_in.cols() == NVARS,
        1 + reservoir@.n() + 4 <= usize::MAX,
        logs_fit_clock(
            flight_logs@,
            micro_steps(network as nat, reservoir.dt()) * reservoir.dt(),
        ),
        matrix_ops_ok(*ops),
    ensures
        x@ == training_representation(
            *ops,
            flight_logs@,
            w_in@,
            g_in,
            reservoir@,
            reservoir.dt(),
            micro_steps(network as nat, reservoir.dt()),
            decay,
        ),
        x.cols() == 1 + reservoir@.n() + 4,
        x@.len() == motor_inputs_spec(flight_logs@).len(),
{
    let n = reservoir.neuron_count();
    let dt = reservoir.dt_nanos();
    let k = count_micro_steps(network, dt);
    let ghost m0 = reservoir@;
    let ghost step = dt as nat;
    let ghost window = k as nat * dt as nat;
    let width = 1 + n + 4;
    let ghost per_log = Seq::new(
        flight_logs@.len(),
        |e: int|
            log_representation(
                *ops,
                flight_logs@[e].steps@,
                log_currents(*ops, flight_logs@[e].steps@, w_in@, g_in),
                m0,
                step,
                k as nat,
                decay,
            ),
    );
    let mut rows: Vec<Vec<T>> = Vec::new();
    let mut e: usize = 0;
    assert(per_log.take(0) =~= Seq::<Seq<Seq<T>>>::empty());
    while e < flight_logs.len()
        invariant
            e <= flight_logs@.len(),
            n == m0.n(),
            m0 == reservoir@,
            m0.wf(),
            dt == reservoir.dt(),
            step == dt,
            dt > 0,
            k == micro_steps(network as nat, dt as nat),
            window == k as nat * dt as nat,
            width == 1 + n + 4,
            w_in@.len() == n,
            w_in.cols() == NVARS,
            logs_fit_clock(flight_logs@, window),
            matrix_ops_ok(*ops),
            per_log == Seq::new(
                flight_logs@.len(),
                |e: int|
                    log_representation(
                        *ops,
                        flight_logs@[e].steps@,
                        log_currents(*ops, flight_logs@[e].steps@, w_in@, g_in),
                        m0,
                        step,
                        k as nat,
                        decay,
                    ),
            ),
            rows_view(rows@) == per_log.take(e as int).flatten(),
            rectangular(rows_view(rows@), width as nat),
        decreases flight_logs@.len() - e,
    {
        let steps = &flight_logs[e].steps;
        let ghost currents = log_currents(*ops, steps@, w_in@, g_in);
        let mut harness = IzhikevichHarness::new(reservoir.duplicate());
        let mut t: usize = 0;
        while t < steps.len()
            invariant
                t <= steps@.len(),
                e < flight_logs@.len(),
                steps@ == flight_logs@[e as int].steps@,
                n == m0.n(),
                m0.wf(),
                dt > 0,
                step == dt,
                harness.dt() == dt,
                k == micro_steps(network as nat, dt as nat),
                window == k as nat * dt as nat,
                steps@.len() * window <= u128::MAX,
                w_in@.len() == n,
                w_in.cols() == NVARS,
                matrix_ops_ok(*ops),
                currents == log_currents(*ops, steps@, w_in@, g_in),
                harness.reservoir_model() == model_after_windows(
                    *ops,
                    m0,
                    step,
                    currents,
                    k as nat,
                    t as nat,
                ),
                harness.firing_log() == log_after_windows(
                    *ops,
                    m0,
                    step,
                    currents,
                    k as nat,
                    t as nat,
                ),
                harness.window_ends().len() == t,
                forall|j: int|
                    0 <= j < t ==> (#[trigger] harness.window_ends()[j]) as nat
                        == log_after_windows(
                        *ops,
                        m0,
                        step,
                        currents,
                        k as nat,
                        (j + 1) as nat,
                    ).len(),
                harness.total_nanos() == t * window,
            decreases steps@.len() - t,
        {
            let reservoir_input = ReservoirInput::from_snapshot(&steps[t], ops);
            let i_in = input_current(w_in, &reservoir_input, g_in, ops);
            proof {
                assert(i_in@ == currents[t as int]);
                log_after_windows_ids(*ops, m0, step, currents, k as nat, t as nat);
                assert((t + 1) * window <= steps@.len() * window) by (nonlinear_arith)
                    requires
                        t + 1 <= steps@.len(),
                        window >= 0,
                ;
                assert(t * window + window == (t + 1) * window) by (nonlinear_arith);
            }
            let ghost ends_before = harness.window_ends();
            harness.process_input(IzhikevichInput { input: i_in, duration_nanos: network }, ops);
            proof {
                assert forall|j: int| 0 <= j < t + 1 implies (#[trigger] harness.window_ends()[j])
                    as nat == log_after_windows(
                    *ops,
                    m0,
                    step,
                    currents,
                    k as nat,
                    (j + 1) as nat,
                ).len() by {
                    if j < t {
                        assert(harness.window_ends()[j] == ends_before[j]);
                    }
                }
            }
            t += 1;
        }
        proof {
            log_after_windows_ids(*ops, m0, step, currents, k as nat, steps@.len());
        }
        let traces = harness.calculate_spike_traces(decay, ops);
        let ghost log = harness.firing_log();
        let ghost expected = per_log[e as int];
        let ghost before = rows_view(rows@);
        let count = traces.nrows();
        proof {
            assert(count == steps@.len());
        }
        let mut s: usize = 0;
        while s < count
            invariant
                s <= count,
                e < flight_logs@.len(),
                count == steps@.len(),
                count == traces@.len(),
                traces.cols() == n,
                width == 1 + n + 4,
                steps@ == flight_logs@[e as int].steps@,
                traces@ == spike_traces(*ops, log, harness.window_ends(), n as nat, decay),
                harness.window_ends().len() == count,
                forall|j: int|
                    0 <= j < count ==> (#[trigger] harness.window_ends()[j]) as nat
                        == log_after_windows(
                        *ops,
                        m0,
                        step,
                        currents,
                        k as nat,
                        (j + 1) as nat,
                    ).len(),
                log == log_after_windows(*ops, m0, step, currents, k as nat, steps@.len()),
                n == m0.n(),
                matrix_ops_ok(*ops),
                expected == log_representation(
                    *ops,
                    steps@,
                    currents,
                    m0,
                    step,
                    k as nat,
                    decay,
                ),
                rectangular(before, width as nat),
                rows_view(rows@) == before + expected.take(s as int),
            decreases count - s,
        {
            let ghost prev = rows_view(rows@);
            let row = feature_row(traces.row(s), &steps[s].channels, ops);
            proof {
                assert(traces@[s as int] == trace_after(
                    *ops,
                    log,
                    n as nat,
                    decay,
                    harness.window_ends()[s as int] as nat,
                ));
                assert(row@ == expected[s as int]);
            }
            rows.push(row);
            proof {
                assert(rows_view(rows@) =~= prev.push(expected[s as int]));
                assert(expected.take(s + 1) =~= expected.take(s as int).push(expected[s as int]));
                assert(rows_view(rows@) =~= before + expected.take(s + 1));
            }
            s += 1;
        }
        proof {
            assert(expected.take(count as int) =~= expected);
            assert(per_log.take(e + 1) =~= per_log.take(e as int).push(per_log[e as int]));
            per_log.take(e as int).lemma_flatten_push(per_log[e as int]);
            assert forall|q: int| 0 <= q < rows_view(rows@).len() implies (#[trigger] rows_view(
                rows@,
            )[q]).len() == width by {
                if q < before.len() {
                    assert(rows_view(rows@)[q] == before[q]);
                } else {
                    assert(rows_view(rows@)[q] == expected[q - before.len()]);
                    assert(traces@[q - before.len()].len() == n);
                }
            }
        }
        e += 1;
    }
    proof {
        assert(per_log.take(flight_logs@.len() as int) =~= per_log);
        let targets = Seq::new(
            flight_logs@.len(),
            |e: int| log_motor_inputs(flight_logs@[e].steps@),
        );
        flatten_len_agree(per_log, targets);
    }
    Matrix::from_rows(width, rows)
}

/// The input weights of `n` neurons that the generator `stream` gives.
pub fn input_weights_from_stream<T: Copy, O: ScalarOps<T> + SeededDraws<T>>(
    n: usize,
    stream: O::Stream,
    ops: &O,
) -> (w: Matrix<T>)
    requires
        crate::scalar::scalar_ops_ok(*ops),
        draws_ok(*ops),
    ensures
        w@ == projection(*ops, n as nat, stream),
        w@.len() == n,
        w.cols() == NVARS,
{
    let high = ops.one();
    let low = ops.negate(high);
    let ghost expected = projection(*ops, n as nat, stream);
    let mut rows: Vec<Vec<T>> = Vec::new();
    let mut current = stream;
    let mut i: usize = 0;
    while i < n
        invariant
            i <= n,
            draws_ok(*ops),
            high == one_of(*ops),
            low == negated(*ops, one_of(*ops)),
            expected == projection(*ops, n as nat, stream),
            current == weights_stream(*ops, stream, i as nat),
            rows@.len() == i,
            rectangular(rows_view(rows@), NVARS as nat),
            forall|k: int| 0 <= k < i ==> (#[trigger] rows@[k])@ == expected[k],
        decreases n - i,
    {
        let (row, next) = draw_row(current, low, high, NVARS, ops);
        let ghost before = rows_view(rows@);
        let ghost row_spec = row@;
        assert(row_spec =~= expected[i as int]);
        rows.push(row);
        proof {
            assert(rows_view(rows@) =~= before.push(row_spec));
        }
        current = next;
        i += 1;
    }
    assert(rows_view(rows@) =~= expected);
    Matrix::from_rows(NVARS, rows)
}

/// Random input weights for `n` neurons: those that the generator of a
/// fixed seed gives. Equal arguments give the same weights.
pub fn random_input_weights<T: Copy, O: ScalarOps<T> + SeededDraws<T>>(n: usize, ops: &O) -> (w:
    Matrix<T>)
    requires
        crate::scalar::scalar_ops_ok(*ops),
        draws_ok(*ops),
    ensures
        w@ == projection(*ops, n as nat, stream_of(*ops, INPUT_WEIGHT_SEED)),
        w@.len() == n,
        w.cols() == NVARS,
{
    let stream = ops.seeded(INPUT_WEIGHT_SEED);
    input_weights_from_stream(n, stream, ops)
}

/// Trains a spiking controller on a batch of flight logs.
///
/// The random reservoir and the random input weights of their seeds are
/// made, so that equal arguments give an equal controller. For each log a
/// copy of the reservoir runs through the currents of the log, one window of
/// the network period per step, under a harness; the spike traces at the
/// ends of the windows, between a one and the stick positions, are the
/// feature rows of the log. The readout is fitted to the motor commands of
/// all logs on the feature rows of all logs. The controller keeps the
/// reservoir in the state it was made in, with all traces at zero.
pub fn train_izhikevich_controller2<T: Copy, O: MatrixOps<T> + SeededDraws<T>>(
    controller_params: IzhikevichControllerParameters<T>,
    flight_logs: &Vec<FlightLog<T>>,
    ops: &O,
) -> (c: IzhikevichController<T>)
    requires
        1 + controller_params.n + 4 <= usize::MAX,
        motor_inputs_spec(flight_logs@).len() > 0,
        logs_fit_clock(
            flight_logs@,
            micro_steps(controller_params.network_delta_nanos as nat, MICRO_STEP_NANOS as nat)
                * (MICRO_STEP_NANOS as nat),
        ),
        matrix_ops_ok(*ops),
        draws_ok(*ops),
    ensures
        c.reservoir_model() == random_reservoir(
            *ops,
            controller_params.n as nat,
            excitatory_count(*ops, controller_params.n, controller_params.excit_frac) as nat,
            controller_params.p,
            stream_of(*ops, RESERVOIR_SEED),
        ),
        c.dt() == MICRO_STEP_NANOS,
        c.traces() == Seq::new(controller_params.n as nat, |i: int| zero_of(*ops)),
        c.decay_factor() == trained_decay(*ops, MICRO_STEP_NANOS as nat),
        c.input_weights() == projection(
            *ops,
            controller_params.n as nat,
            stream_of(*ops, INPUT_WEIGHT_SEED),
        ),
        c.gain() == controller_params.g_in,
        c.scheduler_nanos() == controller_params.scheduler_delta_nanos,
        c.network_nanos() == controller_params.network_delta_nanos,
        is_spiking_training(*ops, c, flight_logs@, controller_params.alpha),
{
    let n = controller_params.n;
    let g_in = controller_params.g_in;
    let network = controller_params.network_delta_nanos;
    let reservoir = random_izhikevich(n, controller_params.p, controller_params.excit_frac, ops);
    let dt_ms = millis_of(reservoir.dt_nanos(), ops);
    let tau_ms = ops.from_count(20);
    let spike_trace_decay_factor = ops.exponential(ops.divide(ops.negate(dt_ms), tau_ms));
    let motor_inputs = snapshots_to_motor_inputs(flight_logs);
    let w_in = random_input_weights(n, ops);
    let representation = training_rows(
        flight_logs,
        &reservoir,
        &w_in,
        g_in,
        network,
        spike_trace_decay_factor,
        ops,
    );
    let readout = RidgeRegression::fit_multiple_svd(
        controller_params.alpha,
        representation,
        &motor_inputs,
        ops,
    );
    let spike_traces = copy_of(ops.zero(), n);
    IzhikevichController {
        reservoir,
        spike_traces,
        spike_trace_decay_factor,
        w_in,
        readout,
        scheduler_delta_nanos: controller_params.scheduler_delta_nanos,
        network_delta_nanos: network,
        g_in,
    }
}

/// The spike traces that a running controller holds after `w` ticks, when
/// it started with a reservoir in the state `m` and all traces at zero and
/// the current of tick `j` was `currents[j]`, held for `k` micro-steps.
pub open spec fn streamed_traces<T, O: ScalarOps<T>>(
    ops: O,
    m: ReservoirModel<T>,
    dt: nat,
    currents: Seq<Seq<T>>,
    decay: T,
    k: nat,
    w: nat,
) -> Seq<T>
    decreases w,
{
    if w == 0 {
        Seq::new(m.n(), |i: int| zero_of(ops))
    } else {
        trace_from(
            ops,
            streamed_traces(ops, m, dt, currents, decay, k, (w - 1) as nat),
            run_firings(
                ops,
                model_after_windows(ops, m, dt, currents, k, (w - 1) as nat),
                dt,
                currents[w - 1],
                k,
            ),
            decay,
            k,
        )
    }
}

/// Following a log `a` to its end and then a log `b` for `j` micro-steps is
/// following the two logs, one after the other, for as many micro-steps.
pub proof fn trace_from_concat<T, O: ScalarOps<T>>(
    ops: O,
    start: Seq<T>,
    a: Seq<Seq<usize>>,
    b: Seq<Seq<usize>>,
    decay: T,
    j: nat,
)
    requires
        j <= b.len(),
    ensures
        trace_from(ops, trace_from(ops, start, a, decay, a.len()), b, decay, j) == trace_from(
            ops,
            start,
            a + b,
            decay,
            a.len() + j,
        ),
    decreases j,
{
    if j == 0 {
        assert(a.is_prefix_of(a + b));
        trace_from_prefix(ops, start, a, a + b, decay, a.len());
    } else {
        trace_from_concat(ops, start, a, b, decay, (j - 1) as nat);
        assert((a + b)[a.len() + j - 1] == b[j - 1]);
    }
}

/// Streaming agrees with batch for the spiking path: the traces that a
/// running controller holds after tick `w` are the traces in row `w` of the
/// training representation of the same currents, when both start from the
/// same reservoir state and from traces at zero.
pub proof fn spiking_streaming_matches_batch<T, O: ScalarOps<T>>(
    ops: O,
    m: ReservoirModel<T>,
    dt: nat,
    currents: Seq<Seq<T>>,
    decay: T,
    k: nat,
    w: nat,
    total: nat,
)
    requires
        w <= total,
    ensures
        streamed_traces(ops, m, dt, currents, decay, k, w) == trace_after(
            ops,
            log_after_windows(ops, m, dt, currents, k, total),
            m.n(),
            decay,
            log_after_windows(ops, m, dt, currents, k, w).len(),
        ),
    decreases w,
{
    let zeros = Seq::new(m.n(), |i: int| zero_of(ops));
    let here = log_after_windows(ops, m, dt, currents, k, w);
    let all = log_after_windows(ops, m, dt, currents, k, total);
    log_after_windows_prefix(ops, m, dt, currents, k, w, total);
    trace_from_prefix(ops, zeros, here, all, decay, here.len());
    if w > 0 {
        let before = log_after_windows(ops, m, dt, currents, k, (w - 1) as nat);
        let added = run_firings(
            ops,
            model_after_windows(ops, m, dt, currents, k, (w - 1) as nat),
            dt,
            currents[w - 1],
            k,
        );
        spiking_streaming_matches_batch(
            ops,
            m,
            dt,
            currents,
            decay,
            k,
            (w - 1) as nat,
            (w - 1) as nat,
        );
        trace_from_concat(ops, zeros, before, added, decay, k);
    }
}

} // verus!
