//! The controller built on an echo-state reservoir.
//!
//! At every tick the controller standardizes what it is shown, advances the
//! state of its reservoir, takes the state into its window of recent states,
//! reduces the feature row of the window, puts the stick positions beside it
//! if it was trained so, and lets the readout predict four motor commands,
//! each of which is kept between zero and one.

use crate::controllers::{command_spec, command_view, is_clamped, readout_command};
use crate::dimensionality_reducer::{
    is_fitted_to, kept_components, reduced_cols, reduced_rows, Reducer, ReducerType,
};
use crate::esn::{
    connectivity_ok, entries_among, integrate_spec, is_internal_weights, is_squashed, trajectories,
    Esn,
};
use crate::flight::{Channels, FlightControllerUpdate, FlightLog, MotorInput};
use crate::input_mapping::{
    input_rows, logs_cover, standardized, trajectory_inputs, trajectory_rows, trajectory_view,
    vector_of, MultipleReservoirInputTrajectory, ReservoirInput, NVARS,
};
use crate::linalg::{matrix_ops_ok, Draws, MatrixOps};
use crate::matrix::{filled_spec, hstack, hstack_rows, rectangular, Matrix};
use crate::repr::{
    batch_features, buffer_push, flatten_len, matrices_view, online_row, same_cols,
    stacked_features, BufferedStates,
};
use crate::ridge::{fit_coeff, fit_intercept, RidgeError, RidgeRegression};
use crate::scalar::{negated, zero_of};
use crate::setpoints::{
    log_setpoints, setpoint_row, setpoints_from_flight_logs, setpoints_from_flight_update,
    setpoints_spec,
};
use vstd::prelude::*;

verus! {

/// What a reservoir controller is trained with.
#[derive(Debug)]
pub struct DroneRCParameters<T> {
    /// The number of units of the reservoir.
    pub internal_units: usize,
    /// The chance that an internal weight is not zero.
    pub connectivity: T,
    /// The spectral radius of the internal weights.
    pub spectral_radius: T,
    /// The magnitude of the input weights.
    pub input_scaling: T,
    /// The lag of the state representation.
    pub buffer_size: usize,
    /// The penalty of the readout.
    pub alpha: T,
    pub reducer_type: ReducerType,
    /// Whether the stick positions stand beside the reduced features.
    pub use_setpoint_repr: bool,
}

impl<T: Copy> Clone for DroneRCParameters<T> {
    fn clone(&self) -> (r: Self)
        ensures
            r == *self,
    {
        *self
    }
}

impl<T: Copy> Copy for DroneRCParameters<T> {

}

/// An echo-state reservoir for standardized inputs.
pub struct DroneEsn<T>(Esn<T>);

impl<T> DroneEsn<T> {
    #[verifier::type_invariant]
    spec fn inv(&self) -> bool {
        self.0.vars() == NVARS
    }

    /// The reservoir.
    pub closed spec fn model(&self) -> Esn<T> {
        self.0
    }
}

impl<T: Copy> DroneEsn<T> {
    /// A new reservoir of `n_internal_units` units with random weights.
    pub fn new<O: MatrixOps<T> + Draws<T>>(
        n_internal_units: usize,
        connectivity: T,
        spectral_radius: T,
        input_scaling: T,
        ops: &O,
    ) -> (r: Self)
        requires
            connectivity_ok(*ops, connectivity),
            matrix_ops_ok(*ops),
        ensures
            r.model().units() == n_internal_units,
            r.model().vars() == NVARS,
            is_internal_weights(
                *ops,
                r.model().internal(),
                n_internal_units as nat,
                connectivity,
                spectral_radius,
            ),
            r.model().input().len() == n_internal_units,
            entries_among(r.model().input(), input_scaling, negated(*ops, input_scaling)),
            r.model().scaling() == input_scaling,
    {
        let esn = Esn::new(
            n_internal_units,
            connectivity,
            spectral_radius,
            input_scaling,
            NVARS,
            ops,
        );
        DroneEsn(esn)
    }

    /// A reservoir for standardized inputs from a reservoir with as many
    /// input variables, or `None` for any other.
    pub fn from_esn(esn: Esn<T>) -> (r: Option<Self>)
        ensures
            r is Some <==> esn.vars() == NVARS,
            r matches Some(d) ==> d.model() == esn,
    {
        if esn.n_vars() == NVARS {
            Some(DroneEsn(esn))
        } else {
            None
        }
    }

    /// The reservoir.
    pub fn esn(&self) -> (esn: &Esn<T>)
        ensures
            *esn == self.model(),
            esn.vars() == NVARS,
    {
        proof {
            use_type_invariant(self);
        }
        &self.0
    }

    /// The number of units.
    pub fn n_internal_units(&self) -> (n: usize)
        ensures
            n == self.model().units(),
    {
        self.0.n_internal_units()
    }

    /// The state trajectory of each episode of `input`, from the zero state.
    pub fn compute_state_matricies<O: MatrixOps<T>>(
        &self,
        input: MultipleReservoirInputTrajectory<T>,
        ops: &O,
    ) -> (out: Vec<Matrix<T>>)
        requires
            input.0@.len() > 0,
            forall|t: int|
                0 <= t < input.0@.len() ==> (#[trigger] input.0@[t]).0@.len()
                    == input.0@[0].0@.len(),
            matrix_ops_ok(*ops),
        ensures
            out@.len() == input.0@[0].0@.len(),
            forall|ep: int|
                0 <= ep < out@.len() ==> (#[trigger] out@[ep]).cols() == self.model().units(),
            matrices_view(out@) == trajectories(
                *ops,
                self.model(),
                trajectory_rows(trajectory_view(input.0@)),
                input.0@[0].0@.len(),
                input.0@.len(),
            ),
    {
        proof {
            use_type_invariant(self);
        }
        let ghost shown = input.0@;
        let (eps, time, inputs) = input.to_reservoir_input();
        proof {
            assert forall|t: int| 0 <= t < inputs@.len() implies (#[trigger] inputs@[t])@.len()
                == eps && inputs@[t].cols() == self.0.vars() by {
                assert(matrices_view(inputs@)[t] == inputs@[t]@);
                assert(shown[t].0@.len() == eps);
                assert(inputs@[t]@ == input_rows(shown[t].0@));
            }
            assert(matrices_view(inputs@) =~= trajectory_rows(trajectory_view(shown)));
        }
        self.0.compute_state_matricies2(eps, time, inputs, ops)
    }

    /// Replaces the state of one episode by the next one under the input
    /// `current_input`.
    pub fn advance_state<O: MatrixOps<T>>(
        &self,
        current_input: &ReservoirInput<T>,
        previous_state: &mut Matrix<T>,
        ops: &O,
    )
        requires
            old(previous_state)@.len() == 1,
            old(previous_state).cols() == self.model().units(),
            matrix_ops_ok(*ops),
        ensures
            final(previous_state)@ == integrate_spec(
                *ops,
                self.model(),
                seq![vector_of(*current_input)],
                old(previous_state)@,
            ),
            final(previous_state)@.len() == 1,
            final(previous_state).cols() == self.model().units(),
            is_squashed(*ops, final(previous_state)@),
    {
        proof {
            use_type_invariant(self);
        }
        let current_input = current_input.to_matrix();
        self.0.advance_state(&current_input, previous_state, ops);
    }
}

/// The features of a tick: the reduction of the state representation `row`,
/// with the stick positions (throttle, yaw, pitch, roll) beside it where the
/// controller uses them.
pub open spec fn tick_features<T, O: MatrixOps<T>>(
    ops: O,
    reducer: Reducer<T>,
    use_setpoints: bool,
    row: Seq<T>,
    channels: Channels<T>,
) -> Seq<Seq<T>> {
    let reduced = reduced_rows(ops, reducer, seq![row], row.len());
    if use_setpoints {
        hstack_rows(reduced, seq![setpoint_row(channels)])
    } else {
        reduced
    }
}

/// The number of features that the readout of a controller sees.
pub open spec fn feature_count<T>(reducer: Reducer<T>, state_width: nat, use_setpoints: bool)
    -> nat {
    reduced_cols(reducer, state_width) + if use_setpoints {
        4nat
    } else {
        0nat
    }
}

/// The parts of a controller fit together: the widths of state
/// representation, reducer and readout agree, and the readout has at least
/// four outputs.
pub open spec fn parts_fit<T>(
    units: nat,
    lag: nat,
    reducer: Reducer<T>,
    readout: RidgeRegression<T>,
    use_setpoints: bool,
) -> bool {
    let state_width = units * (lag + 1);
    let feature_width = feature_count(reducer, state_width, use_setpoints);
    &&& state_width <= usize::MAX
    &&& feature_width <= usize::MAX
    &&& reducer matches Reducer::PCAReducer(p) ==> (p.component_count() > 0 && state_width > 0
        ==> p.mean_spec().len() == state_width)
    &&& readout.sol matches Some(sol) ==> sol.features() == feature_width
        && sol.intercepts().len() >= 4
}

/// A trained controller on an echo-state reservoir, with the state of its
/// reservoir and its window of recent states.
pub struct NonAdaptingDroneRc<T> {
    esn: DroneEsn<T>,
    representation: BufferedStates<T>,
    reducer: Reducer<T>,
    readout: RidgeRegression<T>,
    use_setpoint_repr: bool,
    runtime_state: Matrix<T>,
}

impl<T> NonAdaptingDroneRc<T> {
    #[verifier::type_invariant]
    spec fn inv(&self) -> bool {
        &&& self.runtime_state@.len() == 1
        &&& self.runtime_state.cols() == self.esn.model().units()
        &&& parts_fit(
            self.esn.model().units(),
            self.representation.lag_spec(),
            self.reducer,
            self.readout,
            self.use_setpoint_repr,
        )
    }

    /// The reservoir.
    pub closed spec fn esn_model(&self) -> Esn<T> {
        self.esn.model()
    }

    /// The lag of the state representation.
    pub closed spec fn lag_spec(&self) -> nat {
        self.representation.lag_spec()
    }

    /// The window of recent states, newest first.
    pub closed spec fn window(&self) -> Seq<Seq<T>> {
        self.representation.buffer()
    }

    /// The reducer.
    pub closed spec fn reducer_spec(&self) -> Reducer<T> {
        self.reducer
    }

    /// The readout.
    pub closed spec fn readout_spec(&self) -> RidgeRegression<T> {
        self.readout
    }

    /// Whether the stick positions stand beside the reduced features.
    pub closed spec fn uses_setpoints(&self) -> bool {
        self.use_setpoint_repr
    }

    /// The state of the reservoir: one row.
    pub closed spec fn state(&self) -> Seq<Seq<T>> {
        self.runtime_state@
    }

    /// The trained parts are the same in `self` and `other`.
    pub open spec fn same_training(&self, other: &Self) -> bool {
        &&& self.esn_model() == other.esn_model()
        &&& self.lag_spec() == other.lag_spec()
        &&& self.reducer_spec() == other.reducer_spec()
        &&& self.readout_spec() == other.readout_spec()
        &&& self.uses_setpoints() == other.uses_setpoints()
    }

    /// A tick that shows `update` takes the controller `self` to `after`
    /// with the outcome `r`: the reservoir goes to its next state under the
    /// standardized input, the first row of that state enters the window,
    /// and the outcome is what the readout commands for the features of the
    /// window and the stick positions.
    pub open spec fn ticks_to<O: MatrixOps<T>>(
        &self,
        ops: O,
        update: FlightControllerUpdate<T>,
        after: &Self,
        r: Result<MotorInput<T>, RidgeError>,
    ) -> bool {
        &&& after.same_training(self)
        &&& after.state() == integrate_spec(
            ops,
            self.esn_model(),
            seq![vector_of(standardized(ops, update))],
            self.state(),
        )
        &&& after.window() == buffer_push(self.window(), self.lag_spec(), after.state()[0])
        &&& command_view(r) == command_spec(
            ops,
            self.readout_spec(),
            tick_features(
                ops,
                self.reducer_spec(),
                self.uses_setpoints(),
                online_row(after.window(), self.lag_spec()),
                update.channels,
            ),
        )
    }
}

impl<T: Copy> NonAdaptingDroneRc<T> {
    /// A controller from trained parts, with the reservoir at zero and an
    /// empty window; `None` where the parts do not fit together.
    pub fn from_parts<O: MatrixOps<T>>(
        esn: DroneEsn<T>,
        lag: usize,
        reducer: Reducer<T>,
        readout: RidgeRegression<T>,
        use_setpoint_repr: bool,
        ops: &O,
    ) -> (r: Option<Self>)
        requires
            matrix_ops_ok(*ops),
        ensures
            r is Some <==> parts_fit(
                esn.model().units(),
                lag as nat,
                reducer,
                readout,
                use_setpoint_repr,
            ),
            r matches Some(c) ==> {
                &&& c.esn_model() == esn.model()
                &&& c.lag_spec() == lag
                &&& c.reducer_spec() == reducer
                &&& c.readout_spec() == readout
                &&& c.uses_setpoints() == use_setpoint_repr
                &&& c.window() == Seq::<Seq<T>>::empty()
                &&& c.state() == filled_spec(1, esn.model().units(), zero_of(*ops))
            },
    {
        let units = esn.n_internal_units();
        let state_width = match checked_width(units, lag) {
            Some(w) => w,
            None => {
                return None;
            },
        };
        let reduced = match &reducer {
            Reducer::PCAReducer(p) => {
                if p.n_components() > 0 && state_width > 0 {
                    if p.mean().len() != state_width {
                        return None;
                    }
                    p.n_components()
                } else {
                    state_width
                }
            },
            Reducer::NullReducer(_) => state_width,
        };
        let extra: usize = if use_setpoint_repr {
            4
        } else {
            0
        };
        let feature_width = match reduced.checked_add(extra) {
            Some(w) => w,
            None => {
                return None;
            },
        };
        match &readout.sol {
            Some(sol) => {
                if sol.coeff().ncols() != feature_width || sol.intercept().len() < 4 {
                    return None;
                }
            },
            None => {},
        }
        let representation = BufferedStates::new(lag);
        let runtime_state = Matrix::filled(1, units, ops.zero());
        Some(
            NonAdaptingDroneRc {
                esn,
                representation,
                reducer,
                readout,
                use_setpoint_repr,
                runtime_state,
            },
        )
    }

    /// Forgets the flight so far: the window is emptied and the reservoir
    /// goes back to the zero state.
    pub fn init<O: MatrixOps<T>>(&mut self, ops: &O)
        requires
            matrix_ops_ok(*ops),
        ensures
            final(self).same_training(old(self)),
            final(self).window() == Seq::<Seq<T>>::empty(),
            final(self).state() == filled_spec(1, old(self).esn_model().units(), zero_of(*ops)),
    {
        proof {
            use_type_invariant(&*self);
        }
        let lag = self.representation.lag();
        self.representation = BufferedStates::new(lag);
        self.runtime_state = Matrix::filled(1, self.esn.n_internal_units(), ops.zero());
    }

    /// The tick interval of the controller in nanoseconds: ten milliseconds.
    pub fn scheduler_delta(&self) -> (nanos: u128)
        ensures
            nanos == 10_000_000,
    {
        10_000_000
    }

    /// The state of the reservoir.
    pub fn runtime_state(&self) -> (m: &Matrix<T>)
        ensures
            m@ == self.state(),
            m@.len() == 1,
            m.cols() == self.esn_model().units(),
    {
        proof {
            use_type_invariant(self);
        }
        &self.runtime_state
    }

    /// The readout.
    pub fn readout(&self) -> (r: &RidgeRegression<T>)
        ensures
            *r == self.readout_spec(),
    {
        &self.readout
    }

    /// The reducer.
    pub fn reducer(&self) -> (r: &Reducer<T>)
        ensures
            *r == self.reducer_spec(),
    {
        &self.reducer
    }

    /// The reservoir.
    pub fn esn(&self) -> (e: &DroneEsn<T>)
        ensures
            e.model() == self.esn_model(),
    {
        &self.esn
    }

    /// The lag of the state representation.
    pub fn lag(&self) -> (lag: usize)
        ensures
            lag == self.lag_spec(),
    {
        self.representation.lag()
    }

    /// Whether the stick positions stand beside the reduced features.
    pub fn use_setpoint_repr(&self) -> (b: bool)
        ensures
            b == self.uses_setpoints(),
    {
        self.use_setpoint_repr
    }

    /// One tick: from what the controller is shown to a motor command.
    ///
    /// The reservoir goes to a next state under the standardized input; the
    /// first row of that state enters the window; the feature row of the
    /// window is reduced and, where the controller uses them, the stick
    /// positions are put beside it; the readout predicts from these
    /// features, and the command is the prediction, each entry kept between
    /// zero and one. A controller whose readout was never fitted returns the
    /// error and is advanced all the same.
    pub fn update<O: MatrixOps<T>>(&mut self, update: FlightControllerUpdate<T>, ops: &O) -> (r:
        Result<MotorInput<T>, RidgeError>)
        requires
            matrix_ops_ok(*ops),
        ensures
            old(self).ticks_to(*ops, update, final(self), r),
            is_squashed(*ops, final(self).state()),
            r is Ok <==> old(self).readout_spec().sol is Some,
            r matches Ok(cmd) ==> is_clamped(*ops, cmd.input@),
    {
        proof {
            use_type_invariant(&*self);
        }
        let rc_input = ReservoirInput::from_flight_controller_update(update, ops);
        let mut state = self.runtime_state.duplicate();
        self.esn.advance_state(&rc_input, &mut state, ops);
        let lag = self.representation.lag();
        let mut repr = BufferedStates::new(lag);
        std::mem::swap(&mut self.representation, &mut repr);
        let state_repr = repr.repr_online_step(&state);
        self.representation = repr;
        self.runtime_state = state;
        let ghost row = online_row(self.representation.buffer(), lag as nat);
        proof {
            assert(state_repr@[0] == row);
        }
        let mut input_repr = self.reducer.transform(state_repr, ops);
        if self.use_setpoint_repr {
            let setpoints_repr = setpoints_from_flight_update(&update);
            input_repr = hstack(input_repr, setpoints_repr);
        }
        readout_command(&self.readout, &input_repr, ops)
    }
}

/// Every log has exactly `time` steps.
pub open spec fn logs_of_length<T>(logs: Seq<FlightLog<T>>, time: nat) -> bool {
    forall|e: int| 0 <= e < logs.len() ==> (#[trigger] logs[e]).steps@.len() == time
}

/// The state trajectories of the training flights: the reservoir runs from
/// the zero state through the standardized inputs of the logs, all logs at
/// once.
pub open spec fn training_histories<T, O: MatrixOps<T>>(
    ops: O,
    esn: Esn<T>,
    train_data: Seq<FlightLog<T>>,
) -> Seq<Seq<Seq<T>>> {
    let time = train_data[0].steps@.len();
    trajectories(
        ops,
        esn,
        trajectory_rows(trajectory_inputs(ops, train_data, time)),
        train_data.len(),
        time,
    )
}

/// The state representation of the training flights: the lagged feature
/// rows of every state trajectory, one trajectory after the other.
pub open spec fn training_states<T, O: MatrixOps<T>>(
    ops: O,
    esn: Esn<T>,
    lag: nat,
    train_data: Seq<FlightLog<T>>,
) -> Seq<Seq<T>> {
    stacked_features(training_histories(ops, esn, train_data), lag)
}

/// The features that the readout is fitted to: the reduction of the state
/// representation, with the stick positions of the logs beside it where the
/// controller uses them.
pub open spec fn training_features<T, O: MatrixOps<T>>(
    ops: O,
    esn: Esn<T>,
    lag: nat,
    reducer: Reducer<T>,
    use_setpoints: bool,
    train_data: Seq<FlightLog<T>>,
) -> Seq<Seq<T>> {
    let reduced = reduced_rows(
        ops,
        reducer,
        training_states(ops, esn, lag, train_data),
        esn.units() * (lag + 1),
    );
    if use_setpoints {
        hstack_rows(reduced, setpoints_spec(train_data))
    } else {
        reduced
    }
}

/// The controller `c` is what training on `train_data` and the motor
/// commands `motor_inputs` gives for the reservoir that it holds: its
/// reducer is fitted to the state representation of the training flights,
/// and its readout is the ridge solution for the training features and the
/// motor commands.
pub open spec fn is_trained<T, O: MatrixOps<T>>(
    ops: O,
    c: NonAdaptingDroneRc<T>,
    train_data: Seq<FlightLog<T>>,
    motor_inputs: Seq<Seq<T>>,
    outputs: nat,
    parameters: DroneRCParameters<T>,
) -> bool {
    let lag = parameters.buffer_size as nat;
    let state_width = parameters.internal_units * (lag + 1);
    let x = training_features(
        ops,
        c.esn_model(),
        lag,
        c.reducer_spec(),
        parameters.use_setpoint_repr,
        train_data,
    );
    let features = feature_count(
        c.reducer_spec(),
        state_width as nat,
        parameters.use_setpoint_repr,
    );
    &&& is_fitted_to(
        ops,
        c.reducer_spec(),
        parameters.reducer_type,
        training_states(ops, c.esn_model(), lag, train_data),
        state_width as nat,
    )
    &&& c.readout_spec().alpha == parameters.alpha
    &&& c.readout_spec().sol matches Some(sol) && sol.features() == features && sol.coeff_rows()
        == fit_coeff(ops, parameters.alpha, x, features, motor_inputs, outputs)
        && sol.intercepts() == fit_intercept(
        ops,
        parameters.alpha,
        x,
        features,
        motor_inputs,
        outputs,
    )
}

/// The feature rows of `eps` trajectories of `time` states each are
/// `eps * time` many.
pub proof fn stacked_features_len<T>(histories: Seq<Seq<Seq<T>>>, lag: nat, time: nat)
    requires
        forall|e: int| 0 <= e < histories.len() ==> (#[trigger] histories[e]).len() == time,
    ensures
        stacked_features(histories, lag).len() == histories.len() * time,
{
    let per = Seq::new(histories.len(), |e: int| batch_features(histories[e], lag));
    assert(rectangular(per, time));
    flatten_len(per, time);
}

/// The setpoint rows of logs of `time` steps each are `logs.len() * time`
/// many.
pub proof fn setpoints_len<T>(logs: Seq<FlightLog<T>>, time: nat)
    requires
        logs_of_length(logs, time),
    ensures
        setpoints_spec(logs).len() == logs.len() * time,
{
    let per = Seq::new(logs.len(), |e: int| log_setpoints(logs[e].steps@));
    assert(rectangular(per, time));
    flatten_len(per, time);
}

impl<T: Copy> NonAdaptingDroneRc<T> {
    /// Trains a controller on a batch of flight logs.
    ///
    /// The first log sets the number of steps; no log may be shorter, and
    /// where the stick positions are used none may be longer. A new random
    /// reservoir is driven through the standardized inputs of all logs at
    /// once, from the zero state. The state trajectories become feature rows
    /// with `parameters.buffer_size` lagged states each; the reducer of the
    /// kind asked for is fitted to them and reduces them; the stick
    /// positions are put beside the result where `parameters` say so; and
    /// the readout is fitted to the motor commands `motor_inputs`, one row
    /// per step of every log. The controller starts with an empty window and
    /// its reservoir at zero.
    pub fn train_new<O: MatrixOps<T> + Draws<T>>(
        train_data: &Vec<FlightLog<T>>,
        motor_inputs: Matrix<T>,
        parameters: DroneRCParameters<T>,
        ops: &O,
    ) -> (c: Self)
        requires
            train_data@.len() > 0,
            train_data@[0].steps@.len() > 0,
            logs_cover(train_data@, train_data@[0].steps@.len()),
            parameters.use_setpoint_repr ==> logs_of_length(
                train_data@,
                train_data@[0].steps@.len(),
            ),
            motor_inputs@.len() == train_data@.len() * train_data@[0].steps@.len(),
            motor_inputs.cols() >= 4,
            parameters.internal_units > 0 || parameters.use_setpoint_repr,
            parameters.internal_units * (parameters.buffer_size + 1) + 4 <= usize::MAX,
            parameters.reducer_type matches ReducerType::PCA(max_components) ==> kept_components(
                max_components as nat,
                (parameters.internal_units * (parameters.buffer_size + 1)) as nat,
            ) <= train_data@.len() * train_data@[0].steps@.len(),
            connectivity_ok(*ops, parameters.connectivity),
            matrix_ops_ok(*ops),
        ensures
            c.esn_model().units() == parameters.internal_units,
            c.esn_model().vars() == NVARS,
            is_internal_weights(
                *ops,
                c.esn_model().internal(),
                parameters.internal_units as nat,
                parameters.connectivity,
                parameters.spectral_radius,
            ),
            c.esn_model().input().len() == parameters.internal_units,
            entries_among(
                c.esn_model().input(),
                parameters.input_scaling,
                negated(*ops, parameters.input_scaling),
            ),
            c.lag_spec() == parameters.buffer_size,
            c.uses_setpoints() == parameters.use_setpoint_repr,
            c.window() == Seq::<Seq<T>>::empty(),
            c.state() == filled_spec(1, parameters.internal_units as nat, zero_of(*ops)),
            is_trained(*ops, c, train_data@, motor_inputs@, motor_inputs.cols(), parameters),
    {
        let units = parameters.internal_units;
        let lag = parameters.buffer_size;
        let ghost eps = train_data@.len();
        let ghost time = train_data@[0].steps@.len();
        let ghost samples = eps * time;
        proof {
            assert(samples >= 1) by (nonlinear_arith)
                requires
                    samples == eps * time,
                    eps >= 1,
                    time >= 1,
            ;
        }
        let esn = DroneEsn::new(
            units,
            parameters.connectivity,
            parameters.spectral_radius,
            parameters.input_scaling,
            ops,
        );
        let representation: BufferedStates<T> = BufferedStates::new(lag);
        let traj = MultipleReservoirInputTrajectory::from_flight_logs(train_data, ops);
        let ghost shown = trajectory_inputs(*ops, train_data@, time);
        proof {
            assert(trajectory_view(traj.0@) == shown);
            assert(traj.0@.len() == time);
            assert forall|t: int| 0 <= t < traj.0@.len() implies (#[trigger] traj.0@[t]).0@.len()
                == traj.0@[0].0@.len() by {
                assert(trajectory_view(traj.0@)[t] == traj.0@[t].0@);
                assert(trajectory_view(traj.0@)[0] == traj.0@[0].0@);
            }
            assert(trajectory_view(traj.0@)[0] == traj.0@[0].0@);
            assert(traj.0@[0].0@.len() == eps);
        }
        let res_states = esn.compute_state_matricies(traj, ops);
        let ghost histories = matrices_view(res_states@);
        proof {
            assert(histories == training_histories(*ops, esn.model(), train_data@));
            assert(same_cols(res_states@, units as nat));
            assert(units * (lag + 1) <= usize::MAX);
        }
        let state_repr = representation.repr2(&res_states);
        let ghost state_rows = state_repr@;
        proof {
            assert forall|e: int| 0 <= e < histories.len() implies (#[trigger] histories[e]).len()
                == time by {}
            stacked_features_len(histories, lag as nat, time);
            if parameters.use_setpoint_repr {
                setpoints_len(train_data@, time);
            }
            assert(state_repr@.len() == samples);
            assert(state_rows == training_states(*ops, esn.model(), lag as nat, train_data@));
        }
        let state_width = state_repr.ncols();
        let reducer = Reducer::new(parameters.reducer_type, &state_repr, ops);
        let mut input_repr = reducer.transform(state_repr, ops);
        proof {
            assert(input_repr.cols() == reduced_cols(reducer, state_width as nat));
            if units > 0 {
                assert(units * (lag + 1) > 0) by (nonlinear_arith)
                    requires
                        units > 0,
                        lag >= 0,
                ;
            }
        }
        if parameters.use_setpoint_repr {
            let setpoints_repr = setpoints_from_flight_logs(train_data);
            input_repr = hstack(input_repr, setpoints_repr);
        }
        proof {
            assert(input_repr@ == training_features(
                *ops,
                esn.model(),
                lag as nat,
                reducer,
                parameters.use_setpoint_repr,
                train_data@,
            ));
            assert(input_repr@.len() == samples);
        }
        let readout = RidgeRegression::fit_multiple_svd(
            parameters.alpha,
            input_repr,
            &motor_inputs,
            ops,
        );
        let runtime_state = Matrix::filled(1, units, ops.zero());
        NonAdaptingDroneRc {
            esn,
            representation,
            reducer,
            readout,
            use_setpoint_repr: parameters.use_setpoint_repr,
            runtime_state,
        }
    }
}

/// `units * (lag + 1)`, or `None` where that is beyond `usize`.
pub fn checked_width(units: usize, lag: usize) -> (w: Option<usize>)
    ensures
        w is Some <==> units * (lag + 1) <= usize::MAX,
        w matches Some(x) ==> x == units * (lag + 1),
{
    if units == 0 {
        assert(0 * (lag + 1) == 0) by (nonlinear_arith);
        return Some(0);
    }
    match lag.checked_add(1) {
        None => {
            assert(units * (lag + 1) > usize::MAX) by (nonlinear_arith)
                requires
                    units >= 1,
                    lag + 1 > usize::MAX,
            ;
            None
        },
        Some(blocks) => units.checked_mul(blocks),
    }
}

} // verus!
