//! Training a controller on a data set and judging it by how well it
//! imitates recorded flights.

use crate::dimensionality_reducer::{kept_components, ReducerType};
use crate::esn::connectivity_ok;
use crate::esn_controller::{logs_of_length, DroneRCParameters, NonAdaptingDroneRc};
use crate::flight::{FlightLog, MotorInput, SnapShot};
use crate::flight_controller::{is_fitted, is_tick, Controller};
use crate::input_mapping::{logs_cover, shown};
use crate::linalg::{matrix_ops_ok, Draws, MatrixOps};
use crate::loaders::FlDataSet;
use crate::ridge::RidgeError;
use crate::scalar::{
    count_of, difference, product, quotient, scalar_ops_ok, sum, zero_of, ScalarOps,
};
use crate::setpoints::{log_motor_inputs, motor_inputs_spec, snapshots_to_motor_inputs};
use vstd::prelude::*;

verus! {

/// The data that a controller on an echo-state reservoir can be trained on
/// with `parameters`: some log with some step; no log shorter than the
/// first and, where the stick positions are used, none longer; room for the
/// features; and no more components asked for than there are steps.
pub open spec fn can_train_on<T>(
    train_data: Seq<FlightLog<T>>,
    parameters: DroneRCParameters<T>,
) -> bool {
    &&& train_data.len() > 0
    &&& train_data[0].steps@.len() > 0
    &&& logs_cover(train_data, train_data[0].steps@.len())
    &&& logs_of_length(train_data, train_data[0].steps@.len())
    &&& parameters.internal_units > 0 || parameters.use_setpoint_repr
    &&& parameters.internal_units * (parameters.buffer_size + 1) + 4 <= usize::MAX
    &&& parameters.reducer_type matches ReducerType::PCA(max_components) ==> kept_components(
        max_components as nat,
        (parameters.internal_units * (parameters.buffer_size + 1)) as nat,
    ) <= train_data.len() * train_data[0].steps@.len()
}

/// Trains a controller on an echo-state reservoir on the training flights
/// of `dataset`, against the motor commands recorded in them.
pub fn train_on_dataset<T: Copy, O: MatrixOps<T> + Draws<T>>(
    dataset: &FlDataSet<T>,
    training_parameters: DroneRCParameters<T>,
    ops: &O,
) -> (c: NonAdaptingDroneRc<T>)
    requires
        can_train_on(dataset.train_data@, training_parameters),
        connectivity_ok(*ops, training_parameters.connectivity),
        matrix_ops_ok(*ops),
    ensures
        c.esn_model().units() == training_parameters.internal_units,
        c.lag_spec() == training_parameters.buffer_size,
        c.uses_setpoints() == training_parameters.use_setpoint_repr,
        c.window() == Seq::<Seq<T>>::empty(),
        crate::esn_controller::is_trained(
            *ops,
            c,
            dataset.train_data@,
            motor_inputs_spec(dataset.train_data@),
            4,
            training_parameters,
        ),
{
    let train_motor_input = snapshots_to_motor_inputs(&dataset.train_data);
    proof {
        let logs = dataset.train_data@;
        let time = logs[0].steps@.len();
        let per = Seq::new(logs.len(), |e: int| log_motor_inputs(logs[e].steps@));
        assert(crate::matrix::rectangular(per, time));
        crate::repr::flatten_len(per, time);
    }
    NonAdaptingDroneRc::train_new(
        &dataset.train_data,
        train_motor_input,
        training_parameters,
        ops,
    )
}

/// The sum of the squared differences of the first `n` scalars of the
/// commands `predicted` and `actual`, four scalars per command, added up in
/// their order from zero.
pub open spec fn squared_error_sum<T, O: ScalarOps<T>>(
    ops: O,
    predicted: Seq<Seq<T>>,
    actual: Seq<Seq<T>>,
    n: nat,
) -> T
    decreases n,
{
    if n == 0 {
        zero_of(ops)
    } else {
        let s = (n - 1) / 4;
        let i = (n - 1) % 4;
        let diff = difference(ops, predicted[s][i], actual[s][i]);
        sum(
            ops,
            squared_error_sum(ops, predicted, actual, (n - 1) as nat),
            product(ops, diff, diff),
        )
    }
}

/// The mean of the squared differences of the commands `predicted` and
/// `actual`, over four scalars per command.
pub open spec fn mse_spec<T, O: ScalarOps<T>>(ops: O, predicted: Seq<Seq<T>>, actual: Seq<Seq<T>>)
    -> T {
    quotient(
        ops,
        squared_error_sum(ops, predicted, actual, 4 * predicted.len()),
        count_of(ops, (predicted.len() * 4) as usize),
    )
}

/// The four scalars of each command.
pub open spec fn command_rows<T>(commands: Seq<MotorInput<T>>) -> Seq<Seq<T>> {
    Seq::new(commands.len(), |t: int| commands[t].input@)
}

/// The mean squared error of the commands `predicted` against the commands
/// `actual`.
pub fn mean_squared_error<T: Copy, O: ScalarOps<T>>(
    predicted: &Vec<MotorInput<T>>,
    actual: &Vec<[T; 4]>,
    ops: &O,
) -> (mse: T)
    requires
        predicted@.len() == actual@.len(),
        predicted@.len() * 4 <= usize::MAX,
        scalar_ops_ok(*ops),
    ensures
        mse == mse_spec(
            *ops,
            command_rows(predicted@),
            Seq::new(actual@.len(), |t: int| actual@[t]@),
        ),
{
    let ghost p = command_rows(predicted@);
    let ghost a = Seq::new(actual@.len(), |t: int| actual@[t]@);
    let total_samples = ops.from_count(predicted.len() * 4);
    let mut squared_error_sum = ops.zero();
    let mut s: usize = 0;
    while s < predicted.len()
        invariant
            s <= predicted@.len(),
            predicted@.len() == actual@.len(),
            predicted@.len() * 4 <= usize::MAX,
            scalar_ops_ok(*ops),
            p == command_rows(predicted@),
            a == Seq::new(actual@.len(), |t: int| actual@[t]@),
            squared_error_sum == crate::training::squared_error_sum(*ops, p, a, (4 * s) as nat),
        decreases predicted@.len() - s,
    {
        let mut i: usize = 0;
        while i < 4
            invariant
                i <= 4,
                s < predicted@.len(),
                predicted@.len() == actual@.len(),
                predicted@.len() * 4 <= usize::MAX,
                scalar_ops_ok(*ops),
                p == command_rows(predicted@),
                a == Seq::new(actual@.len(), |t: int| actual@[t]@),
                squared_error_sum == crate::training::squared_error_sum(
                    *ops,
                    p,
                    a,
                    (4 * s + i) as nat,
                ),
            decreases 4 - i,
        {
            let diff = ops.minus(predicted[s].input[i], actual[s][i]);
            proof {
                assert((4 * s + i) / 4 == s);
                assert((4 * s + i) % 4 == i);
                assert(p[s as int][i as int] == predicted@[s as int].input@[i as int]);
                assert(a[s as int][i as int] == actual@[s as int]@[i as int]);
            }
            squared_error_sum = ops.plus(squared_error_sum, ops.times(diff, diff));
            i += 1;
        }
        s += 1;
    }
    ops.divide(squared_error_sum, total_samples)
}

/// The controller `start` is shown the snapshots `steps` one after the
/// other: `states` are the controllers before and after each tick and
/// `commands` the motor commands of the ticks.
pub open spec fn is_replay<T, O: MatrixOps<T>>(
    ops: O,
    start: Controller<T>,
    steps: Seq<SnapShot<T>>,
    states: Seq<Controller<T>>,
    commands: Seq<MotorInput<T>>,
) -> bool {
    &&& states.len() == steps.len() + 1
    &&& commands.len() == steps.len()
    &&& states[0] == start
    &&& forall|t: int|
        0 <= t < steps.len() ==> is_tick(
            ops,
            states[t],
            shown(steps[t]),
            states[t + 1],
            Ok(#[trigger] commands[t]),
        )
}

/// `mse` is the mean squared error of the commands that the controller
/// `start` gives when it is shown `steps` against the commands recorded in
/// `steps`, and `end` is the controller after that.
pub open spec fn is_open_loop_mse<T, O: MatrixOps<T>>(
    ops: O,
    start: Controller<T>,
    steps: Seq<SnapShot<T>>,
    end: Controller<T>,
    mse: T,
) -> bool {
    exists|states: Seq<Controller<T>>, commands: Seq<MotorInput<T>>| #[trigger]
        is_replay(ops, start, steps, states, commands) && states[steps.len() as int] == end
            && mse == mse_spec(ops, command_rows(commands), log_motor_inputs(steps))
}

/// Shows the controller the snapshots of a flight log, one after the
/// other, and returns the mean squared error of its commands against the
/// recorded ones. A controller whose readout was never fitted gives the
/// error at the first snapshot.
pub fn evaluate_open_loop_fl_mse<T: Copy, O: MatrixOps<T>>(
    controller: &mut Controller<T>,
    flight_log: &FlightLog<T>,
    ops: &O,
) -> (r: Result<T, RidgeError>)
    requires
        flight_log.steps@.len() * 4 <= usize::MAX,
        matrix_ops_ok(*ops),
    ensures
        r is Ok <==> is_fitted(*old(controller)) || flight_log.steps@.len() == 0,
        r matches Ok(mse) ==> is_open_loop_mse(
            *ops,
            *old(controller),
            flight_log.steps@,
            *final(controller),
            mse,
        ),
        r is Err ==> is_tick(
            *ops,
            *old(controller),
            shown(flight_log.steps@[0]),
            *final(controller),
            Err(RidgeError::UnfittedModel),
        ),
        is_fitted(*final(controller)) == is_fitted(*old(controller)),
{
    let steps = &flight_log.steps;
    let ghost start = *controller;
    let ghost mut states: Seq<Controller<T>> = seq![*controller];
    let mut predicted_motor_inputs: Vec<MotorInput<T>> = Vec::new();
    let mut actual_motor_inputs: Vec<[T; 4]> = Vec::new();
    let mut t: usize = 0;
    while t < steps.len()
        invariant
            t <= steps@.len(),
            steps@ == flight_log.steps@,
            steps@.len() * 4 <= usize::MAX,
            matrix_ops_ok(*ops),
            start == *old(controller),
            t > 0 ==> is_fitted(start),
            is_fitted(*controller) == is_fitted(start),
            states.len() == t + 1,
            states[0] == start,
            states[t as int] == *controller,
            predicted_motor_inputs@.len() == t,
            actual_motor_inputs@.len() == t,
            forall|k: int|
                0 <= k < t ==> is_tick(
                    *ops,
                    states[k],
                    shown(steps@[k]),
                    states[k + 1],
                    Ok(#[trigger] predicted_motor_inputs@[k]),
                ),
            forall|k: int| 0 <= k < t ==> actual_motor_inputs@[k] == steps@[k].motor_input,
        decreases steps@.len() - t,
    {
        let snapshot = &steps[t];
        let ghost before = *controller;
        match controller.update(snapshot.update(), ops) {
            Ok(prediction) => {
                proof {
                    states = states.push(*controller);
                }
                actual_motor_inputs.push(snapshot.motor_input);
                predicted_motor_inputs.push(prediction);
            },
            Err(e) => {
                return Err(e);
            },
        }
        t += 1;
    }
    let mse = mean_squared_error(&predicted_motor_inputs, &actual_motor_inputs, ops);
    proof {
        assert(Seq::new(actual_motor_inputs@.len(), |t: int| actual_motor_inputs@[t]@)
            =~= log_motor_inputs(steps@));
        assert(is_replay(*ops, start, steps@, states, predicted_motor_inputs@));
    }
    Ok(mse)
}

/// How well a controller imitates the test flights of a data set.
#[derive(Debug)]
pub struct OpenLoopEvaluationResult<T> {
    /// The mean of the errors of the episodes.
    pub mean_mse: T,
    /// The mean squared error of each episode, under its identifier.
    pub episode_mses: Vec<(String, T)>,
}

/// The sum of the first `k` of `mses`, added up in their order from zero.
pub open spec fn mse_total<T, O: ScalarOps<T>>(ops: O, mses: Seq<T>, k: nat) -> T
    decreases k,
{
    if k == 0 {
        zero_of(ops)
    } else {
        sum(ops, mse_total(ops, mses, (k - 1) as nat), mses[k - 1])
    }
}

/// The errors of the episodes of an evaluation, without their identifiers.
pub open spec fn episode_errors<T>(episodes: Seq<(String, T)>) -> Seq<T> {
    Seq::new(episodes.len(), |e: int| episodes[e].1)
}

/// The controller `start` is shown the flights `logs` one after the other
/// without a reset in between: `states` are the controllers before and
/// after each flight and `mses` the mean squared errors of the flights.
pub open spec fn is_evaluation<T, O: MatrixOps<T>>(
    ops: O,
    start: Controller<T>,
    logs: Seq<FlightLog<T>>,
    states: Seq<Controller<T>>,
    mses: Seq<T>,
) -> bool {
    &&& states.len() == logs.len() + 1
    &&& mses.len() == logs.len()
    &&& states[0] == start
    &&& forall|e: int|
        0 <= e < logs.len() ==> is_open_loop_mse(
            ops,
            states[e],
            logs[e].steps@,
            states[e + 1],
            #[trigger] mses[e],
        )
}

/// `result` is the evaluation of the controller `start` on the flights
/// `logs`, and `end` the controller after it: each episode under the
/// identifier of its flight, and the mean of the errors of the episodes.
pub open spec fn is_dataset_evaluation<T, O: MatrixOps<T>>(
    ops: O,
    start: Controller<T>,
    logs: Seq<FlightLog<T>>,
    end: Controller<T>,
    result: OpenLoopEvaluationResult<T>,
) -> bool {
    &&& result.episode_mses@.len() == logs.len()
    &&& forall|e: int|
        0 <= e < logs.len() ==> (#[trigger] result.episode_mses@[e]).0@ == logs[e].simulation_id@
    &&& result.mean_mse == quotient(
        ops,
        mse_total(ops, episode_errors(result.episode_mses@), logs.len()),
        count_of(ops, logs.len() as usize),
    )
    &&& exists|states: Seq<Controller<T>>| #[trigger]
        is_evaluation(ops, start, logs, states, episode_errors(result.episode_mses@))
            && states[logs.len() as int] == end
}

/// Every log has room for its evaluation: four scalars per step can be
/// counted.
pub open spec fn logs_countable<T>(logs: Seq<FlightLog<T>>) -> bool {
    forall|e: int| 0 <= e < logs.len() ==> (#[trigger] logs[e]).steps@.len() * 4 <= usize::MAX
}

/// Evaluates a controller on the test flights of a data set, one flight
/// after the other: the mean squared error of each flight and their mean.
/// A controller whose readout was never fitted gives the error at the first
/// snapshot it is shown.
pub fn evaluate_open_loop_dataset_mse<T: Copy, O: MatrixOps<T>>(
    controller: &mut Controller<T>,
    dataset: &FlDataSet<T>,
    ops: &O,
) -> (r: Result<OpenLoopEvaluationResult<T>, RidgeError>)
    requires
        logs_countable(dataset.test_data@),
        matrix_ops_ok(*ops),
    ensures
        is_fitted(*old(controller)) ==> r is Ok,
        r matches Ok(result) ==> is_dataset_evaluation(
            *ops,
            *old(controller),
            dataset.test_data@,
            *final(controller),
            result,
        ),
        is_fitted(*final(controller)) == is_fitted(*old(controller)),
{
    let logs = &dataset.test_data;
    let ghost start = *controller;
    let ghost mut states: Seq<Controller<T>> = seq![*controller];
    let mut episode_mses: Vec<(String, T)> = Vec::new();
    let mut total = ops.zero();
    let mut e: usize = 0;
    while e < logs.len()
        invariant
            e <= logs@.len(),
            logs@ == dataset.test_data@,
            logs_countable(logs@),
            matrix_ops_ok(*ops),
            start == *old(controller),
            is_fitted(*controller) == is_fitted(start),
            states.len() == e + 1,
            states[0] == start,
            states[e as int] == *controller,
            episode_mses@.len() == e,
            forall|k: int|
                0 <= k < e ==> (#[trigger] episode_mses@[k]).0@ == logs@[k].simulation_id@,
            forall|k: int|
                0 <= k < e ==> is_open_loop_mse(
                    *ops,
                    states[k],
                    logs@[k].steps@,
                    states[k + 1],
                    #[trigger] episode_errors(episode_mses@)[k],
                ),
            total == mse_total(*ops, episode_errors(episode_mses@), e as nat),
        decreases logs@.len() - e,
    {
        let flight_log = &logs[e];
        let simulation_id = flight_log.simulation_id.clone();
        let ghost errors_before = episode_errors(episode_mses@);
        match evaluate_open_loop_fl_mse(controller, flight_log, ops) {
            Ok(mse) => {
                proof {
                    states = states.push(*controller);
                }
                episode_mses.push((simulation_id, mse));
                total = ops.plus(total, mse);
                proof {
                    let errors = episode_errors(episode_mses@);
                    assert(errors =~= errors_before.push(mse));
                    assert forall|k: int| 0 <= k < e + 1 implies is_open_loop_mse(
                        *ops,
                        states[k],
                        logs@[k].steps@,
                        states[k + 1],
                        #[trigger] errors[k],
                    ) by {
                        if k < e {
                            assert(errors[k] == errors_before[k]);
                        }
                    }
                    mse_total_prefix(*ops, errors_before, errors, e as nat);
                }
            },
            Err(err) => {
                return Err(err);
            },
        }
        e += 1;
    }
    let mean_mse = ops.divide(total, ops.from_count(episode_mses.len()));
    let result = OpenLoopEvaluationResult { mean_mse, episode_mses };
    proof {
        assert(is_evaluation(
            *ops,
            start,
            logs@,
            states,
            episode_errors(result.episode_mses@),
        ));
    }
    Ok(result)
}

/// A sum over the first errors depends on those errors alone.
pub proof fn mse_total_prefix<T, O: ScalarOps<T>>(ops: O, a: Seq<T>, b: Seq<T>, k: nat)
    requires
        k <= a.len(),
        a.is_prefix_of(b),
    ensures
        mse_total(ops, a, k) == mse_total(ops, b, k),
    decreases k,
{
    if k > 0 {
        mse_total_prefix(ops, a, b, (k - 1) as nat);
        assert(a[k - 1] == b[k - 1]);
    }
}

} // verus!
