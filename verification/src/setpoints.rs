//! Feature and target rows taken directly from flight logs: the stick
//! positions beside the reservoir features, and the motor commands that a
//! readout is fitted to.

use crate::flight::{Channels, FlightControllerUpdate, FlightLog, SnapShot};
use crate::matrix::{rectangular, rows_view, Matrix};
use vstd::prelude::*;

verus! {

/// The stick positions as features: throttle, yaw, pitch, roll.
pub open spec fn setpoint_row<T>(channels: Channels<T>) -> Seq<T> {
    seq![channels.throttle, channels.yaw, channels.pitch, channels.roll]
}

/// The setpoint rows of one log, one per step.
pub open spec fn log_setpoints<T>(steps: Seq<SnapShot<T>>) -> Seq<Seq<T>> {
    Seq::new(steps.len(), |t: int| setpoint_row(steps[t].channels))
}

/// The setpoint rows of several logs, one log after the other.
pub open spec fn setpoints_spec<T>(logs: Seq<FlightLog<T>>) -> Seq<Seq<T>> {
    Seq::new(logs.len(), |e: int| log_setpoints(logs[e].steps@)).flatten()
}

/// The motor commands of one log, one row per step.
pub open spec fn log_motor_inputs<T>(steps: Seq<SnapShot<T>>) -> Seq<Seq<T>> {
    Seq::new(steps.len(), |t: int| steps[t].motor_input@)
}

/// The motor commands of several logs, one log after the other.
pub open spec fn motor_inputs_spec<T>(logs: Seq<FlightLog<T>>) -> Seq<Seq<T>> {
    Seq::new(logs.len(), |e: int| log_motor_inputs(logs[e].steps@)).flatten()
}

fn setpoint_vec<T: Copy>(channels: &Channels<T>) -> (row: Vec<T>)
    ensures
        row@ == setpoint_row(*channels),
{
    let mut row: Vec<T> = Vec::new();
    row.push(channels.throttle);
    row.push(channels.yaw);
    row.push(channels.pitch);
    row.push(channels.roll);
    assert(row@ =~= setpoint_row(*channels));
    row
}

fn motor_vec<T: Copy>(snapshot: &SnapShot<T>) -> (row: Vec<T>)
    ensures
        row@ == snapshot.motor_input@,
{
    let mut row: Vec<T> = Vec::new();
    row.push(snapshot.motor_input[0]);
    row.push(snapshot.motor_input[1]);
    row.push(snapshot.motor_input[2]);
    row.push(snapshot.motor_input[3]);
    assert(row@ =~= snapshot.motor_input@);
    row
}

/// The stick positions of every step of every log as a matrix of four
/// columns: throttle, yaw, pitch, roll. The rows of the first log come first.
pub fn setpoints_from_flight_logs<T: Copy>(fls: &Vec<FlightLog<T>>) -> (out: Matrix<T>)
    ensures
        out@ == setpoints_spec(fls@),
        out.cols() == 4,
{
    let ghost per_log = Seq::new(fls@.len(), |e: int| log_setpoints(fls@[e].steps@));
    let mut rows: Vec<Vec<T>> = Vec::new();
    let mut e: usize = 0;
    assert(per_log.take(0) =~= Seq::<Seq<Seq<T>>>::empty());
    while e < fls.len()
        invariant
            e <= fls@.len(),
            per_log == Seq::new(fls@.len(), |e: int| log_setpoints(fls@[e].steps@)),
            rows_view(rows@) == per_log.take(e as int).flatten(),
            rectangular(rows_view(rows@), 4),
        decreases fls@.len() - e,
    {
        let steps = &fls[e].steps;
        let ghost before = rows_view(rows@);
        let mut t: usize = 0;
        while t < steps.len()
            invariant
                t <= steps@.len(),
                steps@ == fls@[e as int].steps@,
                rectangular(rows_view(rows@), 4),
                rows_view(rows@) == before + log_setpoints(steps@).take(t as int),
            decreases steps@.len() - t,
        {
            let ghost prev = rows_view(rows@);
            let row = setpoint_vec(&steps[t].channels);
            rows.push(row);
            proof {
                assert(rows_view(rows@) =~= prev.push(setpoint_row(steps@[t as int].channels)));
                assert(log_setpoints(steps@).take(t + 1) =~= log_setpoints(steps@).take(
                    t as int,
                ).push(setpoint_row(steps@[t as int].channels)));
                assert(rows_view(rows@) =~= before + log_setpoints(steps@).take(t + 1));
            }
            t += 1;
        }
        proof {
            assert(log_setpoints(steps@).take(steps@.len() as int) =~= log_setpoints(steps@));
            assert(per_log.take(e + 1) =~= per_log.take(e as int).push(per_log[e as int]));
            per_log.take(e as int).lemma_flatten_push(per_log[e as int]);
        }
        e += 1;
    }
    assert(per_log.take(fls@.len() as int) =~= per_log);
    Matrix::from_rows(4, rows)
}

/// The stick positions that a controller is shown as a matrix of one row:
/// throttle, yaw, pitch, roll.
pub fn setpoints_from_flight_update<T: Copy>(fl: &FlightControllerUpdate<T>) -> (out: Matrix<T>)
    ensures
        out@ == seq![setpoint_row(fl.channels)],
        out.cols() == 4,
{
    Matrix::from_row(setpoint_vec(&fl.channels))
}

/// The motor commands of every step of every log as a matrix of four
/// columns. The rows of the first log come first.
pub fn snapshots_to_motor_inputs<T: Copy>(flight_logs: &Vec<FlightLog<T>>) -> (out: Matrix<T>)
    ensures
        out@ == motor_inputs_spec(flight_logs@),
        out.cols() == 4,
{
    let ghost per_log = Seq::new(
        flight_logs@.len(),
        |e: int| log_motor_inputs(flight_logs@[e].steps@),
    );
    let mut rows: Vec<Vec<T>> = Vec::new();
    let mut e: usize = 0;
    assert(per_log.take(0) =~= Seq::<Seq<Seq<T>>>::empty());
    while e < flight_logs.len()
        invariant
            e <= flight_logs@.len(),
            per_log == Seq::new(
                flight_logs@.len(),
                |e: int| log_motor_inputs(flight_logs@[e].steps@),
            ),
            rows_view(rows@) == per_log.take(e as int).flatten(),
            rectangular(rows_view(rows@), 4),
        decreases flight_logs@.len() - e,
    {
        let steps = &flight_logs[e].steps;
        let ghost before = rows_view(rows@);
        let mut t: usize = 0;
        while t < steps.len()
            invariant
                t <= steps@.len(),
                steps@ == flight_logs@[e as int].steps@,
                rectangular(rows_view(rows@), 4),
                rows_view(rows@) == before + log_motor_inputs(steps@).take(t as int),
            decreases steps@.len() - t,
        {
            let ghost prev = rows_view(rows@);
            let row = motor_vec(&steps[t]);
            rows.push(row);
            proof {
                assert(rows_view(rows@) =~= prev.push(steps@[t as int].motor_input@));
                assert(log_motor_inputs(steps@).take(t + 1) =~= log_motor_inputs(steps@).take(
                    t as int,
                ).push(steps@[t as int].motor_input@));
                assert(rows_view(rows@) =~= before + log_motor_inputs(steps@).take(t + 1));
            }
            t += 1;
        }
        proof {
            assert(log_motor_inputs(steps@).take(steps@.len() as int) =~= log_motor_inputs(
                steps@,
            ));
            assert(per_log.take(e + 1) =~= per_log.take(e as int).push(per_log[e as int]));
            per_log.take(e as int).lemma_flatten_push(per_log[e as int]);
        }
        e += 1;
    }
    assert(per_log.take(flight_logs@.len() as int) =~= per_log);
    Matrix::from_rows(4, rows)
}

} // verus!
