//! The standardized input of a reservoir.
//!
//! Ten scalars in a fixed order: the throttle; the rate, the target and the
//! error of roll; those of pitch; those of yaw. Rates are gyro rates divided
//! by the maximum rate; targets are the rates expected of the sticks,
//! divided by the maximum rate; an error is a target minus a rate.

use crate::bf_rates::{default_curve, stick_inputs_to_targets, targets_spec, BetaflightRates};
use crate::flight::{FlightControllerUpdate, FlightLog, SnapShot};
use crate::scalar::{difference, quotient, scalar_ops_ok, ScalarOps};
use crate::matrix::{rows_view, Matrix};
use vstd::prelude::*;

verus! {

/// The number of scalars in a standardized input.
pub const NVARS: usize = 10;

/// The standardized input of a reservoir at one instant.
#[derive(Debug)]
pub struct ReservoirInput<T> {
    pub throttle: T,
    pub roll_rate: T,
    pub pitch_rate: T,
    pub yaw_rate: T,
    pub roll_target: T,
    pub pitch_target: T,
    pub yaw_target: T,
    pub roll_err: T,
    pub pitch_err: T,
    pub yaw_err: T,
}

impl<T: Copy> Clone for ReservoirInput<T> {
    fn clone(&self) -> (r: Self)
        ensures
            r == *self,
    {
        *self
    }
}

impl<T: Copy> Copy for ReservoirInput<T> {

}

/// The standardized input for what a controller is shown: the throttle as
/// it is, the gyro rates and the rates expected of the sticks divided by the
/// maximum rate of the default curve, and what the gyro rates lack of the
/// expected ones.
pub open spec fn standardized<T, O: ScalarOps<T>>(ops: O, update: FlightControllerUpdate<T>)
    -> ReservoirInput<T> {
    let rate_scale = default_curve(ops).max_rate;
    let expected = targets_spec(ops, update.channels);
    let roll_rate = quotient(ops, update.angular_velocity[0], rate_scale);
    let pitch_rate = quotient(ops, update.angular_velocity[1], rate_scale);
    let yaw_rate = quotient(ops, update.angular_velocity[2], rate_scale);
    let roll_target = quotient(ops, expected.roll, rate_scale);
    let pitch_target = quotient(ops, expected.pitch, rate_scale);
    let yaw_target = quotient(ops, expected.yaw, rate_scale);
    ReservoirInput {
        throttle: update.channels.throttle,
        roll_rate,
        pitch_rate,
        yaw_rate,
        roll_target,
        pitch_target,
        yaw_target,
        roll_err: difference(ops, roll_target, roll_rate),
        pitch_err: difference(ops, pitch_target, pitch_rate),
        yaw_err: difference(ops, yaw_target, yaw_rate),
    }
}

/// What a controller was shown at a logged instant.
pub open spec fn shown<T>(snapshot: SnapShot<T>) -> FlightControllerUpdate<T> {
    FlightControllerUpdate {
        battery: snapshot.battery,
        angular_velocity: snapshot.angular_velocity,
        channels: snapshot.channels,
    }
}

/// The ten scalars of an input in their order: the throttle, then rate,
/// target and error of roll, of pitch and of yaw.
pub open spec fn vector_of<T>(input: ReservoirInput<T>) -> Seq<T> {
    seq![
        input.throttle,
        input.roll_rate,
        input.roll_target,
        input.roll_err,
        input.pitch_rate,
        input.pitch_target,
        input.pitch_err,
        input.yaw_rate,
        input.yaw_target,
        input.yaw_err,
    ]
}

/// The vectors of a sequence of inputs, one row each.
pub open spec fn input_rows<T>(inputs: Seq<ReservoirInput<T>>) -> Seq<Seq<T>> {
    Seq::new(inputs.len(), |i: int| vector_of(inputs[i]))
}

impl<T: Copy> ReservoirInput<T> {
    /// The standardized input for a logged instant.
    pub fn from_snapshot<O: ScalarOps<T>>(
        snapshot: &SnapShot<T>,
        ops: &O,
    ) -> (input: Self)
        requires
            scalar_ops_ok(*ops),
        ensures
            input == standardized(*ops, shown(*snapshot)),
    {
        Self::from_flight_controller_update(snapshot.update(), ops)
    }

    /// The standardized input for what a controller is shown.
    pub fn from_flight_controller_update<O: ScalarOps<T>>(
        update: FlightControllerUpdate<T>,
        ops: &O,
    ) -> (input: Self)
        requires
            scalar_ops_ok(*ops),
        ensures
            input == standardized(*ops, update),
    {
        let rate_scale = BetaflightRates::default(ops).max_rate;
        let expected_rates = stick_inputs_to_targets(&update.channels, ops);
        let gyro = update.angular_velocity;
        let roll_rate = ops.divide(gyro[0], rate_scale);
        let pitch_rate = ops.divide(gyro[1], rate_scale);
        let yaw_rate = ops.divide(gyro[2], rate_scale);
        let roll_target = ops.divide(expected_rates.roll, rate_scale);
        let pitch_target = ops.divide(expected_rates.pitch, rate_scale);
        let yaw_target = ops.divide(expected_rates.yaw, rate_scale);
        let roll_err = ops.minus(roll_target, roll_rate);
        let pitch_err = ops.minus(pitch_target, pitch_rate);
        let yaw_err = ops.minus(yaw_target, yaw_rate);
        ReservoirInput {
            throttle: update.channels.throttle,
            roll_rate,
            pitch_rate,
            yaw_rate,
            roll_target,
            pitch_target,
            yaw_target,
            roll_err,
            pitch_err,
            yaw_err,
        }
    }

    /// The ten scalars in their order.
    pub fn to_vector(&self) -> (v: Vec<T>)
        ensures
            v@ == vector_of(*self),
            v@.len() == NVARS,
    {
        let mut v: Vec<T> = Vec::new();
        v.push(self.throttle);
        v.push(self.roll_rate);
        v.push(self.roll_target);
        v.push(self.roll_err);
        v.push(self.pitch_rate);
        v.push(self.pitch_target);
        v.push(self.pitch_err);
        v.push(self.yaw_rate);
        v.push(self.yaw_target);
        v.push(self.yaw_err);
        assert(v@ =~= vector_of(*self));
        v
    }

    /// The ten scalars as a matrix of one row.
    pub fn to_matrix(&self) -> (m: Matrix<T>)
        ensures
            m@ == seq![vector_of(*self)],
            m.cols() == NVARS,
    {
        Matrix::from_row(self.to_vector())
    }
}

/// The inputs of several reservoirs at one instant, one per episode.
pub struct MultipleReservoirInput<T>(pub Vec<ReservoirInput<T>>);

impl<T: Copy> MultipleReservoirInput<T> {
    /// The number of episodes.
    pub fn eps(&self) -> (n: usize)
        ensures
            n == self.0@.len(),
    {
        self.0.len()
    }

    /// The inputs as a matrix, one row per episode.
    pub fn into_matrix(self) -> (m: Matrix<T>)
        ensures
            m@ == input_rows(self.0@),
            m.cols() == NVARS,
    {
        let mut rows: Vec<Vec<T>> = Vec::new();
        let mut i: usize = 0;
        while i < self.0.len()
            invariant
                i <= self.0@.len(),
                rows@.len() == i,
                forall|k: int| 0 <= k < i ==> (#[trigger] rows@[k])@ == vector_of(self.0@[k]),
            decreases self.0@.len() - i,
        {
            rows.push(self.0[i].to_vector());
            i += 1;
        }
        assert(rows_view(rows@) =~= input_rows(self.0@));
        Matrix::from_rows(NVARS, rows)
    }

    /// The standardized inputs for the snapshots of one instant.
    pub fn from_snapshots<O: ScalarOps<T>>(
        snapshots: &Vec<SnapShot<T>>,
        ops: &O,
    ) -> (inputs: Self)
        requires
            scalar_ops_ok(*ops),
        ensures
            inputs.0@ == Seq::new(
                snapshots@.len(),
                |i: int| standardized(*ops, shown(snapshots@[i])),
            ),
    {
        let mut inputs: Vec<ReservoirInput<T>> = Vec::new();
        let mut i: usize = 0;
        while i < snapshots.len()
            invariant
                i <= snapshots@.len(),
                scalar_ops_ok(*ops),
                inputs@.len() == i,
                forall|k: int|
                    0 <= k < i ==> inputs@[k] == standardized(*ops, shown(snapshots@[k])),
            decreases snapshots@.len() - i,
        {
            inputs.push(ReservoirInput::from_snapshot(&snapshots[i], ops));
            i += 1;
        }
        assert(inputs@ =~= Seq::new(
            snapshots@.len(),
            |i: int| standardized(*ops, shown(snapshots@[i])),
        ));
        MultipleReservoirInput(inputs)
    }
}

/// The inputs of several reservoirs over time: one entry per instant.
pub struct MultipleReservoirInputTrajectory<T>(pub Vec<MultipleReservoirInput<T>>);

/// Every log has at least `time` steps.
pub open spec fn logs_cover<T>(logs: Seq<FlightLog<T>>, time: nat) -> bool {
    forall|ep: int| 0 <= ep < logs.len() ==> (#[trigger] logs[ep]).steps@.len() >= time
}

/// The standardized inputs of the first `time` instants of the logs: entry
/// `t` holds, for each log, the input for its step `t`.
pub open spec fn trajectory_inputs<T, O: ScalarOps<T>>(
    ops: O,
    logs: Seq<FlightLog<T>>,
    time: nat,
) -> Seq<Seq<ReservoirInput<T>>> {
    Seq::new(
        time,
        |t: int|
            Seq::new(logs.len(), |ep: int| standardized(ops, shown(logs[ep].steps@[t]))),
    )
}

/// The input sequences of a trajectory, instant by instant.
pub open spec fn trajectory_view<T>(traj: Seq<MultipleReservoirInput<T>>) -> Seq<
    Seq<ReservoirInput<T>>,
> {
    Seq::new(traj.len(), |t: int| traj[t].0@)
}

/// The input matrices of a trajectory: for each instant, the vectors of its
/// inputs as rows.
pub open spec fn trajectory_rows<T>(traj: Seq<Seq<ReservoirInput<T>>>) -> Seq<Seq<Seq<T>>> {
    Seq::new(traj.len(), |t: int| input_rows(traj[t]))
}

impl<T: Copy> MultipleReservoirInputTrajectory<T> {
    /// The number of episodes (that of the first instant), the number of
    /// instants, and one input matrix per instant with one row per episode.
    pub fn to_reservoir_input(self) -> (r: (usize, usize, Vec<Matrix<T>>))
        requires
            self.0@.len() > 0,
        ensures
            r.0 == self.0@[0].0@.len(),
            r.1 == self.0@.len(),
            r.2@.len() == self.0@.len(),
            crate::repr::matrices_view(r.2@) == trajectory_rows(trajectory_view(self.0@)),
            crate::repr::same_cols(r.2@, NVARS as nat),
    {
        let eps = self.0[0].eps();
        let t = self.0.len();
        let mut inputs: Vec<Matrix<T>> = Vec::new();
        let mut i: usize = 0;
        while i < t
            invariant
                i <= t,
                t == self.0@.len(),
                inputs@.len() == i,
                forall|k: int|
                    0 <= k < i ==> (#[trigger] inputs@[k])@ == input_rows(self.0@[k].0@)
                        && inputs@[k].cols() == NVARS,
            decreases t - i,
        {
            let at = MultipleReservoirInput(copy_inputs(&self.0[i].0));
            inputs.push(at.into_matrix());
            i += 1;
        }
        assert(crate::repr::matrices_view(inputs@) =~= trajectory_rows(trajectory_view(self.0@)));
        (eps, t, inputs)
    }

    /// The standardized inputs of a batch of flight logs, instant by
    /// instant. The first log sets the number of instants; no log may be
    /// shorter.
    pub fn from_flight_logs<O: ScalarOps<T>>(
        flight_logs: &Vec<FlightLog<T>>,
        ops: &O,
    ) -> (traj: Self)
        requires
            flight_logs@.len() > 0,
            logs_cover(flight_logs@, flight_logs@[0].steps@.len()),
            scalar_ops_ok(*ops),
        ensures
            trajectory_view(traj.0@) == trajectory_inputs(
                *ops,
                flight_logs@,
                flight_logs@[0].steps@.len(),
            ),
    {
        let total_t = flight_logs[0].steps.len();
        let ghost expected = trajectory_inputs(*ops, flight_logs@, total_t as nat);
        let mut inputs: Vec<MultipleReservoirInput<T>> = Vec::new();
        let mut t: usize = 0;
        while t < total_t
            invariant
                t <= total_t,
                total_t == flight_logs@[0].steps@.len(),
                flight_logs@.len() > 0,
                logs_cover(flight_logs@, total_t as nat),
                scalar_ops_ok(*ops),
                expected == trajectory_inputs(*ops, flight_logs@, total_t as nat),
                inputs@.len() == t,
                forall|s: int| 0 <= s < t ==> (#[trigger] inputs@[s]).0@ == expected[s],
            decreases total_t - t,
        {
            let mut snapshots_at_t: Vec<SnapShot<T>> = Vec::new();
            let mut ep: usize = 0;
            while ep < flight_logs.len()
                invariant
                    ep <= flight_logs@.len(),
                    t < total_t,
                    logs_cover(flight_logs@, total_t as nat),
                    snapshots_at_t@.len() == ep,
                    forall|e: int|
                        0 <= e < ep ==> snapshots_at_t@[e] == flight_logs@[e].steps@[t as int],
                decreases flight_logs@.len() - ep,
            {
                assert(flight_logs@[ep as int].steps@.len() >= total_t);
                snapshots_at_t.push(flight_logs[ep].steps[t]);
                ep += 1;
            }
            let at = MultipleReservoirInput::from_snapshots(&snapshots_at_t, ops);
            assert(at.0@ =~= expected[t as int]);
            inputs.push(at);
            t += 1;
        }
        assert(trajectory_view(inputs@) =~= expected);
        MultipleReservoirInputTrajectory(inputs)
    }
}

/// A copy of a sequence of inputs.
pub fn copy_inputs<T: Copy>(inputs: &Vec<ReservoirInput<T>>) -> (out: Vec<ReservoirInput<T>>)
    ensures
        out@ == inputs@,
{
    let mut out: Vec<ReservoirInput<T>> = Vec::new();
    let mut i: usize = 0;
    while i < inputs.len()
        invariant
            i <= inputs@.len(),
            out@ == inputs@.take(i as int),
        decreases inputs@.len() - i,
    {
        out.push(inputs[i]);
        assert(inputs@.take(i + 1) =~= inputs@.take(i as int).push(inputs@[i as int]));
        i += 1;
    }
    assert(inputs@.take(inputs@.len() as int) =~= inputs@);
    out
}

} // verus!
