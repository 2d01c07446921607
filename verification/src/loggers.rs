//! Loggers: where the snapshots of a running simulation go.

use crate::flight::{copy_steps, FlightLog, SnapShot};
use crate::scalar::{
    count_of, difference, greater, magnitude_of, quotient, scalar_ops_ok, sum, zero_of, ScalarOps,
};
use crate::text::joined;
use vstd::prelude::*;

verus! {

/// Which logger a simulation writes to, with the log's identifier.
#[derive(Clone, Debug, PartialEq, Eq, Hash)]
pub enum LoggerType {
    File(String),
    Rerun(String),
    Empty,
}

impl Default for LoggerType {
    fn default() -> (r: Self)
        ensures
            r == LoggerType::Empty,
    {
        LoggerType::Empty
    }
}

/// Collects the snapshots of one simulation for a replay file.
pub struct FileLogger<T> {
    simulation_id: String,
    snapshots: Vec<SnapShot<T>>,
}

impl<T: Copy> FileLogger<T> {
    /// The identifier of the simulation.
    pub closed spec fn id(&self) -> Seq<char> {
        self.simulation_id@
    }

    /// The snapshots logged so far, oldest first.
    pub closed spec fn logged(&self) -> Seq<SnapShot<T>> {
        self.snapshots@
    }

    /// A logger without snapshots.
    pub fn new(simulation_id: String) -> (logger: Self)
        ensures
            logger.id() == simulation_id@,
            logger.logged() == Seq::<SnapShot<T>>::empty(),
    {
        FileLogger { simulation_id, snapshots: Vec::new() }
    }

    /// Appends a snapshot.
    pub fn log_time_stamp(&mut self, snapshot: SnapShot<T>)
        ensures
            final(self).id() == old(self).id(),
            final(self).logged() == old(self).logged().push(snapshot),
    {
        self.snapshots.push(snapshot);
    }

    /// The flight log to write out: nothing while no snapshot was logged,
    /// else all snapshots under the simulation's identifier. The logger keeps
    /// its snapshots.
    pub fn flush(&self) -> (log: Option<FlightLog<T>>)
        ensures
            log is Some <==> self.logged().len() > 0,
            log matches Some(l) ==> l.simulation_id@ == self.id() && l.steps@ == self.logged(),
    {
        if self.snapshots.len() == 0 {
            None
        } else {
            Some(
                FlightLog {
                    simulation_id: self.simulation_id.clone(),
                    steps: copy_steps(&self.snapshots),
                },
            )
        }
    }

    /// The file of the log, relative to the data directory.
    pub fn log_path(&self) -> (path: String)
        ensures
            path@ == "replays/"@ + self.id(),
    {
        joined("replays/", self.simulation_id.as_str())
    }
}

/// Keeps the snapshots of one simulation in memory.
#[derive(Debug)]
pub struct MemoryLogger<T> {
    pub simulation_id: String,
    pub snapshots: Vec<SnapShot<T>>,
}

/// Whether `rate` is closer to `goal` than `target`: the magnitude of their
/// difference is less than `target`.
pub open spec fn within_target<T, O: ScalarOps<T>>(ops: O, rate: T, goal: T, target: T) -> bool {
    greater(ops, target, magnitude_of(ops, difference(ops, rate, goal)))
}

/// Whether the gyro rates `rates`, read as pitch, yaw and roll, are each
/// closer to their goal than `target`.
pub open spec fn close_to_angular<T, O: ScalarOps<T>>(
    ops: O,
    rates: [T; 3],
    target_yaw: T,
    target_pitch: T,
    target_roll: T,
    target: T,
) -> bool {
    &&& within_target(ops, rates[0], target_pitch, target)
    &&& within_target(ops, rates[2], target_roll, target)
    &&& within_target(ops, rates[1], target_yaw, target)
}

/// The last `n` of `snapshots` exist and the gyro rates of each of them are
/// close to their goals.
pub open spec fn last_n_close<T, O: ScalarOps<T>>(
    ops: O,
    snapshots: Seq<SnapShot<T>>,
    n: nat,
    target_yaw: T,
    target_pitch: T,
    target_roll: T,
    target: T,
) -> bool {
    &&& n <= snapshots.len()
    &&& forall|i: int|
        snapshots.len() - n <= i < snapshots.len() ==> close_to_angular(
            ops,
            (#[trigger] snapshots[i]).angular_velocity,
            target_yaw,
            target_pitch,
            target_roll,
            target,
        )
}

/// The sum of the second gyro rate of the last `k` of `snapshots`, added up
/// from the newest backwards, starting at zero.
pub open spec fn yaw_sum<T, O: ScalarOps<T>>(ops: O, snapshots: Seq<SnapShot<T>>, k: nat) -> T
    decreases k,
{
    if k == 0 {
        zero_of(ops)
    } else {
        sum(
            ops,
            yaw_sum(ops, snapshots, (k - 1) as nat),
            snapshots[snapshots.len() - k].angular_velocity[1],
        )
    }
}

/// The number of snapshots that an average over the last `n` takes in: `n`,
/// or all where fewer were logged.
pub open spec fn taken(n: nat, logged: nat) -> nat {
    if n <= logged {
        n
    } else {
        logged
    }
}

impl<T: Copy> MemoryLogger<T> {
    /// A logger without snapshots.
    pub fn new(simulation_id: String) -> (logger: Self)
        ensures
            logger.simulation_id == simulation_id,
            logger.snapshots@ == Seq::<SnapShot<T>>::empty(),
    {
        MemoryLogger { simulation_id, snapshots: Vec::new() }
    }

    /// Appends a snapshot.
    pub fn log_time_stamp(&mut self, snapshot: SnapShot<T>)
        ensures
            final(self).simulation_id == old(self).simulation_id,
            final(self).snapshots@ == old(self).snapshots@.push(snapshot),
    {
        self.snapshots.push(snapshot);
    }

    /// Forgets all snapshots.
    pub fn flush(&mut self)
        ensures
            final(self).simulation_id == old(self).simulation_id,
            final(self).snapshots@ == Seq::<SnapShot<T>>::empty(),
    {
        self.snapshots.clear();
    }

    /// Whether at least `n` snapshots were logged and the gyro rates of each
    /// of the last `n` are closer to their goals than `target`.
    pub fn last_n_close_to_angular<O: ScalarOps<T>>(
        &self,
        n: usize,
        target_yaw: T,
        target_pitch: T,
        target_roll: T,
        target: T,
        ops: &O,
    ) -> (r: bool)
        requires
            scalar_ops_ok(*ops),
        ensures
            r == last_n_close(
                *ops,
                self.snapshots@,
                n as nat,
                target_yaw,
                target_pitch,
                target_roll,
                target,
            ),
    {
        let len = self.snapshots.len();
        if len < n {
            return false;
        }
        let mut i: usize = len;
        while i > len - n
            invariant
                len == self.snapshots@.len(),
                n <= len,
                len - n <= i <= len,
                scalar_ops_ok(*ops),
                forall|k: int|
                    i <= k < len ==> close_to_angular(
                        *ops,
                        (#[trigger] self.snapshots@[k]).angular_velocity,
                        target_yaw,
                        target_pitch,
                        target_roll,
                        target,
                    ),
            decreases i,
        {
            i -= 1;
            let rates = self.snapshots[i].angular_velocity;
            let pitch = rates[0];
            let yaw = rates[1];
            let roll = rates[2];
            let close = ops.exceeds(target, ops.magnitude(ops.minus(pitch, target_pitch)))
                && ops.exceeds(target, ops.magnitude(ops.minus(roll, target_roll)))
                && ops.exceeds(target, ops.magnitude(ops.minus(yaw, target_yaw)));
            if !close {
                return false;
            }
        }
        true
    }

    /// The sum of the second gyro rate of the last `n` snapshots (of all,
    /// where fewer were logged), divided by `n`.
    pub fn last_n_yaw_avg<O: ScalarOps<T>>(&self, n: usize, ops: &O) -> (avg: T)
        requires
            scalar_ops_ok(*ops),
        ensures
            avg == quotient(
                *ops,
                yaw_sum(*ops, self.snapshots@, taken(n as nat, self.snapshots@.len())),
                count_of(*ops, n),
            ),
    {
        let len = self.snapshots.len();
        let count = if n <= len {
            n
        } else {
            len
        };
        let mut yaw_total = ops.zero();
        let mut k: usize = 0;
        while k < count
            invariant
                k <= count,
                count <= len,
                len == self.snapshots@.len(),
                scalar_ops_ok(*ops),
                yaw_total == yaw_sum(*ops, self.snapshots@, k as nat),
            decreases count - k,
        {
            k += 1;
            yaw_total = ops.plus(yaw_total, self.snapshots[len - k].angular_velocity[1]);
        }
        ops.divide(yaw_total, ops.from_count(n))
    }
}

} // verus!
