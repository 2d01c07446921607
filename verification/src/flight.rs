//! Flight snapshots and flight logs.

use crate::time::as_nanos;
use crate::time::duration_nanos;
use std::time::Duration;
use vstd::prelude::*;

verus! {

/// The four stick channels of a remote control.
#[derive(Debug)]
pub struct Channels<T> {
    pub throttle: T,
    pub roll: T,
    pub pitch: T,
    pub yaw: T,
}

/// What a controller is shown at one tick: battery, gyro rates and sticks.
#[derive(Debug)]
pub struct FlightControllerUpdate<T> {
    pub battery: T,
    pub angular_velocity: [T; 3],
    pub channels: Channels<T>,
}

/// A command to the four motors.
#[derive(Debug)]
pub struct MotorInput<T> {
    pub input: [T; 4],
}

impl<T: Copy> Clone for MotorInput<T> {
    fn clone(&self) -> (r: Self)
        ensures
            r == *self,
    {
        *self
    }
}

impl<T: Copy> Copy for MotorInput<T> {

}

/// One logged instant of a flight.
#[derive(Debug)]
pub struct SnapShot<T> {
    /// Time since the start of the flight, in nanoseconds.
    pub time_nanos: u128,
    pub battery: T,
    pub angular_velocity: [T; 3],
    pub channels: Channels<T>,
    pub motor_input: [T; 4],
}

impl<T: Copy> Clone for Channels<T> {
    fn clone(&self) -> (r: Self)
        ensures
            r == *self,
    {
        *self
    }
}

impl<T: Copy> Copy for Channels<T> {

}

impl<T: Copy> Clone for FlightControllerUpdate<T> {
    fn clone(&self) -> (r: Self)
        ensures
            r == *self,
    {
        *self
    }
}

impl<T: Copy> Copy for FlightControllerUpdate<T> {

}

impl<T: Copy> Clone for SnapShot<T> {
    fn clone(&self) -> (r: Self)
        ensures
            r == *self,
    {
        *self
    }
}

impl<T: Copy> Copy for SnapShot<T> {

}

impl<T: Copy> SnapShot<T> {
    /// What the controller was shown at this instant.
    pub fn update(&self) -> (u: FlightControllerUpdate<T>)
        ensures
            u.battery == self.battery,
            u.angular_velocity == self.angular_velocity,
            u.channels == self.channels,
    {
        FlightControllerUpdate {
            battery: self.battery,
            angular_velocity: self.angular_velocity,
            channels: self.channels,
        }
    }
}

/// The snapshots of `steps` from index `i` on that a downsampling keeps, when
/// the next snapshot is due at time `due`: a snapshot is kept when its time
/// has reached `due`, and the next is then due `interval` later.
pub open spec fn kept_from<T>(steps: Seq<SnapShot<T>>, interval: nat, i: nat, due: nat) -> Seq<
    SnapShot<T>,
>
    decreases steps.len() - i,
{
    if i >= steps.len() {
        Seq::empty()
    } else if steps[i as int].time_nanos >= due {
        seq![steps[i as int]] + kept_from(
            steps,
            interval,
            i + 1,
            steps[i as int].time_nanos as nat + interval,
        )
    } else {
        kept_from(steps, interval, i + 1, due)
    }
}

/// The snapshots that a downsampling to one per `interval` nanoseconds
/// keeps. The first snapshot always stays.
pub open spec fn downsampled<T>(steps: Seq<SnapShot<T>>, interval: nat) -> Seq<SnapShot<T>> {
    kept_from(steps, interval, 0, 0)
}

/// Downsamples a sequence of snapshots to one per `interval` nanoseconds.
pub fn downsample_steps<T: Copy>(steps: &Vec<SnapShot<T>>, interval: u128) -> (out: Vec<
    SnapShot<T>,
>)
    ensures
        out@ == downsampled(steps@, interval as nat),
{
    let mut out: Vec<SnapShot<T>> = Vec::new();
    // `None` once the due time lies beyond every time stamp.
    let mut due: Option<u128> = Some(0);
    let ghost mut due_spec: nat = 0;
    let mut i: usize = 0;
    while i < steps.len()
        invariant
            i <= steps@.len(),
            due matches Some(d) ==> d == due_spec,
            due is None ==> due_spec > u128::MAX,
            downsampled(steps@, interval as nat) == out@ + kept_from(
                steps@,
                interval as nat,
                i as nat,
                due_spec,
            ),
        decreases steps@.len() - i,
    {
        let step = steps[i];
        let keep = match due {
            Some(d) => step.time_nanos >= d,
            None => false,
        };
        if keep {
            let ghost rest = kept_from(
                steps@,
                interval as nat,
                (i + 1) as nat,
                step.time_nanos as nat + interval as nat,
            );
            assert(out@ + (seq![step] + rest) =~= out@.push(step) + rest);
            out.push(step);
            due = step.time_nanos.checked_add(interval);
            proof {
                due_spec = step.time_nanos as nat + interval as nat;
            }
        }
        i += 1;
    }
    assert(out@ + Seq::<SnapShot<T>>::empty() =~= out@);
    out
}

/// The recorded snapshots of one flight.
#[derive(Debug)]
pub struct FlightLog<T> {
    pub simulation_id: String,
    pub steps: Vec<SnapShot<T>>,
}

impl<T: Copy> FlightLog<T> {
    /// Thins the log out to one snapshot per `duration`.
    pub fn downsample(&mut self, duration: Duration)
        ensures
            final(self).simulation_id == old(self).simulation_id,
            final(self).steps@ == downsampled(old(self).steps@, duration_nanos(duration) as nat),
    {
        let interval = as_nanos(duration);
        self.steps = downsample_steps(&self.steps, interval);
    }

    /// A copy of the log.
    pub fn duplicate(&self) -> (log: Self)
        ensures
            log.simulation_id@ == self.simulation_id@,
            log.steps@ == self.steps@,
    {
        FlightLog { simulation_id: self.simulation_id.clone(), steps: copy_steps(&self.steps) }
    }
}

/// A copy of a sequence of snapshots.
pub fn copy_steps<T: Copy>(steps: &Vec<SnapShot<T>>) -> (out: Vec<SnapShot<T>>)
    ensures
        out@ == steps@,
{
    let mut out: Vec<SnapShot<T>> = Vec::new();
    let mut i: usize = 0;
    while i < steps.len()
        invariant
            i <= steps@.len(),
            out@ == steps@.take(i as int),
        decreases steps@.len() - i,
    {
        out.push(steps[i]);
        assert(steps@.take(i + 1) =~= steps@.take(i as int).push(steps@[i as int]));
        i += 1;
    }
    assert(steps@.take(steps@.len() as int) =~= steps@);
    out
}

/// The step sequences of a sequence of logs.
pub open spec fn logs_steps<T>(logs: Seq<FlightLog<T>>) -> Seq<Seq<SnapShot<T>>> {
    Seq::new(logs.len(), |i: int| logs[i].steps@)
}

/// The identifiers of a sequence of logs.
pub open spec fn logs_ids<T>(logs: Seq<FlightLog<T>>) -> Seq<Seq<char>> {
    Seq::new(logs.len(), |i: int| logs[i].simulation_id@)
}

/// `logs` with each log downsampled.
pub open spec fn downsampled_logs<T>(logs: Seq<FlightLog<T>>, interval: nat) -> Seq<
    Seq<SnapShot<T>>,
> {
    Seq::new(logs.len(), |i: int| downsampled(logs[i].steps@, interval))
}

} // verus!
