//! Judging a controller by whether it brings the gyro rates of a simulated
//! drone to the rates that the sticks ask for.

use crate::bf_rates::{stick_inputs_to_targets, targets_spec, Rates};
use crate::flight::Channels;
use crate::linalg::{below_of, draws_ok, stream_of, unit_of, SeededDraws};
use crate::loggers::{last_n_close, MemoryLogger};
use crate::scalar::{
    count_of, greater, negated, one_of, quotient, scalar_ops_ok, zero_of, ScalarOps,
};
use vstd::prelude::*;

verus! {

/// Stick positions and the rates that they ask for.
#[derive(Debug)]
pub struct StickAndTarget<T> {
    pub stick_input: Channels<T>,
    pub target: Rates<T>,
}

/// A named list of stick positions with their targets.
#[derive(Debug)]
pub struct AngularRateStabilizationDb<T> {
    pub db_name: String,
    pub sticks_and_targets: Vec<StickAndTarget<T>>,
}

/// The number of snapshots that have to be close to the target in a row.
pub const STABLE_SNAPSHOTS: usize = 100;

/// The time after which a trial is given up, in nanoseconds: two seconds.
pub const TRIAL_NANOS: u128 = 2_000_000_000;

/// The number of entries of the list that `dummy_stabilization_db` makes.
pub const DUMMY_ENTRIES: usize = 20;

/// The seed of the draws that `dummy_stabilization_db` makes its sticks
/// from.
pub const DUMMY_SEED: u64 = 42;

/// How close a gyro rate has to be to its target: closer than two.
pub open spec fn tolerance<T, O: ScalarOps<T>>(ops: O) -> T {
    count_of(ops, 2)
}

/// Whether the drone is stable: the last hundred snapshots exist and the
/// gyro rates of each are closer to `target` than two.
pub fn stabilized<T: Copy, O: ScalarOps<T>>(logger: &MemoryLogger<T>, target: &Rates<T>, ops: &O) -> (r:
    bool)
    requires
        scalar_ops_ok(*ops),
    ensures
        r == last_n_close(
            *ops,
            logger.snapshots@,
            STABLE_SNAPSHOTS as nat,
            target.yaw,
            target.pitch,
            target.roll,
            tolerance(*ops),
        ),
{
    logger.last_n_close_to_angular(
        STABLE_SNAPSHOTS,
        target.yaw,
        target.pitch,
        target.roll,
        ops.from_count(2),
        ops,
    )
}

/// The time of a trial after its next tick, or `None` when the trial is
/// over: a trial that has run for `elapsed` nanoseconds goes on by one tick
/// of `controller_delta` nanoseconds while `elapsed` is less than two
/// seconds.
pub fn next_trial_time(elapsed: u128, controller_delta: u128) -> (next: Option<u128>)
    requires
        elapsed + controller_delta <= u128::MAX,
    ensures
        next == if elapsed < TRIAL_NANOS {
            Some((elapsed + controller_delta) as u128)
        } else {
            None
        },
{
    if elapsed < TRIAL_NANOS {
        Some(elapsed + controller_delta)
    } else {
        None
    }
}

/// The share of trials that succeeded.
pub fn stabilization_rate<T: Copy, O: ScalarOps<T>>(successes: usize, total_evals: usize, ops: &O) -> (rate:
    T)
    requires
        scalar_ops_ok(*ops),
    ensures
        rate == quotient(*ops, count_of(*ops, successes), count_of(*ops, total_evals)),
{
    ops.divide(ops.from_count(successes), ops.from_count(total_evals))
}

/// The stick positions `stick_input` with the rates that they ask for.
pub fn make_entry<T: Copy, O: ScalarOps<T>>(stick_input: Channels<T>, ops: &O) -> (entry:
    StickAndTarget<T>)
    requires
        scalar_ops_ok(*ops),
    ensures
        entry.stick_input == stick_input,
        entry.target == targets_spec(*ops, stick_input),
{
    let target = stick_inputs_to_targets(&stick_input, ops);
    StickAndTarget { stick_input, target }
}

/// Three tenths: the bound of the small stick positions.
pub open spec fn small_bound<T, O: ScalarOps<T>>(ops: O) -> T {
    quotient(ops, count_of(ops, 3), count_of(ops, 10))
}

/// Seven tenths: the chance that a stick position comes from the small
/// range.
pub open spec fn small_share<T, O: ScalarOps<T>>(ops: O) -> T {
    quotient(ops, count_of(ops, 7), count_of(ops, 10))
}

/// The stick position that the generator `stream` gives, and the generator
/// after it: a draw from the small range, between minus three tenths and
/// three tenths, where seven tenths are greater than a draw between zero and
/// one, else a draw from the full range, between minus one and one.
pub open spec fn stick_of<T, O: ScalarOps<T> + SeededDraws<T>>(ops: O, stream: O::Stream) -> (
    T,
    O::Stream,
) {
    let unit = unit_of(ops, stream);
    if greater(ops, small_share(ops), unit.0) {
        below_of(ops, unit.1, negated(ops, small_bound(ops)), small_bound(ops))
    } else {
        below_of(ops, unit.1, negated(ops, one_of(ops)), one_of(ops))
    }
}

/// The stick position that the generator `stream` gives, and the generator
/// after it.
pub fn sample_stick<T: Copy, O: ScalarOps<T> + SeededDraws<T>>(stream: O::Stream, ops: &O) -> (r:
    (T, O::Stream))
    requires
        scalar_ops_ok(*ops),
        draws_ok(*ops),
    ensures
        r == stick_of(*ops, stream),
{
    let share = ops.divide(ops.from_count(7), ops.from_count(10));
    let (unit, after_unit) = ops.next_unit(stream);
    if ops.exceeds(share, unit) {
        let bound = ops.divide(ops.from_count(3), ops.from_count(10));
        ops.next_below(after_unit, ops.negate(bound), bound)
    } else {
        let bound = ops.one();
        ops.next_below(after_unit, ops.negate(bound), bound)
    }
}

/// The entry that the generator `stream` gives, and the generator after
/// it: throttle zero; roll, pitch and yaw drawn in this order; and the rates
/// that these sticks ask for.
pub open spec fn entry_of<T, O: ScalarOps<T> + SeededDraws<T>>(ops: O, stream: O::Stream) -> (
    StickAndTarget<T>,
    O::Stream,
) {
    let roll = stick_of(ops, stream);
    let pitch = stick_of(ops, roll.1);
    let yaw = stick_of(ops, pitch.1);
    let stick_input = Channels {
        throttle: zero_of(ops),
        roll: roll.0,
        pitch: pitch.0,
        yaw: yaw.0,
    };
    (StickAndTarget { stick_input, target: targets_spec(ops, stick_input) }, yaw.1)
}

/// The generator after the first `k` entries were drawn from the generator
/// `stream`.
pub open spec fn entries_stream<T, O: ScalarOps<T> + SeededDraws<T>>(
    ops: O,
    stream: O::Stream,
    k: nat,
) -> O::Stream
    decreases k,
{
    if k == 0 {
        stream
    } else {
        entry_of(ops, entries_stream(ops, stream, (k - 1) as nat)).1
    }
}

/// The first `k` entries that the generator `stream` gives.
pub open spec fn entries_of<T, O: ScalarOps<T> + SeededDraws<T>>(ops: O, stream: O::Stream, k: nat)
    -> Seq<StickAndTarget<T>> {
    Seq::new(k, |i: int| entry_of(ops, entries_stream(ops, stream, i as nat)).0)
}

/// A list of `count` random stick positions with their targets, drawn from
/// the generator `stream`, under the name `test_db`.
pub fn stabilization_db_from_stream<T: Copy, O: ScalarOps<T> + SeededDraws<T>>(
    count: usize,
    stream: O::Stream,
    ops: &O,
) -> (db: AngularRateStabilizationDb<T>)
    requires
        scalar_ops_ok(*ops),
        draws_ok(*ops),
    ensures
        db.db_name@ == "test_db"@,
        db.sticks_and_targets@ == entries_of(*ops, stream, count as nat),
{
    let throttle = ops.zero();
    let mut sticks_and_targets: Vec<StickAndTarget<T>> = Vec::new();
    let mut current = stream;
    let mut i: usize = 0;
    while i < count
        invariant
            i <= count,
            scalar_ops_ok(*ops),
            draws_ok(*ops),
            throttle == zero_of(*ops),
            current == entries_stream(*ops, stream, i as nat),
            sticks_and_targets@.len() == i,
            forall|k: int|
                0 <= k < i ==> sticks_and_targets@[k] == entry_of(
                    *ops,
                    entries_stream(*ops, stream, k as nat),
                ).0,
        decreases count - i,
    {
        let (roll, after_roll) = sample_stick(current, ops);
        let (pitch, after_pitch) = sample_stick(after_roll, ops);
        let (yaw, after_yaw) = sample_stick(after_pitch, ops);
        let stick_input = Channels { throttle, roll, pitch, yaw };
        sticks_and_targets.push(make_entry(stick_input, ops));
        current = after_yaw;
        i += 1;
    }
    assert(sticks_and_targets@ =~= entries_of(*ops, stream, count as nat));
    let db_name = String::from_str("test_db");
    AngularRateStabilizationDb { db_name, sticks_and_targets }
}

/// A list of twenty random stick positions with their targets, under the
/// name `test_db`: the one that the generator of a fixed seed gives.
pub fn dummy_stabilization_db<T: Copy, O: ScalarOps<T> + SeededDraws<T>>(ops: &O) -> (db:
    AngularRateStabilizationDb<T>)
    requires
        scalar_ops_ok(*ops),
        draws_ok(*ops),
    ensures
        db.db_name@ == "test_db"@,
        db.sticks_and_targets@ == entries_of(
            *ops,
            stream_of(*ops, DUMMY_SEED),
            DUMMY_ENTRIES as nat,
        ),
{
    let stream = ops.seeded(DUMMY_SEED);
    stabilization_db_from_stream(DUMMY_ENTRIES, stream, ops)
}

} // verus!
