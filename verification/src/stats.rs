//! What a spiking reservoir did over a run, in numbers.

use crate::izhikevich::IzhikevichHarness;
use crate::scalar::{
    count_of, difference, greater, one_of, product, quotient, root_of, scalar_ops_ok, sum,
    zero_of, ScalarOps,
};
use vstd::prelude::*;

verus! {

/// How often and how evenly the neurons of a reservoir fired.
#[derive(Debug)]
pub struct ActivityStats<T> {
    /// The number of micro-steps.
    pub t_steps: usize,
    /// The simulated time in seconds.
    pub dt_secs: T,
    /// The number of spikes.
    pub total_spikes: usize,
    /// Spikes per neuron and second.
    pub rate_hz: T,
    /// The mean number of spikes in a micro-step.
    pub mean: T,
    /// The standard deviation of the number of spikes in a micro-step.
    pub std: T,
    /// The standard deviation as a share of the mean.
    pub cv: T,
    /// The number of spikes above which a micro-step counts as a burst.
    pub threshold: T,
    /// The number of micro-steps that are bursts.
    pub burst_steps: usize,
    /// The share of micro-steps that are bursts.
    pub burst_frac: T,
    /// The share of micro-steps without a spike.
    pub silent_frac: T,
}

/// The sum of the first `k` of `counts`.
pub open spec fn spike_total(counts: Seq<usize>, k: nat) -> nat
    decreases k,
{
    if k == 0 {
        0
    } else {
        spike_total(counts, (k - 1) as nat) + counts[k - 1] as nat
    }
}

/// The sum of the squared differences of the first `k` of `counts` from
/// `mean`, added up in their order from zero.
pub open spec fn squared_deviations<T, O: ScalarOps<T>>(ops: O, counts: Seq<usize>, mean: T, k: nat)
    -> T
    decreases k,
{
    if k == 0 {
        zero_of(ops)
    } else {
        let d = difference(ops, count_of(ops, counts[k - 1]), mean);
        sum(ops, squared_deviations(ops, counts, mean, (k - 1) as nat), product(ops, d, d))
    }
}

/// The number of the first `k` of `counts` that are greater than
/// `threshold`.
pub open spec fn bursts<T, O: ScalarOps<T>>(ops: O, counts: Seq<usize>, threshold: T, k: nat)
    -> nat
    decreases k,
{
    if k == 0 {
        0
    } else {
        bursts(ops, counts, threshold, (k - 1) as nat) + if greater(
            ops,
            count_of(ops, counts[k - 1]),
            threshold,
        ) {
            1nat
        } else {
            0nat
        }
    }
}

/// The number of the first `k` of `counts` that are zero.
pub open spec fn silent(counts: Seq<usize>, k: nat) -> nat
    decreases k,
{
    if k == 0 {
        0
    } else {
        silent(counts, (k - 1) as nat) + if counts[k - 1] == 0 {
            1nat
        } else {
            0nat
        }
    }
}

/// A level below which a mean or a deviation counts as none: one in a
/// million millions.
pub open spec fn negligible<T, O: ScalarOps<T>>(ops: O) -> T {
    quotient(ops, one_of(ops), product(ops, count_of(ops, 1_000_000), count_of(ops, 1_000_000)))
}

/// A time of `nanos` nanoseconds in seconds: the whole seconds plus the
/// rest over a thousand millions.
pub open spec fn seconds<T, O: ScalarOps<T>>(ops: O, nanos: nat) -> T {
    sum(
        ops,
        count_of(ops, (nanos / 1_000_000_000) as usize),
        quotient(
            ops,
            count_of(ops, (nanos % 1_000_000_000) as usize),
            count_of(ops, 1_000_000_000),
        ),
    )
}

/// The statistics of the spike counts `counts` of a reservoir of
/// `neuron_count` neurons over `total_nanos` nanoseconds.
///
/// The mean and the deviation are those of the spikes per micro-step. A
/// micro-step is a burst where it has more spikes than the mean plus two
/// deviations, or than the mean plus one where there is no deviation to
/// speak of.
pub open spec fn stats_spec<T, O: ScalarOps<T>>(
    ops: O,
    counts: Seq<usize>,
    neuron_count: usize,
    total_nanos: nat,
) -> ActivityStats<T> {
    let t_steps = counts.len();
    let steps = count_of(ops, t_steps as usize);
    let total_spikes = spike_total(counts, t_steps);
    let spikes = count_of(ops, total_spikes as usize);
    let mean = quotient(ops, spikes, steps);
    let var = quotient(ops, squared_deviations(ops, counts, mean, t_steps), steps);
    let std = root_of(ops, var);
    let cv = if greater(ops, mean, negligible(ops)) {
        quotient(ops, std, mean)
    } else {
        zero_of(ops)
    };
    let threshold = if greater(ops, std, negligible(ops)) {
        sum(ops, mean, product(ops, count_of(ops, 2), std))
    } else {
        sum(ops, mean, one_of(ops))
    };
    let burst_steps = bursts(ops, counts, threshold, t_steps);
    let dt_secs = seconds(ops, total_nanos);
    ActivityStats {
        t_steps: t_steps as usize,
        dt_secs,
        total_spikes: total_spikes as usize,
        rate_hz: quotient(ops, spikes, product(ops, count_of(ops, neuron_count), dt_secs)),
        mean,
        std,
        cv,
        threshold,
        burst_steps: burst_steps as usize,
        burst_frac: quotient(ops, count_of(ops, burst_steps as usize), steps),
        silent_frac: quotient(ops, count_of(ops, silent(counts, t_steps) as usize), steps),
    }
}

/// The number of bursts among the first counts is at most their number.
pub proof fn bursts_bounded<T, O: ScalarOps<T>>(ops: O, counts: Seq<usize>, threshold: T, k: nat)
    ensures
        bursts(ops, counts, threshold, k) <= k,
    decreases k,
{
    if k > 0 {
        bursts_bounded(ops, counts, threshold, (k - 1) as nat);
    }
}

/// The number of silent micro-steps among the first is at most their
/// number.
pub proof fn silent_bounded(counts: Seq<usize>, k: nat)
    ensures
        silent(counts, k) <= k,
    decreases k,
{
    if k > 0 {
        silent_bounded(counts, (k - 1) as nat);
    }
}

/// The sum of the first counts grows with their number.
pub proof fn spike_total_grows(counts: Seq<usize>, j: nat, k: nat)
    requires
        j <= k,
    ensures
        spike_total(counts, j) <= spike_total(counts, k),
    decreases k - j,
{
    if j < k {
        spike_total_grows(counts, j, (k - 1) as nat);
    }
}

/// The statistics of the spike counts `counts` of a reservoir of
/// `neuron_count` neurons over `total_nanos` nanoseconds; `None` without
/// micro-steps, or where the spikes or the seconds are too many to count.
pub fn activity_of<T: Copy, O: ScalarOps<T>>(
    counts: &Vec<usize>,
    neuron_count: usize,
    total_nanos: u128,
    ops: &O,
) -> (r: Option<ActivityStats<T>>)
    requires
        scalar_ops_ok(*ops),
    ensures
        r is Some <==> counts@.len() > 0 && spike_total(counts@, counts@.len()) <= usize::MAX
            && total_nanos / 1_000_000_000 <= usize::MAX,
        r matches Some(stats) ==> stats == stats_spec(
            *ops,
            counts@,
            neuron_count,
            total_nanos as nat,
        ),
{
    let t_steps = counts.len();
    if t_steps == 0 {
        return None;
    }
    let whole = total_nanos / 1_000_000_000;
    if whole > usize::MAX as u128 {
        return None;
    }
    let mut total_spikes: usize = 0;
    let mut silent_steps: usize = 0;
    let mut t: usize = 0;
    while t < t_steps
        invariant
            t <= t_steps,
            t_steps == counts@.len(),
            total_spikes == spike_total(counts@, t as nat),
            silent_steps == silent(counts@, t as nat),
            silent_steps <= t,
        decreases t_steps - t,
    {
        total_spikes = match total_spikes.checked_add(counts[t]) {
            Some(total) => total,
            None => {
                proof {
                    spike_total_grows(counts@, (t + 1) as nat, t_steps as nat);
                }
                return None;
            },
        };
        if counts[t] == 0 {
            silent_steps += 1;
        }
        t += 1;
    }
    let steps = ops.from_count(t_steps);
    let spikes = ops.from_count(total_spikes);
    let mean = ops.divide(spikes, steps);
    let mut deviations = ops.zero();
    let mut t: usize = 0;
    while t < t_steps
        invariant
            t <= t_steps,
            t_steps == counts@.len(),
            scalar_ops_ok(*ops),
            deviations == squared_deviations(*ops, counts@, mean, t as nat),
        decreases t_steps - t,
    {
        let d = ops.minus(ops.from_count(counts[t]), mean);
        deviations = ops.plus(deviations, ops.times(d, d));
        t += 1;
    }
    let var = ops.divide(deviations, steps);
    let std = ops.square_root(var);
    let tiny = ops.divide(
        ops.one(),
        ops.times(ops.from_count(1_000_000), ops.from_count(1_000_000)),
    );
    let cv = if ops.exceeds(mean, tiny) {
        ops.divide(std, mean)
    } else {
        ops.zero()
    };
    let threshold = if ops.exceeds(std, tiny) {
        ops.plus(mean, ops.times(ops.from_count(2), std))
    } else {
        ops.plus(mean, ops.one())
    };
    let mut burst_steps: usize = 0;
    let mut t: usize = 0;
    while t < t_steps
        invariant
            t <= t_steps,
            t_steps == counts@.len(),
            scalar_ops_ok(*ops),
            burst_steps == bursts(*ops, counts@, threshold, t as nat),
            burst_steps <= t,
        decreases t_steps - t,
    {
        if ops.exceeds(ops.from_count(counts[t]), threshold) {
            burst_steps += 1;
        }
        t += 1;
    }
    let rest = total_nanos % 1_000_000_000;
    let dt_secs = ops.plus(
        ops.from_count(whole as usize),
        ops.divide(ops.from_count(rest as usize), ops.from_count(1_000_000_000)),
    );
    Some(
        ActivityStats {
            t_steps,
            dt_secs,
            total_spikes,
            rate_hz: ops.divide(spikes, ops.times(ops.from_count(neuron_count), dt_secs)),
            mean,
            std,
            cv,
            threshold,
            burst_steps,
            burst_frac: ops.divide(ops.from_count(burst_steps), steps),
            silent_frac: ops.divide(ops.from_count(silent_steps), steps),
        },
    )
}

/// The statistics of what the reservoir of a harness did so far.
pub fn activity<T: Copy, O: ScalarOps<T>>(harness: &IzhikevichHarness<T>, ops: &O) -> (r: Option<
    ActivityStats<T>,
>)
    requires
        scalar_ops_ok(*ops),
    ensures
        r == activity_outcome(*ops, *harness),
{
    let counts = harness.spike_counts();
    activity_of(&counts, harness.reservoir().neuron_count(), harness.total_time_nanos(), ops)
}

/// The spike counts of the micro-steps of a harness.
pub open spec fn harness_counts<T>(harness: IzhikevichHarness<T>) -> Seq<usize> {
    Seq::new(harness.firing_log().len(), |t: int| harness.firing_log()[t].len() as usize)
}

/// What `activity` returns for a harness: nothing without micro-steps or
/// where the spikes or the seconds are too many to count, else the
/// statistics of its spike counts.
pub open spec fn activity_outcome<T, O: ScalarOps<T>>(ops: O, harness: IzhikevichHarness<T>)
    -> Option<ActivityStats<T>> {
    let counts = harness_counts(harness);
    if counts.len() > 0 && spike_total(counts, counts.len()) <= usize::MAX
        && harness.total_nanos() / 1_000_000_000 <= usize::MAX {
        Some(
            stats_spec(
                ops,
                counts,
                harness.reservoir_model().n() as usize,
                harness.total_nanos(),
            ),
        )
    } else {
        None
    }
}

} // verus!
