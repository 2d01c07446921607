//! Helpers of the evaluation: stick positions to evaluate a controller at,
//! spectral radii to sweep over, and the files of the results.

use crate::flight::Channels;
use crate::scalar::{
    count_of, difference, negated, one_of, product, quotient, scalar_ops_ok, sum, ScalarOps,
};
use crate::text::{has_prefix, joined, starts_with};
use vstd::prelude::*;

verus! {

/// The path `name` below the directory `base`: `name` itself where it
/// begins at the root, else `base` and `name` with one separator between
/// them.
pub open spec fn path_below(base: Seq<char>, name: Seq<char>) -> Seq<char> {
    if has_prefix(name, seq!['/']) {
        name
    } else if base.len() == 0 || base.last() == '/' {
        base + name
    } else {
        base + seq!['/'] + name
    }
}

/// The file `filename` of the results below the directory `base`.
pub fn results_path(base: &str, filename: &str) -> (path: String)
    ensures
        path@ == path_below(base@, filename@),
{
    proof {
        reveal_strlit("/");
        reveal_strlit("");
        assert("/"@ =~= seq!['/']);
        assert(""@ =~= Seq::<char>::empty());
    }
    if starts_with(filename, "/") {
        let path = joined(filename, "");
        assert(path@ =~= filename@);
        return path;
    }
    let n = base.unicode_len();
    if n == 0 || base.get_char(n - 1) == '/' {
        joined(base, filename)
    } else {
        let path = joined(base, "/").concat(filename);
        assert(path@ =~= base@ + seq!['/'] + filename@);
        path
    }
}

/// The stick positions with yaw `y`, pitch `p` and each of `values` as roll.
pub open spec fn roll_line<T>(values: Seq<T>, throttle: T, y: T, p: T) -> Seq<Channels<T>> {
    Seq::new(values.len(), |r: int| Channels { throttle, roll: values[r], pitch: p, yaw: y })
}

/// The stick positions with yaw `y` and each pair of `values` as pitch and
/// roll, pitch by pitch.
pub open spec fn pitch_plane<T>(values: Seq<T>, throttle: T, y: T) -> Seq<Channels<T>> {
    Seq::new(values.len(), |p: int| roll_line(values, throttle, y, values[p])).flatten()
}

/// All stick positions with yaw, pitch and roll from `values`: yaw by yaw,
/// within a yaw pitch by pitch, within a pitch roll by roll.
pub open spec fn channel_grid<T>(values: Seq<T>, throttle: T) -> Seq<Channels<T>> {
    Seq::new(values.len(), |y: int| pitch_plane(values, throttle, values[y])).flatten()
}

/// `steps` values from `start` in equal steps: value `i` is
/// `start + step * i`.
pub open spec fn stepped<T, O: ScalarOps<T>>(ops: O, start: T, step: T, steps: nat) -> Seq<T> {
    Seq::new(steps, |i: int| sum(ops, start, product(ops, step, count_of(ops, i as usize))))
}

/// `steps` values from `start` to `end` in equal steps of
/// `(end - start) / (steps - 1)`.
pub open spec fn linspace<T, O: ScalarOps<T>>(ops: O, start: T, end: T, steps: nat) -> Seq<T> {
    stepped(
        ops,
        start,
        quotient(ops, difference(ops, end, start), count_of(ops, (steps - 1) as usize)),
        steps,
    )
}

/// The five positions of a stick that a controller is evaluated at: from
/// minus one in steps of `2 / (5 - 1)`.
pub open spec fn command_values<T, O: ScalarOps<T>>(ops: O) -> Seq<T> {
    stepped(
        ops,
        negated(ops, one_of(ops)),
        quotient(ops, count_of(ops, 2), difference(ops, count_of(ops, 5), one_of(ops))),
        5,
    )
}

/// `steps` values from `start` in steps of `step`.
pub fn values_in_steps<T: Copy, O: ScalarOps<T>>(start: T, step: T, steps: usize, ops: &O) -> (out:
    Vec<T>)
    requires
        scalar_ops_ok(*ops),
    ensures
        out@ == stepped(*ops, start, step, steps as nat),
{
    let mut out: Vec<T> = Vec::new();
    let mut i: usize = 0;
    while i < steps
        invariant
            i <= steps,
            scalar_ops_ok(*ops),
            out@.len() == i,
            forall|k: int|
                0 <= k < i ==> out@[k] == sum(
                    *ops,
                    start,
                    product(*ops, step, count_of(*ops, k as usize)),
                ),
        decreases steps - i,
    {
        out.push(ops.plus(start, ops.times(step, ops.from_count(i))));
        i += 1;
    }
    assert(out@ =~= stepped(*ops, start, step, steps as nat));
    out
}

/// `steps` spectral radii from `start` to `end`, both included, in equal
/// steps.
pub fn spectral_radius_linspace_inclusive<T: Copy, O: ScalarOps<T>>(
    start: T,
    end: T,
    steps: usize,
    ops: &O,
) -> (out: Vec<T>)
    requires
        steps >= 2,
        scalar_ops_ok(*ops),
    ensures
        out@ == linspace(*ops, start, end, steps as nat),
{
    let step = ops.divide(ops.minus(end, start), ops.from_count(steps - 1));
    values_in_steps(start, step, steps, ops)
}

/// The stick positions that a controller is evaluated at: yaw, pitch and
/// roll each run through minus one, minus a half, zero, a half and one, at
/// the throttle minus one.
pub fn generate_channel_commands<T: Copy, O: ScalarOps<T>>(ops: &O) -> (out: Vec<Channels<T>>)
    requires
        scalar_ops_ok(*ops),
    ensures
        out@ == channel_grid(command_values(*ops), negated(*ops, one_of(*ops))),
{
    let number_of_steps: usize = 5;
    let step_size = ops.divide(
        ops.from_count(2),
        ops.minus(ops.from_count(number_of_steps), ops.one()),
    );
    let low = ops.negate(ops.one());
    let controller_values = values_in_steps(low, step_size, number_of_steps, ops);
    channel_commands_over(&controller_values, low)
}

/// The grid of stick positions whose yaw, pitch and roll each run through
/// `controller_values`, at the throttle `throttle`.
pub fn channel_commands_over<T: Copy>(controller_values: &Vec<T>, throttle: T) -> (out: Vec<
    Channels<T>,
>)
    ensures
        out@ == channel_grid(controller_values@, throttle),
{
    let n = controller_values.len();
    let ghost values = controller_values@;
    let ghost planes = Seq::new(values.len(), |y: int| pitch_plane(values, throttle, values[y]));
    let mut all_channel_targets: Vec<Channels<T>> = Vec::new();
    let mut y: usize = 0;
    assert(planes.take(0) =~= Seq::<Seq<Channels<T>>>::empty());
    while y < n
        invariant
            y <= n,
            n == values.len(),
            values == controller_values@,
            planes == Seq::new(values.len(), |y: int| pitch_plane(values, throttle, values[y])),
            all_channel_targets@ == planes.take(y as int).flatten(),
        decreases n - y,
    {
        let yaw = controller_values[y];
        let ghost before_plane = all_channel_targets@;
        let ghost lines = Seq::new(values.len(), |p: int| roll_line(values, throttle, yaw, values[p]));
        let mut p: usize = 0;
        assert(lines.take(0) =~= Seq::<Seq<Channels<T>>>::empty());
        while p < n
            invariant
                p <= n,
                n == values.len(),
                values == controller_values@,
                lines == Seq::new(values.len(), |p: int| roll_line(values, throttle, yaw, values[p])),
                all_channel_targets@ == before_plane + lines.take(p as int).flatten(),
            decreases n - p,
        {
            let pitch = controller_values[p];
            let ghost before_line = all_channel_targets@;
            let ghost line = roll_line(values, throttle, yaw, pitch);
            let mut r: usize = 0;
            while r < n
                invariant
                    r <= n,
                    n == values.len(),
                    values == controller_values@,
                    line == roll_line(values, throttle, yaw, pitch),
                    all_channel_targets@ == before_line + line.take(r as int),
                decreases n - r,
            {
                let roll = controller_values[r];
                all_channel_targets.push(Channels { throttle, roll, pitch, yaw });
                proof {
                    assert(line.take(r + 1) =~= line.take(r as int).push(line[r as int]));
                    assert(all_channel_targets@ =~= before_line + line.take(r + 1));
                }
                r += 1;
            }
            proof {
                assert(line.take(n as int) =~= line);
                assert(lines.take(p + 1) =~= lines.take(p as int).push(lines[p as int]));
                lines.take(p as int).lemma_flatten_push(lines[p as int]);
                assert(all_channel_targets@ =~= before_plane + lines.take(p + 1).flatten());
            }
            p += 1;
        }
        proof {
            assert(lines.take(n as int) =~= lines);
            assert(planes.take(y + 1) =~= planes.take(y as int).push(planes[y as int]));
            planes.take(y as int).lemma_flatten_push(planes[y as int]);
        }
        y += 1;
    }
    assert(planes.take(n as int) =~= planes);
    all_channel_targets
}

} // verus!
