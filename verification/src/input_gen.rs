//! Stick positions for simulated flights, one set per millisecond.

use crate::coin::{bernoulli_from_ratio, bernoulli_sample, thread_generator};
use crate::flight::Channels;
use crate::matrix::copy_of;
use crate::scalar::{
    count_of, limited, negated, not_above, one_of, quotient, scalar_ops_ok, sum, zero_of,
    ScalarOps,
};
use vstd::prelude::*;

verus! {

/// Position and velocity of a stick that wanders.
pub ghost struct Walker<T> {
    pub pos: T,
    pub vel: T,
}

/// The change of the velocity in a millisecond: one in ten thousand.
pub open spec fn walk_step<T, O: ScalarOps<T>>(ops: O) -> T {
    quotient(ops, one_of(ops), count_of(ops, 10000))
}

/// Whether `pos` lies between minus one and one, both included.
pub open spec fn in_stick_range<T, O: ScalarOps<T>>(ops: O, pos: T) -> bool {
    not_above(ops, negated(ops, one_of(ops)), pos) && not_above(ops, pos, one_of(ops))
}

/// A wandering stick a millisecond later: the velocity goes up by a step
/// for heads and down by a step for tails, the position moves by the
/// velocity; a position outside the range of the stick is brought back to
/// the range and the stick stops.
pub open spec fn walked<T, O: ScalarOps<T>>(ops: O, w: Walker<T>, heads: bool) -> Walker<T> {
    let vel = sum(
        ops,
        w.vel,
        if heads {
            walk_step(ops)
        } else {
            negated(ops, walk_step(ops))
        },
    );
    let pos = sum(ops, w.pos, vel);
    let one = one_of(ops);
    if in_stick_range(ops, pos) {
        Walker { pos: limited(ops, pos, negated(ops, one), one), vel }
    } else {
        let far = count_of(ops, 1000);
        Walker {
            pos: limited(ops, limited(ops, pos, negated(ops, far), far), negated(ops, one), one),
            vel: zero_of(ops),
        }
    }
}

/// A wandering stick after the first `k` of `flips`, from rest at zero.
pub open spec fn walker_after<T, O: ScalarOps<T>>(ops: O, flips: Seq<bool>, k: nat) -> Walker<T>
    decreases k,
{
    if k == 0 {
        Walker { pos: zero_of(ops), vel: zero_of(ops) }
    } else {
        walked(ops, walker_after(ops, flips, (k - 1) as nat), flips[k - 1])
    }
}

/// The positions of a wandering stick, one per coin flip.
pub open spec fn brownian_walk<T, O: ScalarOps<T>>(ops: O, flips: Seq<bool>) -> Seq<T> {
    Seq::new(flips.len(), |i: int| walker_after(ops, flips, (i + 1) as nat).pos)
}

/// The positions of a wandering stick for the coin flips `flips`, one per
/// millisecond.
pub fn walk_from_flips<T: Copy, O: ScalarOps<T>>(flips: &Vec<bool>, ops: &O) -> (all_pos: Vec<T>)
    requires
        scalar_ops_ok(*ops),
    ensures
        all_pos@ == brownian_walk(*ops, flips@),
{
    let one = ops.one();
    let low = ops.negate(one);
    let far = ops.from_count(1000);
    let near = ops.negate(far);
    let up = ops.divide(one, ops.from_count(10000));
    let down = ops.negate(up);
    let mut pos = ops.zero();
    let mut vel = ops.zero();
    let mut all_pos: Vec<T> = Vec::new();
    let mut i: usize = 0;
    while i < flips.len()
        invariant
            i <= flips@.len(),
            scalar_ops_ok(*ops),
            one == one_of(*ops),
            low == negated(*ops, one_of(*ops)),
            far == count_of(*ops, 1000),
            near == negated(*ops, count_of(*ops, 1000)),
            up == walk_step(*ops),
            down == negated(*ops, walk_step(*ops)),
            (Walker { pos, vel }) == walker_after(*ops, flips@, i as nat),
            all_pos@.len() == i,
            forall|k: int|
                0 <= k < i ==> all_pos@[k] == walker_after(*ops, flips@, (k + 1) as nat).pos,
        decreases flips@.len() - i,
    {
        vel = ops.plus(
            vel,
            if flips[i] {
                up
            } else {
                down
            },
        );
        pos = ops.plus(pos, vel);
        if !(ops.at_most(low, pos) && ops.at_most(pos, one)) {
            pos = ops.limit(pos, near, far);
            vel = ops.zero();
        }
        pos = ops.limit(pos, low, one);
        all_pos.push(pos);
        i += 1;
    }
    assert(all_pos@ =~= brownian_walk(*ops, flips@));
    all_pos
}

/// The positions of a wandering stick over `milisecs` milliseconds, by the
/// flips of a fair coin.
pub fn generate_brownian<T: Copy, O: ScalarOps<T>>(milisecs: usize, ops: &O) -> (all_pos: Vec<T>)
    requires
        scalar_ops_ok(*ops),
    ensures
        all_pos@.len() == milisecs,
        is_walk(*ops, milisecs as nat, all_pos@),
{
    let mut rng = thread_generator();
    let coin = match bernoulli_from_ratio(1, 2) {
        Ok(coin) => coin,
        Err(_) => {
            // One in two is a ratio that is never refused.
            assert(false);
            return Vec::new();
        },
    };
    let mut flips: Vec<bool> = Vec::new();
    let mut i: usize = 0;
    while i < milisecs
        invariant
            i <= milisecs,
            flips@.len() == i,
        decreases milisecs - i,
    {
        flips.push(bernoulli_sample(&coin, &mut rng));
        i += 1;
    }
    let all_pos = walk_from_flips(&flips, ops);
    proof {
        assert(flips@.len() == milisecs && all_pos@ == brownian_walk(*ops, flips@));
    }
    all_pos
}

/// `values` are the positions of a wandering stick over `milisecs`
/// milliseconds for some coin flips.
pub open spec fn is_walk<T, O: ScalarOps<T>>(ops: O, milisecs: nat, values: Seq<T>) -> bool {
    exists|flips: Seq<bool>|
        flips.len() == milisecs && values == #[trigger] brownian_walk(ops, flips)
}

/// How the positions of one stick are made.
#[derive(Debug)]
pub enum InputGenerationMethod<T> {
    /// The stick stays at one position.
    Uniform(T),
    /// The stick wanders at random.
    Brownian,
}

/// `values` are positions of a stick over `milisecs` milliseconds made by
/// `method`: the one position throughout, or those of a wandering stick.
pub open spec fn is_values<T, O: ScalarOps<T>>(
    ops: O,
    method: InputGenerationMethod<T>,
    milisecs: nat,
    values: Seq<T>,
) -> bool {
    match method {
        InputGenerationMethod::Uniform(val) => values == Seq::new(milisecs, |i: int| val),
        InputGenerationMethod::Brownian => is_walk(ops, milisecs, values),
    }
}

impl<T: Copy> InputGenerationMethod<T> {
    /// The positions of a stick over `milisecs` milliseconds.
    pub fn to_values<O: ScalarOps<T>>(&self, milisecs: usize, ops: &O) -> (values: Vec<T>)
        requires
            scalar_ops_ok(*ops),
        ensures
            values@.len() == milisecs,
            is_values(*ops, *self, milisecs as nat, values@),
    {
        match self {
            InputGenerationMethod::Uniform(val) => copy_of(*val, milisecs),
            InputGenerationMethod::Brownian => generate_brownian(milisecs, ops),
        }
    }
}

/// How the positions of the four sticks are made.
#[derive(Debug)]
pub struct InputGenerator<T> {
    pub throttle: InputGenerationMethod<T>,
    pub yaw: InputGenerationMethod<T>,
    pub pitch: InputGenerationMethod<T>,
    pub roll: InputGenerationMethod<T>,
}

/// The stick positions of each millisecond, from the positions of each stick.
pub open spec fn zipped<T>(throttle: Seq<T>, yaw: Seq<T>, pitch: Seq<T>, roll: Seq<T>) -> Seq<
    Channels<T>,
> {
    Seq::new(
        throttle.len(),
        |i: int| Channels { throttle: throttle[i], yaw: yaw[i], pitch: pitch[i], roll: roll[i] },
    )
}

/// `channels` are stick positions over `milisecs` milliseconds made by
/// `generator`: each stick by its own method.
pub open spec fn is_generated<T, O: ScalarOps<T>>(
    ops: O,
    generator: InputGenerator<T>,
    milisecs: nat,
    channels: Seq<Channels<T>>,
) -> bool {
    exists|throttle: Seq<T>, yaw: Seq<T>, pitch: Seq<T>, roll: Seq<T>|
        is_values(ops, generator.throttle, milisecs, throttle) && is_values(
            ops,
            generator.yaw,
            milisecs,
            yaw,
        ) && is_values(ops, generator.pitch, milisecs, pitch) && is_values(
            ops,
            generator.roll,
            milisecs,
            roll,
        ) && channels == #[trigger] zipped(throttle, yaw, pitch, roll)
}

impl<T: Copy> InputGenerator<T> {
    /// The generator that holds the throttle at minus one and every other
    /// stick at zero.
    pub fn default<O: ScalarOps<T>>(ops: &O) -> (g: Self)
        requires
            scalar_ops_ok(*ops),
        ensures
            g == (InputGenerator {
                throttle: InputGenerationMethod::Uniform(negated(*ops, one_of(*ops))),
                yaw: InputGenerationMethod::Uniform(zero_of(*ops)),
                pitch: InputGenerationMethod::Uniform(zero_of(*ops)),
                roll: InputGenerationMethod::Uniform(zero_of(*ops)),
            }),
    {
        InputGenerator {
            throttle: InputGenerationMethod::Uniform(ops.negate(ops.one())),
            yaw: InputGenerationMethod::Uniform(ops.zero()),
            pitch: InputGenerationMethod::Uniform(ops.zero()),
            roll: InputGenerationMethod::Uniform(ops.zero()),
        }
    }

    /// The same generator with another method for the throttle.
    pub fn set_throttle(self, throttle: InputGenerationMethod<T>) -> (g: Self)
        ensures
            g == (InputGenerator { throttle, ..self }),
    {
        InputGenerator { throttle, ..self }
    }

    /// The same generator with another method for the yaw stick.
    pub fn set_yaw(self, yaw: InputGenerationMethod<T>) -> (g: Self)
        ensures
            g == (InputGenerator { yaw, ..self }),
    {
        InputGenerator { yaw, ..self }
    }

    /// The same generator with another method for the pitch stick.
    pub fn set_pitch(self, pitch: InputGenerationMethod<T>) -> (g: Self)
        ensures
            g == (InputGenerator { pitch, ..self }),
    {
        InputGenerator { pitch, ..self }
    }

    /// The same generator with another method for the roll stick.
    pub fn set_roll(self, roll: InputGenerationMethod<T>) -> (g: Self)
        ensures
            g == (InputGenerator { roll, ..self }),
    {
        InputGenerator { roll, ..self }
    }

    /// The stick positions of `milisecs` milliseconds: each stick by its own
    /// method, the throttle first, then yaw, pitch and roll.
    pub fn generate<O: ScalarOps<T>>(&self, milisecs: usize, ops: &O) -> (channels: Vec<
        Channels<T>,
    >)
        requires
            scalar_ops_ok(*ops),
        ensures
            channels@.len() == milisecs,
            is_generated(*ops, *self, milisecs as nat, channels@),
    {
        let throttle = self.throttle.to_values(milisecs, ops);
        let yaw = self.yaw.to_values(milisecs, ops);
        let pitch = self.pitch.to_values(milisecs, ops);
        let roll = self.roll.to_values(milisecs, ops);
        let mut channels: Vec<Channels<T>> = Vec::new();
        let mut ms: usize = 0;
        while ms < milisecs
            invariant
                ms <= milisecs,
                throttle@.len() == milisecs,
                yaw@.len() == milisecs,
                pitch@.len() == milisecs,
                roll@.len() == milisecs,
                channels@.len() == ms,
                forall|i: int|
                    0 <= i < ms ==> channels@[i] == zipped(throttle@, yaw@, pitch@, roll@)[i],
            decreases milisecs - ms,
        {
            channels.push(
                Channels { throttle: throttle[ms], yaw: yaw[ms], pitch: pitch[ms], roll: roll[ms] },
            );
            ms += 1;
        }
        assert(channels@ =~= zipped(throttle@, yaw@, pitch@, roll@));
        channels
    }
}

} // verus!
