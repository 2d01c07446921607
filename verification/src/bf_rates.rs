//! From stick positions to the angular rates that a pilot expects of them.

use crate::flight::Channels;
use crate::scalar::{
    count_of, difference, magnitude_of, negated, one_of, power, product, quotient,
    scalar_ops_ok, sign_of, sum, zero_of, ScalarOps,
};
use vstd::prelude::*;

verus! {

/// Angular rates about the three axes.
#[derive(Debug)]
pub struct Rates<T> {
    pub yaw: T,
    pub pitch: T,
    pub roll: T,
}

impl<T: Copy> Clone for Rates<T> {
    fn clone(&self) -> (r: Self)
        ensures
            r == *self,
    {
        *self
    }
}

impl<T: Copy> Copy for Rates<T> {

}

/// The parameters of a rate curve: the rate at full stick, the slope at the
/// center and the curvature.
#[derive(Debug)]
pub struct BetaflightRates<T> {
    pub max_rate: T,
    pub center_rate: T,
    pub expo: T,
}

impl<T: Copy> Clone for BetaflightRates<T> {
    fn clone(&self) -> (r: Self)
        ensures
            r == *self,
    {
        *self
    }
}

impl<T: Copy> Copy for BetaflightRates<T> {

}

/// The rate of the curve at the stick position `stick`:
/// `sign * (x * center_rate + (max_rate - center_rate) * x ^ (1 + power))`,
/// where `x` is the magnitude of the stick position, `sign` its sign, and
/// `power` is `1 + expo`.
pub open spec fn actual_rate_spec<T, O: ScalarOps<T>>(ops: O, rates: BetaflightRates<T>, stick: T)
    -> T {
    let x = magnitude_of(ops, stick);
    let s = sign_of(ops, stick);
    let curvature = sum(ops, one_of(ops), rates.expo);
    let rate = sum(
        ops,
        product(ops, x, rates.center_rate),
        product(
            ops,
            difference(ops, rates.max_rate, rates.center_rate),
            power(ops, x, sum(ops, one_of(ops), curvature)),
        ),
    );
    product(ops, s, rate)
}

/// The default curve: a maximum rate of 11.682, a center rate of 1.19 and
/// no curvature.
pub open spec fn default_curve<T, O: ScalarOps<T>>(ops: O) -> BetaflightRates<T> {
    BetaflightRates {
        max_rate: quotient(ops, count_of(ops, 11682), count_of(ops, 1000)),
        center_rate: quotient(ops, count_of(ops, 119), count_of(ops, 100)),
        expo: zero_of(ops),
    }
}

/// The rates expected of the sticks: the default curve of the yaw stick, and
/// the opposite of the default curve of the pitch and of the roll stick.
pub open spec fn targets_spec<T, O: ScalarOps<T>>(ops: O, sticks: Channels<T>) -> Rates<T> {
    let rates = default_curve(ops);
    Rates {
        yaw: actual_rate_spec(ops, rates, sticks.yaw),
        pitch: negated(ops, actual_rate_spec(ops, rates, sticks.pitch)),
        roll: negated(ops, actual_rate_spec(ops, rates, sticks.roll)),
    }
}

impl<T: Copy> BetaflightRates<T> {
    /// The default curve.
    pub fn default<O: ScalarOps<T>>(ops: &O) -> (rates: Self)
        requires
            scalar_ops_ok(*ops),
        ensures
            rates == default_curve(*ops),
    {
        BetaflightRates {
            max_rate: ops.divide(ops.from_count(11682), ops.from_count(1000)),
            center_rate: ops.divide(ops.from_count(119), ops.from_count(100)),
            expo: ops.zero(),
        }
    }

    /// The rate that the stick position `stick` asks for.
    pub fn actual_rate<O: ScalarOps<T>>(&self, stick: T, ops: &O) -> (r: T)
        requires
            scalar_ops_ok(*ops),
        ensures
            r == actual_rate_spec(*ops, *self, stick),
    {
        let x = ops.magnitude(stick);
        let s = ops.sign(stick);
        let curvature = ops.plus(ops.one(), self.expo);
        let rate = ops.plus(
            ops.times(x, self.center_rate),
            ops.times(
                ops.minus(self.max_rate, self.center_rate),
                ops.power_of(x, ops.plus(ops.one(), curvature)),
            ),
        );
        ops.times(s, rate)
    }
}

/// The angular rate that the stick position `stick_input` asks for by the
/// default curve.
pub fn stick_input_to_angular_velocity<T: Copy, O: ScalarOps<T>>(stick_input: T, ops: &O) -> (r: T)
    requires
        scalar_ops_ok(*ops),
    ensures
        r == actual_rate_spec(*ops, default_curve(*ops), stick_input),
{
    BetaflightRates::default(ops).actual_rate(stick_input, ops)
}

/// The rates expected of the stick positions `stick_inputs`.
pub fn stick_inputs_to_targets<T: Copy, O: ScalarOps<T>>(stick_inputs: &Channels<T>, ops: &O) -> (targets:
    Rates<T>)
    requires
        scalar_ops_ok(*ops),
    ensures
        targets == targets_spec(*ops, *stick_inputs),
{
    let yaw = stick_input_to_angular_velocity(stick_inputs.yaw, ops);
    let pitch = ops.negate(stick_input_to_angular_velocity(stick_inputs.pitch, ops));
    let roll = ops.negate(stick_input_to_angular_velocity(stick_inputs.roll, ops));
    Rates { yaw, pitch, roll }
}

} // verus!
