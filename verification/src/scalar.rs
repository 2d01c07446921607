//! The operations on scalars that everything numeric is built from.
//!
//! The crate never looks into a scalar. Whoever uses it says what adding,
//! multiplying or comparing two scalars means by implementing `ScalarOps`
//! for a type of their own. The contracts of the crate then speak of *the*
//! sum or *the* product of two scalars, which is meaningful for operations
//! that have one result for given arguments: `scalar_ops_ok`.

use vstd::prelude::*;

verus! {

/// The operations on scalars of type `T`.
pub trait ScalarOps<T> {
    /// The scalar zero.
    fn zero(&self) -> T;

    /// The scalar one.
    fn one(&self) -> T;

    /// `a + b`.
    fn plus(&self, a: T, b: T) -> T;

    /// `a - b`.
    fn minus(&self, a: T, b: T) -> T;

    /// `a * b`.
    fn times(&self, a: T, b: T) -> T;

    /// `a / b`.
    fn divide(&self, a: T, b: T) -> T;

    /// `-a`.
    fn negate(&self, a: T) -> T;

    /// The magnitude of `a`.
    fn magnitude(&self, a: T) -> T;

    /// The sign of `a`, as a scalar.
    fn sign(&self, a: T) -> T;

    /// `a` raised to the power `b`.
    fn power_of(&self, a: T, b: T) -> T;

    /// `a`, kept between `low` and `high`.
    fn limit(&self, a: T, low: T, high: T) -> T;

    /// Whether `a` is greater than `b`.
    fn exceeds(&self, a: T, b: T) -> bool;

    /// Whether `a` is less than or equal to `b`.
    fn at_most(&self, a: T, b: T) -> bool;

    /// The count `n` as a scalar.
    fn from_count(&self, n: usize) -> T;

    /// `a` rounded to the nearest count, a half away from zero.
    fn round_to_count(&self, a: T) -> usize;

    /// The squashing function of a reservoir at `a`.
    fn squash(&self, a: T) -> T;

    /// The exponential function at `a`.
    fn exponential(&self, a: T) -> T;

    /// The square root of `a`.
    fn square_root(&self, a: T) -> T;
}

/// The scalar zero.
pub open spec fn zero_of<T, O: ScalarOps<T>>(ops: O) -> T {
    choose|r: T| call_ensures(O::zero, (&ops,), r)
}

/// The scalar one.
pub open spec fn one_of<T, O: ScalarOps<T>>(ops: O) -> T {
    choose|r: T| call_ensures(O::one, (&ops,), r)
}

/// `a + b`.
pub open spec fn sum<T, O: ScalarOps<T>>(ops: O, a: T, b: T) -> T {
    choose|r: T| call_ensures(O::plus, (&ops, a, b), r)
}

/// `a - b`.
pub open spec fn difference<T, O: ScalarOps<T>>(ops: O, a: T, b: T) -> T {
    choose|r: T| call_ensures(O::minus, (&ops, a, b), r)
}

/// `a * b`.
pub open spec fn product<T, O: ScalarOps<T>>(ops: O, a: T, b: T) -> T {
    choose|r: T| call_ensures(O::times, (&ops, a, b), r)
}

/// `a / b`.
pub open spec fn quotient<T, O: ScalarOps<T>>(ops: O, a: T, b: T) -> T {
    choose|r: T| call_ensures(O::divide, (&ops, a, b), r)
}

/// `-a`.
pub open spec fn negated<T, O: ScalarOps<T>>(ops: O, a: T) -> T {
    choose|r: T| call_ensures(O::negate, (&ops, a), r)
}

/// The magnitude of `a`.
pub open spec fn magnitude_of<T, O: ScalarOps<T>>(ops: O, a: T) -> T {
    choose|r: T| call_ensures(O::magnitude, (&ops, a), r)
}

/// The sign of `a`.
pub open spec fn sign_of<T, O: ScalarOps<T>>(ops: O, a: T) -> T {
    choose|r: T| call_ensures(O::sign, (&ops, a), r)
}

/// `a` raised to the power `b`.
pub open spec fn power<T, O: ScalarOps<T>>(ops: O, a: T, b: T) -> T {
    choose|r: T| call_ensures(O::power_of, (&ops, a, b), r)
}

/// `a`, kept between `low` and `high`.
pub open spec fn limited<T, O: ScalarOps<T>>(ops: O, a: T, low: T, high: T) -> T {
    choose|r: T| call_ensures(O::limit, (&ops, a, low, high), r)
}

/// Whether `a` is greater than `b`.
pub open spec fn greater<T, O: ScalarOps<T>>(ops: O, a: T, b: T) -> bool {
    choose|r: bool| call_ensures(O::exceeds, (&ops, a, b), r)
}

/// Whether `a` is less than or equal to `b`.
pub open spec fn not_above<T, O: ScalarOps<T>>(ops: O, a: T, b: T) -> bool {
    choose|r: bool| call_ensures(O::at_most, (&ops, a, b), r)
}

/// The count `n` as a scalar.
pub open spec fn count_of<T, O: ScalarOps<T>>(ops: O, n: usize) -> T {
    choose|r: T| call_ensures(O::from_count, (&ops, n), r)
}

/// `a` rounded to the nearest count, a half away from zero.
pub open spec fn rounded<T, O: ScalarOps<T>>(ops: O, a: T) -> usize {
    choose|r: usize| call_ensures(O::round_to_count, (&ops, a), r)
}

/// The squashing function at `a`.
pub open spec fn squashed<T, O: ScalarOps<T>>(ops: O, a: T) -> T {
    choose|r: T| call_ensures(O::squash, (&ops, a), r)
}

/// The exponential function at `a`.
pub open spec fn exp_of<T, O: ScalarOps<T>>(ops: O, a: T) -> T {
    choose|r: T| call_ensures(O::exponential, (&ops, a), r)
}

/// The square root of `a`.
pub open spec fn root_of<T, O: ScalarOps<T>>(ops: O, a: T) -> T {
    choose|r: T| call_ensures(O::square_root, (&ops, a), r)
}

/// Every operation has one result for given arguments.
pub open spec fn scalar_ops_ok<T, O: ScalarOps<T>>(ops: O) -> bool {
    &&& forall|r: T| #[trigger] call_ensures(O::zero, (&ops,), r) ==> r == zero_of(ops)
    &&& forall|r: T| #[trigger] call_ensures(O::one, (&ops,), r) ==> r == one_of(ops)
    &&& forall|a: T, b: T, r: T| #[trigger]
        call_ensures(O::plus, (&ops, a, b), r) ==> r == sum(ops, a, b)
    &&& forall|a: T, b: T, r: T| #[trigger]
        call_ensures(O::minus, (&ops, a, b), r) ==> r == difference(ops, a, b)
    &&& forall|a: T, b: T, r: T| #[trigger]
        call_ensures(O::times, (&ops, a, b), r) ==> r == product(ops, a, b)
    &&& forall|a: T, b: T, r: T| #[trigger]
        call_ensures(O::divide, (&ops, a, b), r) ==> r == quotient(ops, a, b)
    &&& forall|a: T, r: T| #[trigger] call_ensures(O::negate, (&ops, a), r) ==> r == negated(ops, a)
    &&& forall|a: T, r: T| #[trigger]
        call_ensures(O::magnitude, (&ops, a), r) ==> r == magnitude_of(ops, a)
    &&& forall|a: T, r: T| #[trigger] call_ensures(O::sign, (&ops, a), r) ==> r == sign_of(ops, a)
    &&& forall|a: T, b: T, r: T| #[trigger]
        call_ensures(O::power_of, (&ops, a, b), r) ==> r == power(ops, a, b)
    &&& forall|a: T, low: T, high: T, r: T| #[trigger]
        call_ensures(O::limit, (&ops, a, low, high), r) ==> r == limited(ops, a, low, high)
    &&& forall|a: T, b: T, r: bool| #[trigger]
        call_ensures(O::exceeds, (&ops, a, b), r) ==> r == greater(ops, a, b)
    &&& forall|a: T, b: T, r: bool| #[trigger]
        call_ensures(O::at_most, (&ops, a, b), r) ==> r == not_above(ops, a, b)
    &&& forall|n: usize, r: T| #[trigger]
        call_ensures(O::from_count, (&ops, n), r) ==> r == count_of(ops, n)
    &&& forall|a: T, r: usize| #[trigger]
        call_ensures(O::round_to_count, (&ops, a), r) ==> r == rounded(ops, a)
    &&& forall|a: T, r: T| #[trigger] call_ensures(O::squash, (&ops, a), r) ==> r == squashed(ops, a)
    &&& forall|a: T, r: T| #[trigger]
        call_ensures(O::exponential, (&ops, a), r) ==> r == exp_of(ops, a)
    &&& forall|a: T, r: T| #[trigger]
        call_ensures(O::square_root, (&ops, a), r) ==> r == root_of(ops, a)
}

/// `y` is a result of keeping some scalar between `low` and `high`.
pub open spec fn is_limit_result<T, O: ScalarOps<T>>(ops: O, low: T, high: T, y: T) -> bool {
    exists|x: T| #[trigger] call_ensures(O::limit, (&ops, x, low, high), y)
}

/// `y` is a result of the squashing function.
pub open spec fn is_squash_result<T, O: ScalarOps<T>>(ops: O, y: T) -> bool {
    exists|x: T| #[trigger] call_ensures(O::squash, (&ops, x), y)
}

/// A vector with every entry of `v` multiplied by `factor`.
pub fn scale_row<T: Copy, O: ScalarOps<T>>(v: &Vec<T>, factor: T, ops: &O) -> (out: Vec<T>)
    requires
        scalar_ops_ok(*ops),
    ensures
        out@ == v@.map_values(|x: T| product(*ops, x, factor)),
{
    let mut out: Vec<T> = Vec::new();
    let mut i: usize = 0;
    while i < v.len()
        invariant
            i <= v@.len(),
            scalar_ops_ok(*ops),
            out@.len() == i,
            forall|k: int| 0 <= k < i ==> out@[k] == product(*ops, v@[k], factor),
        decreases v@.len() - i,
    {
        out.push(ops.times(v[i], factor));
        i += 1;
    }
    assert(out@ =~= v@.map_values(|x: T| product(*ops, x, factor)));
    out
}

} // verus!
