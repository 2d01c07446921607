//! Coin flips: the random numbers that this crate draws by itself.

use rand::distributions::Bernoulli;
use rand::distributions::BernoulliError;
use rand::distributions::Distribution;
use rand::rngs::ThreadRng;
use vstd::prelude::*;

verus! {

/// `rand::distributions::Bernoulli`: a distribution over `true` and `false`.
/// Nothing of what it holds is read here.
#[verifier::external_type_specification]
#[verifier::external_body]
pub struct ExBernoulli(Bernoulli);

/// `rand::distributions::BernoulliError`: why a distribution was refused.
#[verifier::external_type_specification]
#[verifier::external_body]
pub struct ExBernoulliError(BernoulliError);

/// `rand::rngs::ThreadRng`: the handle of a thread's random number
/// generator.
#[verifier::external_type_specification]
#[verifier::external_body]
pub struct ExThreadRng(ThreadRng);

/// `rand::distributions::Bernoulli::from_ratio`: a distribution that gives
/// `true` with a chance of `numerator` in `denominator`. It is refused
/// exactly when the numerator exceeds the denominator or the denominator is
/// zero.
#[verifier::external_body]
pub(crate) fn bernoulli_from_ratio(numerator: u32, denominator: u32) -> (made: Result<
    Bernoulli,
    BernoulliError,
>)
    ensures
        made.is_ok() == (numerator <= denominator && denominator != 0),
{
    Bernoulli::from_ratio(numerator, denominator)
}

/// `rand::thread_rng`: the handle of this thread's random number generator.
/// Nothing is claimed of it.
#[verifier::external_body]
pub(crate) fn thread_generator() -> ThreadRng {
    rand::thread_rng()
}

/// `Distribution::sample` of a `Bernoulli`: one draw. Nothing is known of
/// the outcome.
#[verifier::external_body]
pub(crate) fn bernoulli_sample(coin: &Bernoulli, rng: &mut ThreadRng) -> bool {
    coin.sample(rng)
}

} // verus!
