//! Durations as whole nanoseconds.

use std::time::Duration;
use vstd::prelude::*;

verus! {

/// The length of a duration in nanoseconds: what `Duration::as_nanos`
/// returns for it.
pub uninterp spec fn duration_nanos(d: Duration) -> u128;

/// `std::time::Duration::as_nanos`: the total number of nanoseconds of the
/// duration. The contract gives that number its name and claims no more.
#[verifier::external_body]
pub(crate) fn as_nanos(d: Duration) -> (n: u128)
    ensures
        n == duration_nanos(d),
{
    d.as_nanos()
}

/// The number of nanoseconds in `d`.
pub fn nanos(d: Duration) -> (n: u128)
    ensures
        n == duration_nanos(d),
{
    as_nanos(d)
}

} // verus!
