//! The random draws the games make.

use vstd::prelude::*;

verus! {

/// Calls `fastrand::usize` on the half-open range from `low` to `high`.
/// Trusted: the draw lies in that range. Which value comes is not stated.
#[verifier::external_body]
pub(crate) fn random_usize(low: usize, high: usize) -> (n: usize)
    requires
        low < high,
    ensures
        low <= n < high,
{
    fastrand::usize(low..high)
}

/// Calls `fastrand::isize` on the half-open range from `low` to `high`.
/// Trusted: the draw lies in that range. Which value comes is not stated.
#[verifier::external_body]
pub(crate) fn random_isize(low: isize, high: isize) -> (n: isize)
    requires
        low < high,
    ensures
        low <= n < high,
{
    fastrand::isize(low..high)
}

/// Calls `fastrand::bool`. Nothing is stated of the outcome.
#[verifier::external_body]
pub(crate) fn random_bool() -> (b: bool)
{
    fastrand::bool()
}

} // verus!
