//! Dice for the playful parts of the app, thrown with the `rand` crate.
//! Every outcome can come up, so these items promise only what holds of
//! every throw.

use vstd::prelude::*;
use rand::Rng;

verus! {

/// `thread_rng().gen_range(0..bound)`: a random number below `bound`.
/// `gen_range` panics on an empty range, so `bound` must be positive.
#[verifier::external_body]
pub(crate) fn random_below(bound: u32) -> (r: u32)
    requires
        0 < bound,
    ensures
        r < bound,
{
    rand::thread_rng().gen_range(0..bound)
}

/// `thread_rng().gen_ratio(numerator, denominator)`: true with probability
/// `numerator / denominator`. rand documents that it is never true for a
/// numerator of 0 and always true when numerator and denominator are
/// equal, and that it panics when the denominator is 0 or below the
/// numerator.
#[verifier::external_body]
pub(crate) fn chance(numerator: u32, denominator: u32) -> (r: bool)
    requires
        0 < denominator,
        numerator <= denominator,
    ensures
        numerator == 0 ==> !r,
        numerator == denominator ==> r,
{
    rand::thread_rng().gen_ratio(numerator, denominator)
}

} // verus!
