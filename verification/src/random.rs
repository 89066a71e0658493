//! The random draws of the engine, made by the thread-local generator of the
//! `rand` crate. The contracts here are believed, not proved.

use rand::Rng;
use vstd::prelude::*;

verus! {

/// Calls `Rng::gen_range` of `rand` on the range from 0 up to, not
/// including, `bound`. The call panics on an empty range, so `bound` must be
/// positive; what comes back lies in the range.
#[verifier::external_body]
pub(crate) fn random_below(bound: usize) -> (drawn: usize)
    requires
        bound > 0,
    ensures
        drawn < bound,
{
    rand::thread_rng().gen_range(0..bound)
}

/// Calls `Rng::gen_ratio` of `rand`, which is `true` with a chance of
/// `numerator` in `denominator`. The call panics on a zero denominator and on
/// a numerator above the denominator. Its documentation promises `false` for
/// a zero numerator and `true` where the two are equal.
#[verifier::external_body]
pub(crate) fn random_ratio(numerator: u32, denominator: u32) -> (drawn: bool)
    requires
        denominator > 0,
        numerator <= denominator,
    ensures
        numerator == 0 ==> !drawn,
        numerator == denominator ==> drawn,
{
    rand::thread_rng().gen_ratio(numerator, denominator)
}

} // verus!
