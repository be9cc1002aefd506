//! Randomness, reduced to two trusted entry points.
//!
//! The behaviour engine needs random numbers only for jitter: trial points for
//! the hiding-spot search, peek/talk interval lengths and an occasional coin
//! flip. Nothing is ever promised about *which* value comes back, only about
//! its range, so every caller is verified for all possible outcomes.

use vstd::prelude::*;

verus! {

/// Relies on `rand::Rng::gen_range` over `rand::thread_rng()`: a uniformly
/// random value of the inclusive range `lo..=hi`, which panics only when the
/// range is empty.
#[verifier::external_body]
pub fn rand_between(lo: u64, hi: u64) -> (r: u64)
    requires
        lo <= hi,
    ensures
        lo <= r <= hi,
{
    rand::Rng::gen_range(&mut rand::thread_rng(), lo..=hi)
}

/// Relies on `rand::Rng::gen_ratio` over `rand::thread_rng()`: `true` with
/// probability `num` in `den`, which panics only when `den == 0` or
/// `num > den`. No clause constrains the outcome: callers must be correct
/// whichever way the coin lands.
#[verifier::external_body]
pub fn rand_coin(num: u32, den: u32) -> bool
    requires
        0 < den,
        num <= den,
{
    rand::Rng::gen_ratio(&mut rand::thread_rng(), num, den)
}

} // verus!
