use vstd::prelude::*;

use rand::Rng;

verus! {

#[verifier::external_type_specification]
#[verifier::external_body]
pub struct ExThreadRng(rand::rngs::ThreadRng);

/// Relies on rand's `Rng::gen_range` over an `i64` range: returns a
/// uniformly sampled value in `[lo, hi)`; it panics on an empty range,
/// which the precondition rules out.
#[verifier::external_body]
pub(crate) fn rand_range_i64(rng: &mut rand::rngs::ThreadRng, lo: i64, hi: i64) -> (r: i64)
    requires
        lo < hi,
    ensures
        lo <= r < hi,
{
    rng.gen_range(lo..hi)
}

/// Relies on rand's `Rng::gen_ratio`: returns true with probability
/// `num/den`; it panics when `den` is zero or `num > den`, which the
/// precondition rules out. Nothing is promised of the returned boolean.
#[verifier::external_body]
pub(crate) fn rand_ratio(rng: &mut rand::rngs::ThreadRng, num: u32, den: u32) -> bool
    requires
        0 < den,
        num <= den,
{
    rng.gen_ratio(num, den)
}

} // verus!
