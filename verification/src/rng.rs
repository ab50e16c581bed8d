//! The randomness boundary.
//!
//! Only the two `external_body` wrappers below touch the `rand` crate;
//! everything else in the library is verified for every value they can
//! return.  Normal deviates are derived from uniform draws in verified
//! code, so no floating-point distribution ever crosses the boundary.

use rand::distributions::Distribution;
use rand::Rng;
use vstd::prelude::*;

verus! {

/// Sum of a sequence of weights.
pub open spec fn weight_sum(s: Seq<u32>) -> int
    decreases s.len(),
{
    if s.len() == 0 {
        0
    } else {
        weight_sum(s.drop_last()) + s.last()
    }
}

/// Relies on `rand::Rng::gen_range` on the thread-local generator: it
/// returns a value inside the given inclusive range and panics only on an
/// empty range, which the precondition rules out.
#[verifier::external_body]
pub fn rand_in_range(lo: u64, hi: u64) -> (r: u64)
    requires
        lo <= hi,
    ensures
        lo <= r <= hi,
{
    rand::thread_rng().gen_range(lo..=hi)
}

/// Relies on `rand::distributions::WeightedIndex`: construction succeeds
/// when the weights are non-empty with a positive, non-overflowing total,
/// and sampling returns the index of a weight that is strictly positive.
#[verifier::external_body]
pub fn weighted_pick(weights: &Vec<u32>) -> (i: usize)
    requires
        weights@.len() > 0,
        0 < weight_sum(weights@) <= u32::MAX,
    ensures
        i < weights@.len(),
        weights@[i as int] > 0,
{
    let dist = rand::distributions::WeightedIndex::new(weights.iter()).unwrap();
    dist.sample(&mut rand::thread_rng())
}

/// Draws an approximately normal deviate on scaled integers and clamps it
/// to `lo..=hi`.  The sum of twelve uniform draws on `0..=999` has mean
/// 5994 and a standard deviation of about 999, so
/// `mean + sd * (sum - 5994) / 1000` approximates a normal distribution
/// with the given mean and standard deviation.
pub fn sample_normal_clamped(mean: i64, sd: i64, lo: i64, hi: i64) -> (r: i64)
    requires
        lo <= hi,
        0 <= sd <= 1_000_000_000,
        -1_000_000_000_000 <= mean <= 1_000_000_000_000,
    ensures
        lo <= r <= hi,
{
    let mut sum: i64 = 0;
    let mut i: u32 = 0;
    while i < 12
        invariant
            i <= 12,
            0 <= sum <= i * 999,
        decreases 12 - i,
    {
        let d = rand_in_range(0, 999);
        sum = sum + d as i64;
        i = i + 1;
    }
    let dev: i64 = sum - 5994;
    proof {
        assert(-(5994 * 1_000_000_000) <= (sd as int) * (dev as int) <= 5994 * 1_000_000_000)
            by (nonlinear_arith)
            requires
                0 <= sd <= 1_000_000_000,
                -5994 <= dev <= 5994,
        ;
    }
    let val: i64 = mean + sd * dev / 1000;
    if val < lo {
        lo
    } else if val > hi {
        hi
    } else {
        val
    }
}

/// [`sample_normal_clamped`] over unsigned scaled units.
pub fn sample_normal_u64(mean: u64, sd: u64, lo: u64, hi: u64) -> (r: u64)
    requires
        lo <= hi,
        sd <= 1_000_000_000,
        mean <= 1_000_000_000_000,
        hi <= 1_000_000_000_000,
    ensures
        lo <= r <= hi,
{
    let v = sample_normal_clamped(mean as i64, sd as i64, lo as i64, hi as i64);
    v as u64
}

} // verus!
