//! Draws from the thread-local random generator of `rand`. Nothing is
//! promised of a draw but the range it falls in.

use vstd::prelude::*;

verus! {

/// Relies on `rand::Rng::gen_range` over `0..n` (usize): it asserts that the
/// range is not empty, and returns a value inside it.
#[verifier::external_body]
pub(crate) fn index_below(n: usize) -> (r: usize)
    requires
        n > 0,
    ensures
        r < n,
{
    rand::Rng::gen_range(&mut rand::thread_rng(), 0..n)
}

/// Relies on `rand::Rng::gen_range` over `lo..=hi` (i64): it asserts that the
/// range is not empty, and returns a value inside it.
#[verifier::external_body]
pub(crate) fn int_between(lo: i64, hi: i64) -> (r: i64)
    requires
        lo <= hi,
    ensures
        lo <= r <= hi,
{
    rand::Rng::gen_range(&mut rand::thread_rng(), lo..=hi)
}

/// Relies on `rand::random::<bool>`: a fair coin; either value may come.
#[verifier::external_body]
pub(crate) fn fair_coin() -> (r: bool) {
    rand::random::<bool>()
}

/// Relies on `rand::Rng::gen_ratio`: true with probability
/// `numerator / denominator`. `Bernoulli::from_ratio` fails, and the call
/// panics, when the numerator exceeds the denominator or the denominator is
/// zero; a ratio of one always gives true and a zero numerator never does.
#[verifier::external_body]
pub(crate) fn ratio(numerator: u32, denominator: u32) -> (r: bool)
    requires
        0 < denominator,
        numerator <= denominator,
    ensures
        numerator == denominator ==> r,
        numerator == 0 ==> !r,
{
    rand::Rng::gen_ratio(&mut rand::thread_rng(), numerator, denominator)
}

/// Relies on `rand::seq::SliceRandom::shuffle`: a Fisher-Yates shuffle made
/// of swaps, so the characters are only reordered.
#[verifier::external_body]
pub(crate) fn shuffle_chars(v: &mut Vec<char>)
    ensures
        final(v)@.len() == old(v)@.len(),
        final(v)@.to_multiset() == old(v)@.to_multiset(),
{
    rand::seq::SliceRandom::shuffle(v.as_mut_slice(), &mut rand::thread_rng())
}

} // verus!
