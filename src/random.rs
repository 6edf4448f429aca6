//! The random draws the simulation makes, through the `rand` crate.

use rand::seq::SliceRandom;
use rand::Rng;
use vstd::prelude::*;

verus! {

/// Relies on rand's `Rng::gen_range` (on `thread_rng()`): a value drawn from
/// `[low, high)`; it panics when `low >= high`, which `requires` rules out.
#[verifier::external_body]
pub(crate) fn random_in_range(low: i64, high: i64) -> (r: i64)
    requires
        low < high,
    ensures
        low <= r < high,
{
    rand::thread_rng().gen_range(low, high)
}

/// Relies on rand's `SliceRandom::choose` (on `thread_rng()`): one element of
/// the slice, or `None` exactly when the slice is empty.
#[verifier::external_body]
pub(crate) fn random_choice<'a>(words: &'a [&'a str]) -> (r: Option<&'a str>)
    ensures
        r is None <==> words@.len() == 0,
        r matches Some(w) ==> exists|i: int| 0 <= i < words@.len() && words@[i] == w,
{
    words.choose(&mut rand::thread_rng()).copied()
}

} // verus!
