use vstd::prelude::*;

use rand::rngs::StdRng;
use rand::seq::SliceRandom;
use rand::Rng;
use uuid::Uuid;

verus! {

/// Probabilities are written as parts of this whole: `PROBABILITY_SCALE`
/// is certainty and `0` is impossibility.
pub const PROBABILITY_SCALE: u32 = 1_000_000;

/// A probability, in parts of `PROBABILITY_SCALE`.
pub open spec fn is_probability(p: u32) -> bool {
    p <= PROBABILITY_SCALE
}

#[verifier::external_type_specification]
#[verifier::external_body]
pub struct ExStdRng(StdRng);

#[verifier::external_type_specification]
#[verifier::external_body]
pub struct ExUuid(Uuid);

/// Relies on rand's `Rng::gen_ratio`: a trial that succeeds with probability
/// `numerator / denominator`; it never succeeds with a zero numerator and
/// always does with a numerator equal to the denominator. It panics on a zero
/// denominator or a numerator above it.
#[verifier::external_body]
fn gen_ratio(rng: &mut StdRng, numerator: u32, denominator: u32) -> (r: bool)
    requires
        0 < denominator,
        numerator <= denominator,
    ensures
        numerator == 0 ==> !r,
        numerator == denominator ==> r,
{
    rng.gen_ratio(numerator, denominator)
}

/// Relies on rand's `Rng::gen_range` for `i32`: a value in `low..high`. It
/// panics when the range is empty.
#[verifier::external_body]
fn gen_range(rng: &mut StdRng, low: i32, high: i32) -> (r: i32)
    requires
        low < high,
    ensures
        low <= r < high,
{
    rng.gen_range(low, high)
}

/// Relies on rand's `SliceRandom::choose`: one element of the slice, or
/// `None` when it is empty.
#[verifier::external_body]
pub(crate) fn choose_one<T: Copy>(rng: &mut StdRng, items: &Vec<T>) -> (r: Option<T>)
    ensures
        r.is_none() <==> items@.len() == 0,
        r matches Some(x) ==> items@.contains(x),
{
    items.as_slice().choose(rng).copied()
}

/// Relies on rand's `seq::index::sample`: `amount` distinct indices below
/// `length`. It panics when `amount` exceeds `length`.
#[verifier::external_body]
pub(crate) fn sample(rng: &mut StdRng, length: usize, amount: usize) -> (r: Vec<usize>)
    requires
        amount <= length,
    ensures
        r@.len() == amount,
        r@.no_duplicates(),
        forall|i: int| 0 <= i < r@.len() ==> r@[i] < length,
{
    rand::seq::index::sample(rng, length, amount).into_vec()
}

/// Relies on uuid's `Uuid::new_v4`: a random identifier.
#[verifier::external_body]
pub(crate) fn new_v4() -> (r: Uuid) {
    Uuid::new_v4()
}

/// A trial that succeeds with probability `p`.
pub fn trial(rng: &mut StdRng, p: u32) -> (r: bool)
    requires
        is_probability(p),
    ensures
        p == 0 ==> !r,
        p == PROBABILITY_SCALE ==> r,
{
    gen_ratio(rng, p, PROBABILITY_SCALE)
}

/// A value drawn from `low..=high`.
pub fn in_range(rng: &mut StdRng, low: i32, high: i32) -> (r: i32)
    requires
        low <= high < i32::MAX,
    ensures
        low <= r <= high,
{
    gen_range(rng, low, high + 1)
}

} // verus!
