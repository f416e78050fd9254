//! The calls into the `rand` crate that draw a workload. Nothing in this file
//! is proved: each function states what the crate's documentation and source
//! say of the call it makes, for every outcome of the draw.

use rand::rngs::StdRng;
use rand::Rng;
use vstd::prelude::*;

verus! {

/// `rand::rngs::StdRng`, carried as an opaque value.
#[verifier::external_type_specification]
#[verifier::external_body]
pub struct ExStdRng(StdRng);

/// `Rng::gen_range` on the range `lower..=upper`: one integer of the range,
/// both ends included. Which one depends on the generator. The call panics
/// where the range is empty.
#[verifier::external_body]
pub(crate) fn draw_between(rng: &mut StdRng, lower: u64, upper: u64) -> (value: u64)
    requires
        lower <= upper,
    ensures
        lower <= value <= upper,
{
    rng.gen_range(lower..=upper)
}

/// `Rng::gen_ratio`: `true` with a chance of `numerator` in `denominator`.
/// The outcome depends on the generator, except at the two ends: never
/// `true` for a chance of zero, always for a chance of one. The call panics
/// where `denominator` is zero or less than `numerator`.
#[verifier::external_body]
pub(crate) fn draw_ratio(rng: &mut StdRng, numerator: u32, denominator: u32) -> (hit: bool)
    requires
        denominator > 0,
        numerator <= denominator,
    ensures
        numerator == denominator ==> hit,
        numerator == 0 ==> !hit,
{
    rng.gen_ratio(numerator, denominator)
}

} // verus!
