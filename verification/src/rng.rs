//! The injectable random source for instance generation, backed by
//! rand's seedable standard generator.

use vstd::prelude::*;

verus! {

/// rand's standard generator, opaque to verification; callers construct
/// one themselves (seeded for reproducible runs, or from entropy).
#[verifier::external_type_specification]
#[verifier::external_body]
pub struct ExStdRng(rand::rngs::StdRng);

/// Relies on rand's `Rng::gen_range` over `0..bound`: the range is
/// non-empty, so the call does not panic and the draw lies below `bound`.
/// Nothing more is promised of a random outcome.
#[verifier::external_body]
pub(crate) fn draw_index(rng: &mut rand::rngs::StdRng, bound: usize) -> (r: usize)
    requires
        bound > 0,
    ensures
        r < bound,
{
    rand::Rng::gen_range(rng, 0..bound)
}

/// Relies on rand's `Rng::gen` for `bool`: a fair coin. Nothing is
/// promised of the outcome.
#[verifier::external_body]
pub(crate) fn draw_polarity(rng: &mut rand::rngs::StdRng) -> (r: bool) {
    rand::Rng::gen::<bool>(rng)
}

} // verus!
