//! The pseudo-random source that places food, from the `rand` crate.
//!
//! The generator is opaque to the proofs. Nothing here is verified: each
//! item states what is taken on trust from `rand`.

use rand::rngs::SmallRng;
use rand::Rng;
use rand::SeedableRng;
use vstd::prelude::*;

verus! {

/// `rand::rngs::SmallRng`, carried through the game without a model of its
/// state.
#[verifier::external_type_specification]
#[verifier::external_body]
pub struct ExSmallRng(rand::rngs::SmallRng);

/// Calls `SmallRng::seed_from_u64`. Nothing is claimed of the generator that
/// comes back: its algorithm depends on the platform.
#[verifier::external_body]
pub(crate) fn seeded(seed: u64) -> SmallRng {
    SmallRng::seed_from_u64(seed)
}

/// Calls `Rng::gen_range` on `0..bound`, which panics on an empty range, so
/// `bound` must be positive. The one claim is that the number drawn lies in
/// the range; which number it is, and how the generator moves on, is left
/// open.
#[verifier::external_body]
pub(crate) fn draw_below(rng: &mut SmallRng, bound: u32) -> (drawn: u32)
    requires
        bound > 0,
    ensures
        drawn < bound,
{
    rng.gen_range(0..bound)
}

} // verus!
