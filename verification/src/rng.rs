//! Source of random draws for the animation model.
//!
//! The animation step needs small random integers: positions, speeds and
//! percentage rolls. They are drawn from a seeded generator so that a
//! scripted sequence of steps is reproducible from its seed. Every
//! contract downstream states only what holds of each draw's range, so
//! the proofs hold whatever values come out.

use vstd::prelude::*;

verus! {

#[verifier::external_type_specification]
#[verifier::external_body]
pub struct ExStdRng(rand::rngs::StdRng);

/// Relies on rand's `SeedableRng::seed_from_u64`: builds a generator
/// deterministically from the seed. Nothing is claimed of the stream it
/// will produce.
#[verifier::external_body]
fn std_rng_from_seed(seed: u64) -> rand::rngs::StdRng {
    <rand::rngs::StdRng as rand::SeedableRng>::seed_from_u64(seed)
}

/// Relies on rand's `Rng::gen_range` over the inclusive range `lo..=hi`:
/// returns a value of that range, and panics only on an empty range,
/// which the precondition rules out.
#[verifier::external_body]
fn std_rng_range(rng: &mut rand::rngs::StdRng, lo: u32, hi: u32) -> (r: u32)
    requires
        lo <= hi,
    ensures
        lo <= r <= hi,
{
    rand::Rng::gen_range(rng, lo..=hi)
}

/// A seeded stream of bounded random integers.
pub struct RandomSource {
    rng: rand::rngs::StdRng,
}

impl RandomSource {
    /// A generator whose draws are a function of `seed` alone.
    pub fn from_seed(seed: u64) -> Self {
        RandomSource { rng: std_rng_from_seed(seed) }
    }

    /// One draw from the inclusive range `lo..=hi`.
    pub fn next_in(&mut self, lo: u32, hi: u32) -> (r: u32)
        requires
            lo <= hi,
        ensures
            lo <= r <= hi,
    {
        std_rng_range(&mut self.rng, lo, hi)
    }
}

} // verus!
