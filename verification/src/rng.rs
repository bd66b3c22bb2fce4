//! Per-shot seeded randomness.
//!
//! Components draw randomness from a PCG generator seeded once per shot, so
//! that a whole shot's outcomes are a function of the shot's seed alone.

use vstd::prelude::*;

verus! {

/// Declares rand_pcg's `Pcg64Mcg` (`pcg64_fast`) so that a generator can be
/// held in a field; its state stays opaque here.
#[verifier::external_type_specification]
#[verifier::external_body]
pub struct ExPcg64Mcg(rand_pcg::Pcg64Mcg);

/// The `k`-th 64-bit output of the `pcg64_fast` generator after it has been
/// seeded from `seed`. The generator is a portable deterministic permuted
/// congruential generator, so the output is a function of the seed and the
/// draw index alone.
pub uninterp spec fn pcg_draw(seed: u64, index: nat) -> u64;

/// A per-shot pseudo-random stream: the generator together with the seed it
/// was built from and how many words have been drawn.
pub struct ShotRng {
    inner: rand_pcg::Pcg64Mcg,
    seed: u64,
    drawn: Ghost<nat>,
}

/// Relies on rand_core's `SeedableRng::seed_from_u64` for
/// `rand_pcg::Pcg64Mcg`: seeding is a deterministic function of the seed
/// alone, so the generator this returns stands at draw index zero of the
/// stream `pcg_draw(seed, _)`.
#[verifier::external_body]
fn pcg_from_seed(seed: u64) -> (r: rand_pcg::Pcg64Mcg) {
    <rand_pcg::Pcg64Mcg as rand::SeedableRng>::seed_from_u64(seed)
}

impl ShotRng {
    /// The seed the stream was built from.
    pub closed spec fn seed(self) -> u64 {
        self.seed
    }

    /// How many words have been drawn so far.
    pub closed spec fn drawn(self) -> nat {
        self.drawn@
    }

    /// Build the deterministic stream that `seed` selects, standing at draw
    /// index zero.
    pub fn from_seed(seed: u64) -> (r: ShotRng)
        ensures
            r.seed() == seed,
            r.drawn() == 0,
    {
        ShotRng { inner: pcg_from_seed(seed), seed, drawn: Ghost(0) }
    }

    /// Relies on rand_core's `Rng::next_u64` for `rand_pcg::Pcg64Mcg`
    /// (`pcg64_fast`): each call returns the next word of the deterministic
    /// stream that the seed selects.
    #[verifier::external_body]
    pub fn next_u64(&mut self) -> (x: u64)
        ensures
            final(self).seed() == old(self).seed(),
            final(self).drawn() == old(self).drawn() + 1,
            x == pcg_draw(old(self).seed(), old(self).drawn()),
    {
        rand::Rng::next_u64(&mut self.inner)
    }

    /// Draw one word and compare it against a threshold: an event of
    /// probability `threshold / 2^64`. Exact certainty is not representable:
    /// even a threshold of `u64::MAX` misses when the drawn word is itself
    /// `u64::MAX`.
    pub fn bernoulli(&mut self, threshold: u64) -> (b: bool)
        ensures
            final(self).seed() == old(self).seed(),
            final(self).drawn() == old(self).drawn() + 1,
            b == (pcg_draw(old(self).seed(), old(self).drawn()) < threshold),
    {
        let x = self.next_u64();
        x < threshold
    }
}

} // verus!
