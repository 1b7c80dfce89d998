//! The random-number source threaded through sampling and scattering.
//!
//! Draws come from a seeded pseudo-random generator of the `rand` crate, so
//! a source's whole stream is a function of its seed: the draw at position
//! `i` of the stream for seed `s` is written `rand_of(s, i)`, and every
//! contract downstream is exact in terms of that stream.

use vstd::prelude::*;
use rand::RngCore;
use rand::SeedableRng;
use crate::fixed::FX_ONE;

verus! {

#[verifier::external_type_specification]
#[verifier::external_body]
pub struct ExStdRng(rand::rngs::StdRng);

/// The draw at position `index` of the pseudo-random stream for `seed`.
pub uninterp spec fn rand_of(seed: u64, index: nat) -> u64;

/// A seeded random-number source. The generator state is opaque; the ghost
/// seed and draw count identify the position in the stream, so equal seeds
/// give equal streams.
pub struct RandSource {
    rng: rand::rngs::StdRng,
    seed: Ghost<u64>,
    drawn: Ghost<nat>,
}

impl RandSource {
    /// The seed this source was created from.
    pub closed spec fn seed(&self) -> u64 {
        self.seed@
    }

    /// How many draws have been made so far.
    pub closed spec fn drawn(&self) -> nat {
        self.drawn@
    }

    /// Relies on `rand::rngs::StdRng::seed_from_u64` (`SeedableRng`):
    /// construction from a `u64` seed is a pure function of the seed.
    #[verifier::external_body]
    fn from_seed(seed: u64) -> (r: RandSource)
        ensures
            r.seed() == seed,
            r.drawn() == 0,
    {
        RandSource {
            rng: rand::rngs::StdRng::seed_from_u64(seed),
            seed: Ghost(seed),
            drawn: Ghost(0),
        }
    }

    /// A fresh source positioned at the start of the stream for `seed`.
    pub fn new(seed: u64) -> (r: RandSource)
        ensures
            r.seed() == seed,
            r.drawn() == 0,
    {
        RandSource::from_seed(seed)
    }

    /// Relies on `rand_core::RngCore::next_u64` for `StdRng`: the generator
    /// is deterministic, so each draw is a function of the seed it was
    /// created from and of how many draws were already made.
    #[verifier::external_body]
    fn next_u64(&mut self) -> (r: u64)
        ensures
            final(self).seed() == old(self).seed(),
            final(self).drawn() == old(self).drawn() + 1,
            r == rand_of(old(self).seed(), old(self).drawn()),
    {
        self.rng.next_u64()
    }

    /// A fixed-point sample in [0, 1): the next draw reduced modulo `FX_ONE`.
    pub fn gen_unit(&mut self) -> (r: i64)
        ensures
            final(self).seed() == old(self).seed(),
            final(self).drawn() == old(self).drawn() + 1,
            r as int == spec_unit_sample(old(self).seed(), old(self).drawn()),
            0 <= r < FX_ONE,
    {
        let x = self.next_u64();
        (x % (FX_ONE as u64)) as i64
    }
}

/// The fixed-point sample in [0, 1) taken at position `index` of the stream.
pub open spec fn spec_unit_sample(seed: u64, index: nat) -> int {
    (rand_of(seed, index) as int) % (FX_ONE as int)
}

/// How many candidates a rejection sampler examines before it falls back to
/// the zero vector (the chance of exhausting them is negligible, but a bound
/// keeps the samplers total).
pub const SAMPLE_TRIES: u32 = 64;

} // verus!
