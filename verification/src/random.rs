//! A source of random numbers that is made from a seed.

use vstd::prelude::*;

use crate::types::Int;

verus! {

/// `rand_pcg::Pcg64`: a generator of random numbers. Nothing inside it is
/// seen here.
#[verifier::external_type_specification]
#[verifier::external_body]
pub struct ExPcg64(rand_pcg::Lcg128Xsl64);

/// What tells one state of a source of random numbers from another.
#[derive(Debug, Clone, Copy, PartialEq, Eq, Structural)]
pub enum InternalState {
    /// The state of a [`Rand`]: the seed it was made from.
    Rand { seed: u64 },
}

/// A source of random numbers.
#[derive(Debug)]
pub struct Rand {
    rng: rand_pcg::Lcg128Xsl64,
    seed: u64,
}

/// `rand::random`: a number from the generator of the thread, of which
/// nothing is known.
#[verifier::external_body]
fn random_seed() -> u64 {
    rand::random()
}

/// `rand::SeedableRng::seed_from_u64` for `rand_pcg::Pcg64`: a generator made
/// from the seed.
#[verifier::external_body]
fn seed_from_u64(seed: u64) -> rand_pcg::Lcg128Xsl64 {
    rand::SeedableRng::seed_from_u64(seed)
}

/// `rand::RngCore::fill_bytes`: overwrites every byte of the buffer, whose
/// length stays as it is.
#[verifier::external_body]
fn fill_bytes(rng: &mut rand_pcg::Lcg128Xsl64, buf: &mut [u8])
    ensures
        final(buf)@.len() == old(buf)@.len(),
{
    rand::RngCore::fill_bytes(rng, buf)
}

/// `rand::Rng::gen_range` from 0: a number from 0 up to `max`, which is
/// left out.
#[verifier::external_body]
fn gen_range(rng: &mut rand_pcg::Lcg128Xsl64, max: Int) -> (r: Int)
    requires
        0 < max,
    ensures
        0 <= r < max,
{
    rand::Rng::gen_range(rng, 0, max)
}

impl Rand {
    /// The seed that the source was made from.
    pub closed spec fn seed_spec(&self) -> u64 {
        self.seed
    }

    /// A source made from `seed`, or from a random seed where none is
    /// given.
    pub fn new(seed: Option<u64>) -> (r: Rand)
        ensures
            seed matches Some(seed) ==> r.seed_spec() == seed,
    {
        let seed: u64 = match seed {
            Some(seed) => seed,
            None => random_seed(),
        };
        Rand { rng: seed_from_u64(seed), seed }
    }

    /// The seed that the source was made from.
    pub fn seed(&self) -> (r: u64)
        ensures
            r == self.seed_spec(),
    {
        self.seed
    }

    /// The state of the source, which is told by its seed alone.
    pub fn internal_state(&self) -> (r: InternalState)
        ensures
            r == (InternalState::Rand { seed: self.seed_spec() }),
    {
        InternalState::Rand { seed: self.seed }
    }

    /// Fills the buffer with random bytes.
    pub fn bytes(&mut self, buf: &mut [u8])
        ensures
            final(buf)@.len() == old(buf)@.len(),
            final(self).seed_spec() == old(self).seed_spec(),
    {
        fill_bytes(&mut self.rng, buf);
    }

    /// A random integer from 0 up to `max`, which is left out.
    pub fn rand_int(&mut self, max: Int) -> (r: Int)
        requires
            0 < max,
        ensures
            0 <= r < max,
            final(self).seed_spec() == old(self).seed_spec(),
    {
        gen_range(&mut self.rng, max)
    }
}

} // verus!
