//! The renderer's randomness source.
//!
//! Every sampling operation takes this generator explicitly, so a path can
//! be reproduced from its seed. Only the raw draw is trusted; everything
//! derived from it is verified for every value the draw could take.

use vstd::prelude::*;
use rand::RngCore;
use rand::SeedableRng;
use crate::fx::{Fx, FX_ONE};

verus! {

#[verifier::external_type_specification]
#[verifier::external_body]
pub struct ExStdRng(rand::rngs::StdRng);

/// A deterministic pseudo-random source, seeded explicitly.
pub struct Rng {
    inner: rand::rngs::StdRng,
}

impl Rng {
    /// Relies on `rand::rngs::StdRng::seed_from_u64` (via `SeedableRng`) to
    /// build a generator from a seed; nothing is assumed of its state.
    #[verifier::external_body]
    pub fn from_seed(seed: u64) -> (r: Rng) {
        Rng { inner: rand::rngs::StdRng::seed_from_u64(seed) }
    }

    /// Relies on `rand::RngCore::next_u64` for fresh pseudo-random bits;
    /// nothing is assumed of the value drawn.
    #[verifier::external_body]
    fn next_raw(&mut self) -> u64 {
        self.inner.next_u64()
    }

    /// A pseudo-random scalar in `[0, 1)`.
    pub fn next_unit(&mut self) -> (r: Fx)
        ensures
            0 <= r < FX_ONE,
    {
        let raw = self.next_raw();
        (raw % (FX_ONE as u64)) as i64
    }

    /// A pseudo-random index below `n`.
    pub fn next_below(&mut self, n: u64) -> (r: u64)
        requires
            n > 0,
        ensures
            r < n,
    {
        self.next_raw() % n
    }
}

} // verus!
