//! The one source of randomness the game logic draws from.
//!
//! Every random decision of the engine (room draws, enemy picks, NPC boons,
//! the tic-tac-toe opponent) goes through a `GameRng`, so a run can be made
//! reproducible by seeding it. The two drawing methods are trusted wrappers
//! around the `rand` crate; everything that *uses* a drawn value is verified
//! for every value the wrapper may hand back.

use vstd::prelude::*;

verus! {

/// `rand::rngs::StdRng`, the seedable generator the wrappers below hold.
#[verifier::external_type_specification]
#[verifier::external_body]
pub struct ExStdRng(rand::rngs::StdRng);

/// A seedable random-number source for the game engine.
pub struct GameRng {
    inner: rand::rngs::StdRng,
}

impl GameRng {
    /// Relies on `rand_core::SeedableRng::seed_from_u64`: builds a generator
    /// from a 64-bit seed.
    #[verifier::external_body]
    pub fn from_seed(seed: u64) -> GameRng {
        GameRng { inner: rand::SeedableRng::seed_from_u64(seed) }
    }

    /// Relies on `rand::Rng::gen_range` over `0..n`: returns a uniform value
    /// of the range and panics only when the range is empty.
    #[verifier::external_body]
    pub fn below(&mut self, n: u32) -> (r: u32)
        requires
            n >= 1,
        ensures
            r < n,
    {
        rand::Rng::gen_range(&mut self.inner, 0..n)
    }

    /// Relies on `rand::Rng::gen_ratio`: returns `true` with probability
    /// `num / den` and panics only when `den == 0` or `num > den`. Nothing
    /// can be promised of a single outcome.
    #[verifier::external_body]
    pub fn ratio(&mut self, num: u32, den: u32) -> bool
        requires
            den >= 1,
            num <= den,
    {
        rand::Rng::gen_ratio(&mut self.inner, num, den)
    }
}

} // verus!
