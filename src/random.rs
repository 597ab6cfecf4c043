//! The seedable source of the diagonal tie-break.
use rand::SeedableRng;
use vstd::prelude::*;

verus! {

#[verifier::external_type_specification]
#[verifier::external_body]
pub struct ExStdRng(rand::rngs::StdRng);

/// Relies on `rand_core::SeedableRng::seed_from_u64`: a generator whose
/// stream is fixed by the seed.
#[verifier::external_body]
fn seeded_std_rng(seed: u64) -> (r: rand::rngs::StdRng) {
    rand::rngs::StdRng::seed_from_u64(seed)
}

/// Relies on `rand::Rng::gen::<bool>`: one bit, the top bit of the next `u32`
/// of the stream. Nothing is promised of its value.
#[verifier::external_body]
fn draw_bool(rng: &mut rand::rngs::StdRng) -> (r: bool) {
    rand::Rng::gen::<bool>(rng)
}

/// The random source that picks a side when both diagonals are free.
pub struct TieBreaker {
    rng: rand::rngs::StdRng,
}

impl TieBreaker {
    /// A tie-breaker whose sequence of choices is fixed by `seed`.
    pub fn from_seed(seed: u64) -> (r: TieBreaker) {
        TieBreaker { rng: seeded_std_rng(seed) }
    }

    /// Draws one fair choice: `true` for the right diagonal, `false` for the left.
    pub fn go_right(&mut self) -> (r: bool) {
        draw_bool(&mut self.rng)
    }
}

} // verus!
