//! The source of the booleans from which random boards are made: a seeded
//! pseudo-random generator, which hands out the same booleans whenever it
//! starts from the same seed.

use crate::grid::random_grid;
use rand::rngs::StdRng;
use rand::{Rng, SeedableRng};
use vstd::prelude::*;

verus! {

/// `rand::rngs::StdRng`, the generator. The verifier does not look into it.
#[verifier::external_type_specification]
#[verifier::external_body]
pub struct ExStdRng(StdRng);

/// The booleans that the generator hands out from the state it is in, one
/// for each call of `Rng::gen::<bool>`: the one under 0 comes first. The
/// generator computes them from its state and from nothing else.
pub uninterp spec fn upcoming(rng: StdRng) -> Map<nat, bool>;

/// The booleans that a generator hands out which `StdRng::seed_from_u64`
/// has just made from `seed`. The seed alone determines them, for the
/// version of `rand` that the crate is built with.
pub uninterp spec fn seeded_draws(seed: u64) -> Map<nat, bool>;

/// `StdRng::seed_from_u64`: a generator in the state that the seed alone
/// determines. What it hands out from there is `seeded_draws(seed)`.
#[verifier::external_body]
fn seeded_rng(seed: u64) -> (rng: StdRng)
    ensures
        upcoming(rng) == seeded_draws(seed),
{
    StdRng::seed_from_u64(seed)
}

/// `Rng::gen::<bool>`: takes the next boolean from the generator. It is
/// the first of those that were to come, and the others move up by one.
#[verifier::external_body]
fn draw_bool(rng: &mut StdRng) -> (bit: bool)
    ensures
        bit == upcoming(*old(rng))[0],
        forall|k: nat| #[trigger] upcoming(*final(rng))[k] == upcoming(*old(rng))[k + 1],
{
    rng.gen::<bool>()
}

/// The first `n` of the booleans to come, in the order in which they are
/// handed out.
pub open spec fn next_draws(draws: Map<nat, bool>, n: nat) -> Seq<bool> {
    Seq::new(n, |k: int| draws[k as nat])
}

/// A seeded generator of booleans. Its view holds the booleans that it will
/// hand out, the next one under 0.
pub struct RandomSource {
    rng: StdRng,
}

impl View for RandomSource {
    type V = Map<nat, bool>;

    closed spec fn view(&self) -> Map<nat, bool> {
        upcoming(self.rng)
    }
}

impl RandomSource {
    /// A generator that starts from `seed`.
    pub fn new(seed: u64) -> (source: Self)
        ensures
            source@ == seeded_draws(seed),
    {
        RandomSource { rng: seeded_rng(seed) }
    }

    /// Starts the generator anew from `seed`, whatever was drawn before.
    pub fn reseed(&mut self, seed: u64)
        ensures
            final(self)@ == seeded_draws(seed),
    {
        self.rng = seeded_rng(seed);
    }

    /// Draws the next boolean.
    pub fn next_bool(&mut self) -> (bit: bool)
        ensures
            bit == old(self)@[0],
            forall|k: nat| #[trigger] final(self)@[k] == old(self)@[k + 1],
    {
        draw_bool(&mut self.rng)
    }
}

/// What a source hands out depends on nothing but the seed that it started
/// from: two sources that start from the same seed hand out the same
/// booleans, and the random boards made from them are the same.
pub proof fn lemma_same_seed_same_board(first: RandomSource, second: RandomSource, seed: u64)
    requires
        first@ == seeded_draws(seed),
        second@ == seeded_draws(seed),
    ensures
        forall|k: nat| first@[k] == second@[k],
        next_draws(first@, 16) == next_draws(second@, 16),
        random_grid(next_draws(first@, 16)) == random_grid(next_draws(seeded_draws(seed), 16)),
        random_grid(next_draws(second@, 16)) == random_grid(next_draws(seeded_draws(seed), 16)),
{
}

} // verus!
