//! The seeded generator from which the queue draws the rank of the next
//! piece. The generator itself is `rand_pcg::Pcg64`; what it computes is not
//! proved here but named, so that contracts can say that a draw depends on
//! nothing but the seed and the draws before it.

use rand::Rng;
use rand::SeedableRng;
use rand_pcg::Pcg64;
use vstd::prelude::*;

verus! {

/// `rand_pcg::Lcg128Xsl64`, the generator behind the name `Pcg64`. Nothing
/// inside it is visible to the proofs.
#[verifier::external_type_specification]
#[verifier::external_body]
pub struct ExPcg64(rand_pcg::Lcg128Xsl64);

/// What a `Pcg64` holds: its 128-bit state and its 128-bit increment, the
/// two fields of the struct, in that order.
pub uninterp spec fn generator_words(rng: Pcg64) -> (u128, u128);

/// The words of the generator that `Pcg64::seed_from_u64` makes from `seed`.
pub uninterp spec fn seeded_words(seed: u64) -> (u128, u128);

/// What `Rng::gen_range(0..=high)` does on a `Pcg64` that holds `words`:
/// the `u64` it returns, and the words that the generator holds afterwards.
pub uninterp spec fn sampled(words: (u128, u128), high: u64) -> (u64, (u128, u128));

/// Calls `Pcg64::seed_from_u64`. Claimed: the generator made depends on the
/// seed alone.
#[verifier::external_body]
fn seeded_generator(seed: u64) -> (rng: Pcg64)
    ensures
        generator_words(rng) == seeded_words(seed),
{
    Pcg64::seed_from_u64(seed)
}

/// Calls `Rng::gen_range` on the inclusive range `0..=high`, which is never
/// empty. Claimed: the value lies in the range, and both the value and the
/// generator's words afterwards depend only on the words before and on
/// `high`.
#[verifier::external_body]
fn sample_up_to(rng: &mut Pcg64, high: u64) -> (value: u64)
    ensures
        value == sampled(generator_words(*old(rng)), high).0,
        generator_words(*final(rng)) == sampled(generator_words(*old(rng)), high).1,
        value <= high,
{
    rng.gen_range(0..=high)
}

/// The rank that a generator holding `words` draws from `0..=highest`: the
/// value that the generator's sampling returns, which is never above
/// `highest`.
pub open spec fn rank_drawn(words: (u128, u128), highest: usize) -> usize {
    let value = sampled(words, highest as u64).0;
    if value <= highest {
        value as usize
    } else {
        highest
    }
}

/// The words that a generator holds after drawing a rank from `0..=highest`.
pub open spec fn words_after_draw(words: (u128, u128), highest: usize) -> (u128, u128) {
    sampled(words, highest as u64).1
}

/// The words that a generator holds after `n` draws from `0..=highest`.
pub open spec fn words_after_draws(words: (u128, u128), highest: usize, n: nat) -> (u128, u128)
    decreases n,
{
    if n == 0 {
        words
    } else {
        words_after_draw(words_after_draws(words, highest, (n - 1) as nat), highest)
    }
}

/// The first `n` ranks that a generator holding `words` draws from
/// `0..=highest`.
pub open spec fn ranks_drawn(words: (u128, u128), highest: usize, n: nat) -> Seq<usize> {
    Seq::new(n, |i: int| rank_drawn(words_after_draws(words, highest, i as nat), highest))
}

/// The game's source of randomness, seeded once and advanced only by
/// drawing the rank of a next piece.
pub struct GameRand {
    rng: Pcg64,
}

impl GameRand {
    /// The words that the generator holds.
    pub closed spec fn view(&self) -> (u128, u128) {
        generator_words(self.rng)
    }

    /// A generator for `seed`. Two generators made from one seed hold the
    /// same words.
    pub fn new(seed: u64) -> (rand: GameRand)
        ensures
            rand@ == seeded_words(seed),
    {
        GameRand { rng: seeded_generator(seed) }
    }

    /// Draws a rank from `0..=highest`. Which rank comes out, and what the
    /// generator holds afterwards, is fixed by what it held before.
    pub fn next_rank(&mut self, highest: usize) -> (rank: usize)
        ensures
            rank == rank_drawn(old(self)@, highest),
            final(self)@ == words_after_draw(old(self)@, highest),
            rank <= highest,
    {
        sample_up_to(&mut self.rng, highest as u64) as usize
    }
}

/// The ranks drawn one after another are the sequence `ranks_drawn`: after
/// `n` draws, the next draw gives its entry `n`, and the words move on by
/// one draw.
pub proof fn lemma_next_draw_extends_sequence(words: (u128, u128), highest: usize, n: nat)
    ensures
        ranks_drawn(words, highest, n + 1) == ranks_drawn(words, highest, n).push(
            rank_drawn(words_after_draws(words, highest, n), highest),
        ),
        words_after_draws(words, highest, n + 1) == words_after_draw(
            words_after_draws(words, highest, n),
            highest,
        ),
{
    assert(ranks_drawn(words, highest, n + 1) =~= ranks_drawn(words, highest, n).push(
        rank_drawn(words_after_draws(words, highest, n), highest),
    ));
}

} // verus!
