//! The randomness source: a seedable generator from the `rand` crate, and the
//! draws that the password generators make from it.
//!
//! The generator is deterministic: what a draw returns, and the state it
//! leaves the generator in, depend only on the state before the draw and on
//! the draw's arguments.  Each kind of draw therefore has a name, an
//! uninterpreted function that stands for `rand`'s algorithm, and the
//! contracts of the password generators are stated over those names.  What
//! cannot be stated is how likely an outcome is: that every outcome of a
//! draw has the chance that `rand` documents is taken from `rand`.

use vstd::prelude::*;
use rand::rngs::StdRng;
use rand::SeedableRng;
use rand::Rng;
use rand::seq::SliceRandom;
use rand::seq::IndexedRandom;
use rand::distr::Distribution;
use rand::distr::Uniform;
use rand::distr::weighted::WeightedIndex;
use crate::arrangement::{distinct_positions, lemma_rearranged_same_items, picked};
use crate::error::GenerationError;
use crate::text::texts;

verus! {

/// `rand::rngs::StdRng`, carried as an opaque value: its state is the
/// generator's key, block counter and buffered output.
#[verifier::external_type_specification]
#[verifier::external_body]
pub struct ExStdRng(StdRng);

/// `rand::distr::weighted::Error`, the reason why weights were refused.
#[verifier::external_type_specification]
#[verifier::external_body]
pub struct ExWeightError(rand::distr::weighted::Error);

/// The state of a generator freshly seeded with `seed`.
pub uninterp spec fn seeded_state(seed: u64) -> StdRng;

/// The value that a single-use range draw over `low..high` returns in
/// `state`, and the state it leaves.
pub uninterp spec fn range_draw(state: StdRng, low: usize, high: usize) -> (usize, StdRng);

/// The value that a sample of the uniform distribution over `low..high`
/// returns in `state`, and the state it leaves.
pub uninterp spec fn uniform_draw(state: StdRng, low: usize, high: usize) -> (usize, StdRng);

/// The index that a weighted choice among `weights` returns in `state`, and
/// the state it leaves.
pub uninterp spec fn weighted_draw(state: StdRng, weights: Seq<u32>) -> (usize, StdRng);

/// The order into which a shuffle in `state` puts `len` items (position `i`
/// of the result holds the item that stood at position `order[i]`), and the
/// state it leaves.
pub uninterp spec fn shuffle_draw(state: StdRng, len: nat) -> (Seq<int>, StdRng);

/// The positions that a sample of `amount` items out of `len` picks in
/// `state`, in the order in which they come out, and the state it leaves.
pub uninterp spec fn sample_draw(state: StdRng, len: nat, amount: nat) -> (Seq<int>, StdRng);

/// The sum of `weights`.
pub open spec fn total_weight(weights: Seq<u32>) -> nat
    decreases weights.len(),
{
    if weights.len() == 0 {
        0
    } else {
        total_weight(weights.drop_last()) + weights.last() as nat
    }
}

/// Whether `weights` describe a distribution: there is at least one weight,
/// not all of them are zero, and their sum fits in a `u32`.
pub open spec fn usable_weights(weights: Seq<u32>) -> bool {
    &&& weights.len() > 0
    &&& 0 < total_weight(weights) <= u32::MAX
}

/// `SeedableRng::seed_from_u64` on `StdRng`: the generator it returns is
/// determined by the seed.
#[verifier::external_body]
fn seed_generator(seed: u64) -> (rng: StdRng)
    ensures
        rng == seeded_state(seed),
{
    StdRng::seed_from_u64(seed)
}

/// `SeedableRng::try_from_os_rng` on `StdRng`: a generator seeded by the
/// operating system, or nothing where the system has no entropy to give.
/// Nothing is known of its state.
#[verifier::external_body]
fn entropy_generator() -> (rng: Option<StdRng>) {
    StdRng::try_from_os_rng().ok()
}

/// `Rng::random_range` over `low..high`, which panics on an empty range:
/// the value lies in the range, and it and the state left behind are those
/// that `range_draw` names.
#[verifier::external_body]
fn draw_in_range(rng: &mut StdRng, low: usize, high: usize) -> (value: usize)
    requires
        low < high,
    ensures
        low <= value < high,
        (value, *final(rng)) == range_draw(*old(rng), low, high),
{
    rng.random_range(low..high)
}

/// `Uniform::new(low, high)`, which fails on an empty range, followed by
/// `Distribution::sample`: the value lies in the range, and it and the state
/// left behind are those that `uniform_draw` names.  The sampler rejects a
/// vanishing share of the generator's words and asks for another.
#[verifier::external_body]
fn sample_in_range(rng: &mut StdRng, low: usize, high: usize) -> (value: usize)
    requires
        low < high,
    ensures
        low <= value < high,
        (value, *final(rng)) == uniform_draw(*old(rng), low, high),
{
    Uniform::new(low, high).expect("the range is not empty").sample(rng)
}

/// `WeightedIndex::new(weights)` followed by `Distribution::sample`.  The
/// weights are accepted exactly when they are usable.  The index then
/// returned is that of a weight that is not zero, and it and the state left
/// behind are those that `weighted_draw` names.  Refused weights leave the
/// generator untouched.
#[verifier::external_body]
fn draw_weighted(
    rng: &mut StdRng,
    weights: &Vec<u32>,
) -> (choice: Result<usize, rand::distr::weighted::Error>)
    ensures
        choice is Ok <==> usable_weights(weights@),
        choice matches Ok(index) ==> index < weights@.len() && weights@[index as int] > 0,
        choice matches Ok(index) ==> (index, *final(rng)) == weighted_draw(*old(rng), weights@),
        choice is Err ==> *final(rng) == *old(rng),
{
    match WeightedIndex::new(weights) {
        Ok(distribution) => Ok(distribution.sample(rng)),
        Err(error) => Err(error),
    }
}

/// `SliceRandom::shuffle`: the items are moved, never changed, into the
/// order that `shuffle_draw` names, which depends on their number alone and
/// puts every one of them in exactly one place.
#[verifier::external_body]
fn shuffle_items(rng: &mut StdRng, items: &mut Vec<char>)
    ensures
        *final(rng) == shuffle_draw(*old(rng), old(items)@.len()).1,
        final(items)@ == picked(old(items)@, shuffle_draw(*old(rng), old(items)@.len()).0),
        distinct_positions(
            shuffle_draw(*old(rng), old(items)@.len()).0,
            old(items)@.len(),
            old(items)@.len(),
        ),
{
    items.shuffle(rng)
}

/// `IndexedRandom::choose_multiple`, its items cloned into a vector: as many
/// words as asked for, or all of them where fewer are there, taken from
/// different positions, which `sample_draw` names and which depend on the
/// two numbers alone.
#[verifier::external_body]
fn sample_items(rng: &mut StdRng, words: &Vec<String>, amount: usize) -> (chosen: Vec<String>)
    ensures
        *final(rng) == sample_draw(*old(rng), words@.len(), amount as nat).1,
        distinct_positions(
            sample_draw(*old(rng), words@.len(), amount as nat).0,
            words@.len(),
            if amount <= words@.len() { amount as nat } else { words@.len() },
        ),
        texts(chosen@) == picked(
            texts(words@),
            sample_draw(*old(rng), words@.len(), amount as nat).0,
        ),
{
    words.choose_multiple(rng, amount).cloned().collect()
}

/// A source of randomness for the password generators.
///
/// Two sources in the same state make the same draws.
pub struct RandomSource {
    rng: StdRng,
}

impl RandomSource {
    /// The state of the underlying generator.
    pub closed spec fn state(&self) -> StdRng {
        self.rng
    }

    /// A deterministic source: sources made from the same seed start in the
    /// same state.
    pub fn from_seed(seed: u64) -> (source: RandomSource)
        ensures
            source.state() == seeded_state(seed),
    {
        RandomSource { rng: seed_generator(seed) }
    }

    /// An unpredictable source, or `None` where the operating system gives
    /// no seed: whether it gives one, and which, is the system's to decide.
    pub fn from_entropy() -> (source: Option<RandomSource>) {
        match entropy_generator() {
            Some(generator) => Some(RandomSource::from_generator(generator)),
            None => None,
        }
    }

    /// A source that draws from `generator`, starting in the state in which
    /// the generator is.
    pub fn from_generator(generator: StdRng) -> (source: RandomSource)
        ensures
            source.state() == generator,
    {
        RandomSource { rng: generator }
    }

    /// Draws one value from `low..high`, as a single-use range draw.
    pub fn uniform_in_range(&mut self, low: usize, high: usize) -> (value: usize)
        requires
            low < high,
        ensures
            low <= value < high,
            (value, final(self).state()) == range_draw(old(self).state(), low, high),
    {
        draw_in_range(&mut self.rng, low, high)
    }

    /// Draws one value from the uniform distribution over `low..high`.
    pub fn sample_uniform(&mut self, low: usize, high: usize) -> (value: usize)
        requires
            low < high,
        ensures
            low <= value < high,
            (value, final(self).state()) == uniform_draw(old(self).state(), low, high),
    {
        sample_in_range(&mut self.rng, low, high)
    }

    /// Chooses an index into `weights`, each with a chance in proportion to
    /// its weight.  Fails, without drawing, exactly when the weights are not
    /// usable.
    pub fn weighted_choice(&mut self, weights: &Vec<u32>) -> (choice: Result<usize, GenerationError>)
        ensures
            choice is Ok <==> usable_weights(weights@),
            choice matches Ok(index) ==> index < weights@.len() && weights@[index as int] > 0,
            choice matches Ok(index) ==> (index, final(self).state()) == weighted_draw(
                old(self).state(),
                weights@,
            ),
            choice matches Err(error) ==> error == GenerationError::InvalidWeightConfiguration
                && final(self).state() == old(self).state(),
    {
        match draw_weighted(&mut self.rng, weights) {
            Ok(index) => Ok(index),
            Err(_) => Err(GenerationError::InvalidWeightConfiguration),
        }
    }

    /// Puts `items` into a random order: every item is kept, as often as it
    /// was there.
    pub fn shuffle(&mut self, items: &mut Vec<char>)
        ensures
            final(self).state() == shuffle_draw(old(self).state(), old(items)@.len()).1,
            final(items)@ == picked(
                old(items)@,
                shuffle_draw(old(self).state(), old(items)@.len()).0,
            ),
            distinct_positions(
                shuffle_draw(old(self).state(), old(items)@.len()).0,
                old(items)@.len(),
                old(items)@.len(),
            ),
            final(items)@.to_multiset() == old(items)@.to_multiset(),
    {
        shuffle_items(&mut self.rng, items);
        proof {
            lemma_rearranged_same_items(
                old(items)@,
                shuffle_draw(old(self).state(), old(items)@.len()).0,
            );
        }
    }

    /// Picks `amount` of `words` from different positions, or all of them
    /// where fewer are there, and returns copies in the order drawn.
    pub fn choose_multiple(&mut self, words: &Vec<String>, amount: usize) -> (chosen: Vec<String>)
        ensures
            final(self).state() == sample_draw(old(self).state(), words@.len(), amount as nat).1,
            texts(chosen@) == picked(
                texts(words@),
                sample_draw(old(self).state(), words@.len(), amount as nat).0,
            ),
            distinct_positions(
                sample_draw(old(self).state(), words@.len(), amount as nat).0,
                words@.len(),
                if amount <= words@.len() { amount as nat } else { words@.len() },
            ),
    {
        sample_items(&mut self.rng, words, amount)
    }
}

} // verus!
