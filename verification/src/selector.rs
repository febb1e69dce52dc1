//! The word selector: draws distinct words from the corpus.

use vstd::prelude::*;
use rand::rngs::StdRng;
use crate::arrangement::{distinct_positions, lemma_distinct_positions_distinct_items, picked};
use crate::corpus::{long_enough, WordCorpus};
use crate::error::GenerationError;
use crate::source::{sample_draw, RandomSource};
use crate::text::texts;

verus! {

/// The positions in a corpus of `len` words that a selection of `count`
/// words takes in `state`.
pub open spec fn selected_positions(state: StdRng, len: nat, count: nat) -> Seq<int> {
    sample_draw(state, len, count).0
}

/// The words that a selection of `count` words from `corpus` returns in `state`.
pub open spec fn selected_words(
    corpus: Seq<Seq<char>>,
    state: StdRng,
    count: nat,
) -> Seq<Seq<char>> {
    picked(corpus, selected_positions(state, corpus.len(), count))
}

/// The state in which a selection of `count` words out of `len` leaves a
/// source that was in `state`.
pub open spec fn state_after_selection(state: StdRng, len: nat, count: nat) -> StdRng {
    sample_draw(state, len, count).1
}

/// Draws `n` words from `corpus`, no position twice, in the order drawn.
///
/// Fails with `CorpusExhausted`, without drawing, exactly when the corpus
/// holds fewer than `n` words.
pub fn get_random_words(
    rng: &mut RandomSource,
    corpus: &WordCorpus,
    n: usize,
) -> (result: Result<Vec<String>, GenerationError>)
    ensures
        result is Ok <==> n <= corpus@.len(),
        result matches Ok(words) ==> {
            &&& words@.len() == n
            &&& texts(words@) == selected_words(corpus@, old(rng).state(), n as nat)
            &&& final(rng).state() == state_after_selection(
                old(rng).state(),
                corpus@.len(),
                n as nat,
            )
            &&& distinct_positions(
                selected_positions(old(rng).state(), corpus@.len(), n as nat),
                corpus@.len(),
                n as nat,
            )
            &&& forall|i: int| 0 <= i < words@.len() ==> long_enough(#[trigger] words@[i]@)
            &&& corpus@.no_duplicates() ==> texts(words@).no_duplicates()
        },
        result matches Err(error) ==> error == GenerationError::CorpusExhausted
            && final(rng).state() == old(rng).state(),
{
    if n > corpus.len() {
        return Err(GenerationError::CorpusExhausted);
    }
    let candidates = corpus.words();
    let words = rng.choose_multiple(candidates, n);
    proof {
        let positions = selected_positions(old(rng).state(), corpus@.len(), n as nat);
        assert(texts(words@).len() == n);
        assert forall|i: int| 0 <= i < words@.len() implies long_enough(
            #[trigger] words@[i]@,
        ) by {
            assert(texts(words@)[i] == words@[i]@);
            assert(texts(candidates@)[positions[i]] == candidates@[positions[i]]@);
        }
        if corpus@.no_duplicates() {
            lemma_distinct_positions_distinct_items(corpus@, positions, n as nat);
        }
    }
    Ok(words)
}

} // verus!
