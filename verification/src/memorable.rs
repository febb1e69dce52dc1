//! Memorable passwords: words drawn from the corpus, transformed, and
//! joined by separators.

use vstd::prelude::*;
use rand::rngs::StdRng;
use crate::corpus::WordCorpus;
use crate::error::GenerationError;
use crate::arrangement::distinct_positions;
use crate::selector::{
    get_random_words, selected_positions, selected_words, state_after_selection,
};
use crate::separator::{
    draw_separators, gap_count, gap_draws, gaps_between, interleaved, join_words, Separator,
};
use crate::source::RandomSource;
use crate::text::texts;
use crate::transform;
use crate::transform::{capitalized, scrambled, state_after_scramble};

verus! {

/// What the transforms make of one word when the source is in `state`:
/// scrambled first, if asked for, then capitalized, if asked for; and the
/// state in which that leaves the source.
pub open spec fn word_formatted(
    word: Seq<char>,
    state: StdRng,
    capitalize: bool,
    scramble: bool,
) -> (Seq<char>, StdRng) {
    let shuffled = if scramble {
        scrambled(word, state)
    } else {
        word
    };
    let next = if scramble {
        state_after_scramble(word.len(), state)
    } else {
        state
    };
    (
        if capitalize {
            capitalized(shuffled)
        } else {
            shuffled
        },
        next,
    )
}

/// What the transforms make of `words`, one after the other, starting with
/// the source in `state`; and the state in which that leaves the source.
pub open spec fn words_formatted(
    words: Seq<Seq<char>>,
    state: StdRng,
    capitalize: bool,
    scramble: bool,
) -> (Seq<Seq<char>>, StdRng)
    decreases words.len(),
{
    if words.len() == 0 {
        (Seq::empty(), state)
    } else {
        let (earlier, middle) = words_formatted(words.drop_last(), state, capitalize, scramble);
        let (word, next) = word_formatted(words.last(), middle, capitalize, scramble);
        (earlier.push(word), next)
    }
}

/// The words of the memorable password that a request makes of `corpus`
/// when the source is in `state`, after their transforms.
pub open spec fn memorable_words(
    corpus: Seq<Seq<char>>,
    state: StdRng,
    word_count: nat,
    capitalize: bool,
    scramble: bool,
) -> Seq<Seq<char>> {
    words_formatted(
        selected_words(corpus, state, word_count),
        state_after_selection(state, corpus.len(), word_count),
        capitalize,
        scramble,
    ).0
}

/// The separators of that password, gap by gap.
pub open spec fn memorable_separators(
    corpus: Seq<Seq<char>>,
    state: StdRng,
    word_count: nat,
    separator: Separator,
    capitalize: bool,
    scramble: bool,
) -> Seq<Seq<char>> {
    gap_draws(
        separator,
        words_formatted(
            selected_words(corpus, state, word_count),
            state_after_selection(state, corpus.len(), word_count),
            capitalize,
            scramble,
        ).1,
        gaps_between(word_count),
    ).0
}

/// The memorable password that a request makes of `corpus` when the source
/// is in `state`, and the state in which generating it leaves the source:
/// the words are selected, then transformed in their order, then the
/// separators are drawn gap by gap.
pub open spec fn memorable_run(
    corpus: Seq<Seq<char>>,
    state: StdRng,
    word_count: nat,
    separator: Separator,
    capitalize: bool,
    scramble: bool,
) -> (Seq<char>, StdRng) {
    let chosen = selected_words(corpus, state, word_count);
    let after_selection = state_after_selection(state, corpus.len(), word_count);
    let (words, after_words) = words_formatted(chosen, after_selection, capitalize, scramble);
    let (separators, after_separators) = gap_draws(
        separator,
        after_words,
        gaps_between(word_count),
    );
    (interleaved(words, separators), after_separators)
}

/// Applies the transforms to one word: scrambling, if asked for, then
/// capitalization, if asked for.
pub fn format_word(
    rng: &mut RandomSource,
    word: &str,
    capitalize: bool,
    scramble: bool,
) -> (result: String)
    ensures
        (result@, final(rng).state()) == word_formatted(
            word@,
            old(rng).state(),
            capitalize,
            scramble,
        ),
        result@.len() == word@.len(),
        !capitalize ==> result@.to_multiset() == word@.to_multiset(),
        !scramble ==> final(rng).state() == old(rng).state(),
        !scramble && !capitalize ==> result@ == word@,
{
    let shuffled = if scramble {
        transform::scramble(rng, word)
    } else {
        String::from_str(word)
    };
    if capitalize {
        transform::capitalize(shuffled.as_str())
    } else {
        shuffled
    }
}

/// Applies the transforms to each of `words`, in their order.
pub fn format_words(
    rng: &mut RandomSource,
    words: &Vec<String>,
    capitalize: bool,
    scramble: bool,
) -> (result: Vec<String>)
    ensures
        (texts(result@), final(rng).state()) == words_formatted(
            texts(words@),
            old(rng).state(),
            capitalize,
            scramble,
        ),
        result@.len() == words@.len(),
        forall|i: int|
            0 <= i < result@.len() ==> (#[trigger] result@[i]@).len() == words@[i]@.len(),
        !scramble ==> final(rng).state() == old(rng).state(),
        !scramble && !capitalize ==> texts(result@) == texts(words@),
{
    let mut result: Vec<String> = Vec::new();
    let mut i: usize = 0;
    let ghost all = texts(words@);
    assert(texts(result@) =~= Seq::<Seq<char>>::empty());
    assert(all.take(0) =~= Seq::<Seq<char>>::empty());
    while i < words.len()
        invariant
            i <= words.len(),
            all == texts(words@),
            result@.len() == i,
            (texts(result@), rng.state()) == words_formatted(
                all.take(i as int),
                old(rng).state(),
                capitalize,
                scramble,
            ),
            forall|k: int|
                0 <= k < result@.len() ==> (#[trigger] result@[k]@).len() == words@[k]@.len(),
            !scramble ==> rng.state() == old(rng).state(),
            !scramble && !capitalize ==> texts(result@) == all.take(i as int),
        decreases words.len() - i,
    {
        let ghost earlier = texts(result@);
        proof {
            let head = all.take(i + 1);
            assert(head.drop_last() =~= all.take(i as int));
            assert(head.last() == words@[i as int]@);
        }
        let word = format_word(rng, words[i].as_str(), capitalize, scramble);
        result.push(word);
        proof {
            assert(texts(result@) =~= earlier.push(word@));
            if !scramble && !capitalize {
                assert(texts(result@) =~= all.take(i + 1));
            }
        }
        i += 1;
    }
    assert(all.take(words.len() as int) =~= all);
    result
}

/// Generates a memorable password: `word_count` words drawn from `corpus`
/// without taking a position twice, each scrambled and capitalized as asked
/// for, joined with `separator` between every two of them.
///
/// Fails with `CorpusExhausted`, without drawing, exactly when the corpus
/// holds fewer than `word_count` words.
pub fn memorable_password(
    rng: &mut RandomSource,
    corpus: &WordCorpus,
    word_count: usize,
    separator: Separator,
    capitalize: bool,
    scramble: bool,
) -> (result: Result<String, GenerationError>)
    ensures
        result is Ok <==> word_count <= corpus@.len(),
        result matches Ok(password) ==> {
            let words = memorable_words(
                corpus@,
                old(rng).state(),
                word_count as nat,
                capitalize,
                scramble,
            );
            let separators = memorable_separators(
                corpus@,
                old(rng).state(),
                word_count as nat,
                separator,
                capitalize,
                scramble,
            );
            &&& (password@, final(rng).state()) == memorable_run(
                corpus@,
                old(rng).state(),
                word_count as nat,
                separator,
                capitalize,
                scramble,
            )
            &&& password@ == interleaved(words, separators)
            &&& distinct_positions(
                selected_positions(old(rng).state(), corpus@.len(), word_count as nat),
                corpus@.len(),
                word_count as nat,
            )
            &&& words.len() == word_count
            &&& separators.len() == gaps_between(word_count as nat)
            &&& forall|g: int|
                0 <= g < separators.len() ==> separator.admits(#[trigger] separators[g])
        },
        result matches Err(error) ==> error == GenerationError::CorpusExhausted
            && final(rng).state() == old(rng).state(),
{
    let chosen = match get_random_words(rng, corpus, word_count) {
        Ok(words) => words,
        Err(error) => {
            return Err(error);
        },
    };
    let words = format_words(rng, &chosen, capitalize, scramble);
    let separators = draw_separators(rng, separator, gap_count(words.len()));
    proof {
        let gaps = texts(separators@);
        assert forall|g: int| 0 <= g < gaps.len() implies separator.admits(#[trigger] gaps[g]) by {
            assert(gaps[g] == separators@[g]@);
        }
    }
    Ok(join_words(&words, &separators))
}

} // verus!
