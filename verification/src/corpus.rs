//! The word corpus: the ordered list of candidate words for memorable
//! passwords.

use vstd::prelude::*;
use vstd::utf8::encode_utf8;
use vstd::string::StringSliceAdditionalSpecFns;
use crate::text::{lines_of, split_lines, texts};

verus! {

/// The least length, in bytes of UTF-8, of a word that the corpus keeps.
pub const MIN_WORD_LENGTH: usize = 4;

/// The length of `word` in bytes of UTF-8.
pub open spec fn byte_length(word: Seq<char>) -> nat {
    encode_utf8(word).len()
}

/// Whether `word` is long enough to stand in the corpus.
pub open spec fn long_enough(word: Seq<char>) -> bool {
    byte_length(word) >= MIN_WORD_LENGTH
}

/// `long_enough` as a predicate to filter by.
pub open spec fn keeps() -> spec_fn(Seq<char>) -> bool {
    |word: Seq<char>| long_enough(word)
}

/// An immutable, ordered list of words, each of them long enough.
pub struct WordCorpus {
    words: Vec<String>,
}

impl View for WordCorpus {
    type V = Seq<Seq<char>>;

    closed spec fn view(&self) -> Seq<Seq<char>> {
        texts(self.words@)
    }
}

impl WordCorpus {
    #[verifier::type_invariant]
    spec fn every_word_long_enough(&self) -> bool {
        forall|i: int| 0 <= i < self.words@.len() ==> long_enough(#[trigger] self.words@[i]@)
    }

    /// Builds the corpus from candidate lines: the lines that are long
    /// enough are kept, in their order.
    pub fn from_lines(lines: &Vec<String>) -> (corpus: WordCorpus)
        ensures
            corpus@ == texts(lines@).filter(keeps()),
            forall|i: int| 0 <= i < corpus@.len() ==> long_enough(#[trigger] corpus@[i]),
    {
        let mut words: Vec<String> = Vec::new();
        let mut i: usize = 0;
        proof {
            reveal(Seq::filter);
            assert(texts(lines@).take(0) =~= Seq::<Seq<char>>::empty());
            assert(texts(words@) =~= Seq::<Seq<char>>::empty());
        }
        while i < lines.len()
            invariant
                i <= lines.len(),
                texts(words@) == texts(lines@).take(i as int).filter(keeps()),
                forall|k: int| 0 <= k < words@.len() ==> long_enough(#[trigger] words@[k]@),
            decreases lines.len() - i,
        {
            let line = &lines[i];
            let ghost before = texts(words@);
            proof {
                let head = texts(lines@).take(i as int);
                assert(texts(lines@).take(i + 1) =~= head.push(line@));
                head.lemma_filter_push(line@, keeps());
            }
            if line.as_str().as_bytes().len() >= MIN_WORD_LENGTH {
                words.push(line.clone());
                assert(texts(words@) =~= before.push(line@));
            }
            i += 1;
        }
        assert(texts(lines@).take(lines.len() as int) =~= texts(lines@));
        WordCorpus { words }
    }

    /// Builds the corpus from a text that holds one candidate word on each
    /// line.
    pub fn from_text(text: &str) -> (corpus: WordCorpus)
        ensures
            corpus@ == lines_of(text@).filter(keeps()),
            forall|i: int| 0 <= i < corpus@.len() ==> long_enough(#[trigger] corpus@[i]),
    {
        let lines = split_lines(text);
        WordCorpus::from_lines(&lines)
    }

    /// The number of words in the corpus.
    pub fn len(&self) -> (n: usize)
        ensures
            n == self@.len(),
    {
        self.words.len()
    }

    /// Whether the corpus holds no word.
    pub fn is_empty(&self) -> (empty: bool)
        ensures
            empty == (self@.len() == 0),
    {
        self.words.len() == 0
    }

    /// The word at `index`.
    pub fn word(&self, index: usize) -> (word: &String)
        requires
            index < self@.len(),
        ensures
            word@ == self@[index as int],
            long_enough(word@),
    {
        proof {
            use_type_invariant(self);
        }
        &self.words[index]
    }

    /// The words of the corpus, for the draws that pick among them.
    pub(crate) fn words(&self) -> (words: &Vec<String>)
        ensures
            texts(words@) == self@,
            forall|i: int| 0 <= i < words@.len() ==> long_enough(#[trigger] words@[i]@),
    {
        proof {
            use_type_invariant(self);
        }
        &self.words
    }
}

} // verus!
