//! The word transforms: scrambling and capitalization.

use vstd::prelude::*;
use rand::rngs::StdRng;
use crate::arrangement::picked;
use crate::source::{shuffle_draw, RandomSource};
use crate::text::{chars_of, string_of};

verus! {

/// The upper-case counterpart of an ASCII lower-case letter; any other
/// character itself.
pub open spec fn ascii_uppercase(c: char) -> char {
    if 'a' <= c <= 'z' {
        ((c as u32) - 32) as char
    } else {
        c
    }
}

/// `word` with its first character in ASCII upper case.
pub open spec fn capitalized(word: Seq<char>) -> Seq<char> {
    if word.len() == 0 {
        word
    } else {
        word.update(0, ascii_uppercase(word[0]))
    }
}

/// Putting a character in upper case changes its case at most: the result is
/// the character itself, or the capital of the same letter; and it is in
/// upper case for good.
pub proof fn lemma_uppercase_changes_case_only(c: char)
    ensures
        ascii_uppercase(c) == c || ('a' <= c <= 'z' && 'A' <= ascii_uppercase(c) <= 'Z'
            && ascii_uppercase(c) as int - 'A' as int == c as int - 'a' as int),
        ascii_uppercase(ascii_uppercase(c)) == ascii_uppercase(c),
{
}

/// The ASCII upper-case counterpart of `c`.
pub fn to_ascii_uppercase(c: char) -> (upper: char)
    ensures
        upper == ascii_uppercase(c),
{
    if 'a' <= c && c <= 'z' {
        let code: u8 = c as u8;
        (code - 32) as char
    } else {
        c
    }
}

/// Capitalizes `word`: its first character is put in ASCII upper case, the
/// others and the length stay as they are.
pub fn capitalize(word: &str) -> (result: String)
    ensures
        result@ == capitalized(word@),
        result@.len() == word@.len(),
        word@.len() > 0 ==> result@[0] == ascii_uppercase(word@[0]),
        forall|i: int| 1 <= i < word@.len() ==> result@[i] == word@[i],
{
    let mut chars = chars_of(word);
    if chars.len() > 0 {
        let first = to_ascii_uppercase(chars[0]);
        chars.set(0, first);
    }
    string_of(&chars)
}

/// `word` in the order into which a shuffle in `state` puts it.
pub open spec fn scrambled(word: Seq<char>, state: StdRng) -> Seq<char> {
    picked(word, shuffle_draw(state, word.len()).0)
}

/// The state in which scrambling a word of `len` characters leaves a source
/// that was in `state`.
pub open spec fn state_after_scramble(len: nat, state: StdRng) -> StdRng {
    shuffle_draw(state, len).1
}

/// Scrambles `word`: its characters are put into a random order, each of
/// them as often as it was there.
pub fn scramble(rng: &mut RandomSource, word: &str) -> (result: String)
    ensures
        result@ == scrambled(word@, old(rng).state()),
        final(rng).state() == state_after_scramble(word@.len(), old(rng).state()),
        result@.to_multiset() == word@.to_multiset(),
        result@.len() == word@.len(),
{
    let mut chars = chars_of(word);
    rng.shuffle(&mut chars);
    string_of(&chars)
}

} // verus!
