//! The separator policy: what stands between the words of a memorable
//! password.

use vstd::prelude::*;
use vstd::string::StringExecFns;
use rand::rngs::StdRng;
use crate::alphabet::{
    digit_at, digit_chars, is_digit, is_letter, is_symbol, symbol_at, symbol_chars, DIGIT_COUNT,
    SYMBOL_COUNT,
};
use crate::source::{range_draw, RandomSource};
use crate::text::{push_char, texts};

verus! {

/// The rule that gives the separator of each gap between two words.
#[derive(Copy, Clone, Debug, PartialEq, Eq, PartialOrd, Ord, Structural)]
pub enum Separator {
    /// A space in every gap.
    Space,
    /// A comma in every gap.
    Comma,
    /// A hyphen in every gap.
    Hyphen,
    /// A period in every gap.
    Period,
    /// An underscore in every gap.
    Underscore,
    /// A digit in every gap, drawn anew for each.
    Numbers,
    /// A symbol or a digit in every gap, drawn anew for each.
    NumbersAndSymbols,
    /// Nothing: the words follow each other directly.
    Empty,
}

/// Number of characters that a symbol-or-digit separator is drawn from.
pub const SEPARATOR_CHAR_COUNT: usize = 20;

/// The characters that a symbol-or-digit separator is drawn from, as one
/// flat alphabet: the symbols, then the digits.
pub open spec fn separator_chars() -> Seq<char> {
    symbol_chars() + digit_chars()
}

impl Separator {
    /// Whether the separator is drawn from the randomness source.
    pub open spec fn is_drawn(self) -> bool {
        self == Separator::Numbers || self == Separator::NumbersAndSymbols
    }

    /// The text that a separator that is not drawn puts into every gap.
    pub open spec fn literal(self) -> Seq<char> {
        match self {
            Separator::Space => seq![' '],
            Separator::Comma => seq![','],
            Separator::Hyphen => seq!['-'],
            Separator::Period => seq!['.'],
            Separator::Underscore => seq!['_'],
            _ => Seq::empty(),
        }
    }

    /// Whether `text` can stand in a gap under this separator.
    pub open spec fn admits(self, text: Seq<char>) -> bool {
        match self {
            Separator::Numbers => text.len() == 1 && is_digit(text[0]) && !is_letter(text[0]),
            Separator::NumbersAndSymbols => {
                text.len() == 1 && (is_digit(text[0]) || is_symbol(text[0]))
            },
            _ => text == self.literal(),
        }
    }
}

/// The text that `separator` puts into one gap when the source is in
/// `state`, and the state in which that leaves the source.
pub open spec fn gap_draw(separator: Separator, state: StdRng) -> (Seq<char>, StdRng) {
    match separator {
        Separator::Numbers => {
            let (index, next) = range_draw(state, 0, DIGIT_COUNT);
            (seq![digit_chars()[index as int]], next)
        },
        Separator::NumbersAndSymbols => {
            let (index, next) = range_draw(state, 0, SEPARATOR_CHAR_COUNT);
            (seq![separator_chars()[index as int]], next)
        },
        _ => (separator.literal(), state),
    }
}

/// The texts that `separator` puts into `gaps` gaps, one after the other,
/// starting with the source in `state`, and the state in which that leaves
/// the source.
pub open spec fn gap_draws(separator: Separator, state: StdRng, gaps: nat) -> (
    Seq<Seq<char>>,
    StdRng,
)
    decreases gaps,
{
    if gaps == 0 {
        (Seq::empty(), state)
    } else {
        let (earlier, middle) = gap_draws(separator, state, (gaps - 1) as nat);
        let (text, next) = gap_draw(separator, middle);
        (earlier.push(text), next)
    }
}

/// The number of gaps between `words` words.
pub open spec fn gaps_between(words: nat) -> nat {
    if words == 0 {
        0
    } else {
        (words - 1) as nat
    }
}

/// `words` joined, with `separators[i]` between `words[i]` and `words[i + 1]`.
pub open spec fn interleaved(words: Seq<Seq<char>>, separators: Seq<Seq<char>>) -> Seq<char>
    decreases words.len(),
{
    if words.len() == 0 {
        Seq::empty()
    } else if words.len() == 1 {
        words[0]
    } else {
        interleaved(words.drop_last(), separators.drop_last()) + separators.last() + words.last()
    }
}

/// The character at `index` of the symbol-or-digit alphabet.
pub fn separator_char_at(index: usize) -> (c: char)
    requires
        index < SEPARATOR_CHAR_COUNT,
    ensures
        c == separator_chars()[index as int],
        is_digit(c) || is_symbol(c),
{
    if index < SYMBOL_COUNT {
        symbol_at(index)
    } else {
        digit_at(index - SYMBOL_COUNT)
    }
}

/// The number of gaps between `words` words.
pub fn gap_count(words: usize) -> (gaps: usize)
    ensures
        gaps == gaps_between(words as nat),
{
    if words == 0 {
        0
    } else {
        words - 1
    }
}

/// The separator of one gap.  A digit or a symbol-or-digit separator makes
/// one draw; the others make none.
pub fn draw_separator(rng: &mut RandomSource, separator: Separator) -> (text: String)
    ensures
        (text@, final(rng).state()) == gap_draw(separator, old(rng).state()),
        separator.admits(text@),
        !separator.is_drawn() ==> final(rng).state() == old(rng).state(),
{
    let mut text = String::new();
    match separator {
        Separator::Space => push_char(&mut text, ' '),
        Separator::Comma => push_char(&mut text, ','),
        Separator::Hyphen => push_char(&mut text, '-'),
        Separator::Period => push_char(&mut text, '.'),
        Separator::Underscore => push_char(&mut text, '_'),
        Separator::Numbers => {
            let index = rng.uniform_in_range(0, DIGIT_COUNT);
            push_char(&mut text, digit_at(index));
        },
        Separator::NumbersAndSymbols => {
            let index = rng.uniform_in_range(0, SEPARATOR_CHAR_COUNT);
            push_char(&mut text, separator_char_at(index));
        },
        Separator::Empty => {},
    }
    assert(text@ =~= gap_draw(separator, old(rng).state()).0);
    text
}

/// The separators of `gaps` gaps, drawn one after the other.
pub fn draw_separators(
    rng: &mut RandomSource,
    separator: Separator,
    gaps: usize,
) -> (separators: Vec<String>)
    ensures
        (texts(separators@), final(rng).state()) == gap_draws(
            separator,
            old(rng).state(),
            gaps as nat,
        ),
        separators@.len() == gaps,
        forall|g: int| 0 <= g < separators@.len() ==> separator.admits(#[trigger] separators@[g]@),
        !separator.is_drawn() ==> final(rng).state() == old(rng).state(),
{
    let mut separators: Vec<String> = Vec::new();
    let mut g: usize = 0;
    assert(texts(separators@) =~= Seq::<Seq<char>>::empty());
    while g < gaps
        invariant
            g <= gaps,
            separators@.len() == g,
            (texts(separators@), rng.state()) == gap_draws(separator, old(rng).state(), g as nat),
            forall|k: int|
                0 <= k < separators@.len() ==> separator.admits(#[trigger] separators@[k]@),
            !separator.is_drawn() ==> rng.state() == old(rng).state(),
        decreases gaps - g,
    {
        let ghost earlier = texts(separators@);
        let text = draw_separator(rng, separator);
        separators.push(text);
        assert(texts(separators@) =~= earlier.push(text@));
        g += 1;
    }
    separators
}

/// Joins `words`, with `separators[i]` between the words `i` and `i + 1`:
/// nothing stands before the first word or after the last.
pub fn join_words(words: &Vec<String>, separators: &Vec<String>) -> (text: String)
    requires
        separators@.len() == gaps_between(words@.len()),
    ensures
        text@ == interleaved(texts(words@), texts(separators@)),
{
    let mut text = String::new();
    let mut i: usize = 0;
    let ghost all_words = texts(words@);
    let ghost all_gaps = texts(separators@);
    while i < words.len()
        invariant
            i <= words.len(),
            separators@.len() == gaps_between(words@.len()),
            all_words == texts(words@),
            all_gaps == texts(separators@),
            text@ == interleaved(
                all_words.take(i as int),
                all_gaps.take(gaps_between(i as nat) as int),
            ),
        decreases words.len() - i,
    {
        proof {
            let head = all_words.take(i + 1);
            assert(head.drop_last() =~= all_words.take(i as int));
            assert(head.last() == words@[i as int]@);
            if i > 0 {
                let gaps = all_gaps.take(i as int);
                assert(gaps.drop_last() =~= all_gaps.take(i - 1));
                assert(gaps.last() == separators@[i - 1]@);
            }
        }
        if i > 0 {
            text.append(separators[i - 1].as_str());
        }
        text.append(words[i].as_str());
        i += 1;
    }
    proof {
        assert(all_words.take(words.len() as int) =~= all_words);
        assert(all_gaps.take(separators.len() as int) =~= all_gaps);
    }
    text
}

} // verus!
