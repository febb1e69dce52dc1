//! The three disjoint character classes that passwords are drawn from.

use vstd::prelude::*;

verus! {

/// Number of characters in the letter class.
pub const LETTER_COUNT: usize = 52;

/// Number of characters in the digit class.
pub const DIGIT_COUNT: usize = 10;

/// Number of characters in the symbol class.
pub const SYMBOL_COUNT: usize = 10;

/// The letter alphabet: lower case `a` to `z`, then upper case `A` to `Z`.
pub open spec fn letter_chars() -> Seq<char> {
    seq![
        'a', 'b', 'c', 'd', 'e', 'f', 'g', 'h', 'i', 'j', 'k', 'l', 'm',
        'n', 'o', 'p', 'q', 'r', 's', 't', 'u', 'v', 'w', 'x', 'y', 'z',
        'A', 'B', 'C', 'D', 'E', 'F', 'G', 'H', 'I', 'J', 'K', 'L', 'M',
        'N', 'O', 'P', 'Q', 'R', 'S', 'T', 'U', 'V', 'W', 'X', 'Y', 'Z',
    ]
}

/// The digit alphabet, `0` to `9`.
pub open spec fn digit_chars() -> Seq<char> {
    seq!['0', '1', '2', '3', '4', '5', '6', '7', '8', '9']
}

/// The symbol alphabet.
pub open spec fn symbol_chars() -> Seq<char> {
    seq!['!', '@', '#', '$', '%', '^', '&', '*', '(', ')']
}

/// Whether `c` is one of the ten decimal digits.
pub open spec fn is_digit(c: char) -> bool {
    '0' <= c <= '9'
}

/// Whether `c` is an ASCII letter of either case.
pub open spec fn is_letter(c: char) -> bool {
    ('a' <= c <= 'z') || ('A' <= c <= 'Z')
}

/// Whether `c` is one of the ten symbols.
pub open spec fn is_symbol(c: char) -> bool {
    symbol_chars().contains(c)
}

/// A class of characters that a random password may draw from.
#[derive(Copy, Clone, Debug, PartialEq, Eq, Structural)]
pub enum CharacterClass {
    Letters,
    Digits,
    Symbols,
}

impl CharacterClass {
    /// The characters of the class, in the order in which an index selects them.
    pub open spec fn alphabet(self) -> Seq<char> {
        match self {
            CharacterClass::Letters => letter_chars(),
            CharacterClass::Digits => digit_chars(),
            CharacterClass::Symbols => symbol_chars(),
        }
    }

    /// Whether `c` belongs to the class.
    pub open spec fn holds(self, c: char) -> bool {
        match self {
            CharacterClass::Letters => is_letter(c),
            CharacterClass::Digits => is_digit(c),
            CharacterClass::Symbols => is_symbol(c),
        }
    }

    /// The number of characters in the class.
    pub fn size(self) -> (n: usize)
        ensures
            n == self.alphabet().len(),
            n > 0,
    {
        match self {
            CharacterClass::Letters => LETTER_COUNT,
            CharacterClass::Digits => DIGIT_COUNT,
            CharacterClass::Symbols => SYMBOL_COUNT,
        }
    }

    /// The character that stands at `index` in the class's alphabet.
    pub fn char_at(self, index: usize) -> (c: char)
        requires
            index < self.alphabet().len(),
        ensures
            c == self.alphabet()[index as int],
            self.holds(c),
    {
        match self {
            CharacterClass::Letters => letter_at(index),
            CharacterClass::Digits => digit_at(index),
            CharacterClass::Symbols => symbol_at(index),
        }
    }
}

/// The letter that stands at `index` in the letter alphabet.
pub fn letter_at(index: usize) -> (c: char)
    requires
        index < LETTER_COUNT,
    ensures
        c == letter_chars()[index as int],
        is_letter(c),
{
    let letters: [char; 52] = [
        'a', 'b', 'c', 'd', 'e', 'f', 'g', 'h', 'i', 'j', 'k', 'l', 'm',
        'n', 'o', 'p', 'q', 'r', 's', 't', 'u', 'v', 'w', 'x', 'y', 'z',
        'A', 'B', 'C', 'D', 'E', 'F', 'G', 'H', 'I', 'J', 'K', 'L', 'M',
        'N', 'O', 'P', 'Q', 'R', 'S', 'T', 'U', 'V', 'W', 'X', 'Y', 'Z',
    ];
    letters[index]
}

/// The digit that stands at `index` in the digit alphabet.
pub fn digit_at(index: usize) -> (c: char)
    requires
        index < DIGIT_COUNT,
    ensures
        c == digit_chars()[index as int],
        is_digit(c),
{
    let digits: [char; 10] = ['0', '1', '2', '3', '4', '5', '6', '7', '8', '9'];
    digits[index]
}

/// The symbol that stands at `index` in the symbol alphabet.
pub fn symbol_at(index: usize) -> (c: char)
    requires
        index < SYMBOL_COUNT,
    ensures
        c == symbol_chars()[index as int],
        is_symbol(c),
{
    let symbols: [char; 10] = ['!', '@', '#', '$', '%', '^', '&', '*', '(', ')'];
    symbols[index]
}

/// No character belongs to two classes.
pub proof fn lemma_classes_disjoint(c: char)
    ensures
        !(is_letter(c) && is_digit(c)),
        !(is_letter(c) && is_symbol(c)),
        !(is_digit(c) && is_symbol(c)),
{
    if is_symbol(c) {
        let i = choose|i: int| 0 <= i < symbol_chars().len() && symbol_chars()[i] == c;
        assert(0 <= i < 10);
    }
}

} // verus!
