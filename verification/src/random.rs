//! Random passwords: for each character a class is chosen by weight, then
//! a character of that class uniformly.

use vstd::prelude::*;
use vstd::pervasive::unreached;
use rand::rngs::StdRng;
use crate::alphabet::{is_digit, is_letter, is_symbol, CharacterClass};
use crate::source::{
    total_weight, uniform_draw, usable_weights, weighted_draw, RandomSource,
};
use crate::text::push_char;

verus! {

/// The classes that a random password draws from, in the order in which a
/// weighted choice numbers them: the letters, then the digits if asked for,
/// then the symbols if asked for.
pub open spec fn enabled_classes(numbers: bool, symbols: bool) -> Seq<CharacterClass> {
    if numbers && symbols {
        seq![CharacterClass::Letters, CharacterClass::Digits, CharacterClass::Symbols]
    } else if numbers {
        seq![CharacterClass::Letters, CharacterClass::Digits]
    } else if symbols {
        seq![CharacterClass::Letters, CharacterClass::Symbols]
    } else {
        seq![CharacterClass::Letters]
    }
}

/// The weights of the enabled classes, in their order: 7, 2 and 1 for all
/// three classes, 8 and 2 for letters and one other, 10 for letters alone.
pub open spec fn class_weights(numbers: bool, symbols: bool) -> Seq<u32> {
    if numbers && symbols {
        seq![7u32, 2u32, 1u32]
    } else if numbers || symbols {
        seq![8u32, 2u32]
    } else {
        seq![10u32]
    }
}

/// Whether `c` may occur in a random password with these classes enabled.
pub open spec fn admitted(numbers: bool, symbols: bool, c: char) -> bool {
    is_letter(c) || (numbers && is_digit(c)) || (symbols && is_symbol(c))
}

/// The character that the draws `class_index` and `char_index` select.
pub open spec fn selected_char(
    numbers: bool,
    symbols: bool,
    class_index: int,
    char_index: int,
) -> char {
    enabled_classes(numbers, symbols)[class_index].alphabet()[char_index]
}

/// The character that is generated when the source is in `state`, and the
/// state in which that leaves the source: a weighted choice selects the
/// class, then a uniform sample selects the character in it.
pub open spec fn char_draw(state: StdRng, numbers: bool, symbols: bool) -> (char, StdRng) {
    let (class_index, middle) = weighted_draw(state, class_weights(numbers, symbols));
    let size = enabled_classes(numbers, symbols)[class_index as int].alphabet().len();
    let (char_index, next) = uniform_draw(middle, 0, size as usize);
    (selected_char(numbers, symbols, class_index as int, char_index as int), next)
}

/// The random password of `characters` characters that is generated when
/// the source is in `state`, and the state in which generating it leaves the
/// source.
pub open spec fn random_run(state: StdRng, characters: nat, numbers: bool, symbols: bool) -> (
    Seq<char>,
    StdRng,
)
    decreases characters,
{
    if characters == 0 {
        (Seq::empty(), state)
    } else {
        let (earlier, middle) = random_run(state, (characters - 1) as nat, numbers, symbols);
        let (c, next) = char_draw(middle, numbers, symbols);
        (earlier.push(c), next)
    }
}

/// The weights of the table form a distribution.
pub proof fn lemma_class_weights_usable(numbers: bool, symbols: bool)
    ensures
        usable_weights(class_weights(numbers, symbols)),
        total_weight(class_weights(numbers, symbols)) == 10,
        class_weights(numbers, symbols).len() == enabled_classes(numbers, symbols).len(),
{
    reveal_with_fuel(total_weight, 4);
    let weights = class_weights(numbers, symbols);
    if weights.len() == 3 {
        assert(weights.drop_last() =~= seq![7u32, 2u32]);
        assert(weights.drop_last().drop_last() =~= seq![7u32]);
        assert(weights.drop_last().drop_last().drop_last() =~= Seq::<u32>::empty());
    } else if weights.len() == 2 {
        assert(weights.drop_last() =~= seq![8u32]);
        assert(weights.drop_last().drop_last() =~= Seq::<u32>::empty());
    } else {
        assert(weights.drop_last() =~= Seq::<u32>::empty());
    }
}

/// The enabled classes, in the order in which a weighted choice numbers them.
pub fn available_classes(numbers: bool, symbols: bool) -> (classes: Vec<CharacterClass>)
    ensures
        classes@ == enabled_classes(numbers, symbols),
{
    let mut classes: Vec<CharacterClass> = Vec::new();
    classes.push(CharacterClass::Letters);
    if numbers {
        classes.push(CharacterClass::Digits);
    }
    if symbols {
        classes.push(CharacterClass::Symbols);
    }
    assert(classes@ =~= enabled_classes(numbers, symbols));
    classes
}

/// The weights of the enabled classes, in their order.
pub fn weights_for(numbers: bool, symbols: bool) -> (weights: Vec<u32>)
    ensures
        weights@ == class_weights(numbers, symbols),
        usable_weights(weights@),
{
    let mut weights: Vec<u32> = Vec::new();
    if numbers && symbols {
        weights.push(7);
        weights.push(2);
        weights.push(1);
    } else if numbers || symbols {
        weights.push(8);
        weights.push(2);
    } else {
        weights.push(10);
    }
    proof {
        assert(weights@ =~= class_weights(numbers, symbols));
        lemma_class_weights_usable(numbers, symbols);
    }
    weights
}

/// The character that two draws select: `class_index` among the enabled
/// classes, `char_index` in the alphabet of that class.
pub fn password_char(
    numbers: bool,
    symbols: bool,
    class_index: usize,
    char_index: usize,
) -> (c: char)
    requires
        class_index < enabled_classes(numbers, symbols).len(),
        char_index < enabled_classes(numbers, symbols)[class_index as int].alphabet().len(),
    ensures
        c == selected_char(numbers, symbols, class_index as int, char_index as int),
        admitted(numbers, symbols, c),
{
    let classes = available_classes(numbers, symbols);
    classes[class_index].char_at(char_index)
}

/// Generates a random password of `characters` characters.  Each character
/// is drawn on its own: its class by weight among the enabled classes, then
/// the character uniformly in the alphabet of that class.
pub fn random_password(
    rng: &mut RandomSource,
    characters: u32,
    numbers: bool,
    symbols: bool,
) -> (password: String)
    ensures
        (password@, final(rng).state()) == random_run(
            old(rng).state(),
            characters as nat,
            numbers,
            symbols,
        ),
        password@.len() == characters,
        forall|i: int|
            0 <= i < password@.len() ==> admitted(numbers, symbols, #[trigger] password@[i]),
{
    let classes = available_classes(numbers, symbols);
    let weights = weights_for(numbers, symbols);
    let mut password = String::new();
    let mut drawn: u32 = 0;
    proof {
        lemma_class_weights_usable(numbers, symbols);
    }
    while drawn < characters
        invariant
            drawn <= characters,
            classes@ == enabled_classes(numbers, symbols),
            weights@ == class_weights(numbers, symbols),
            usable_weights(weights@),
            weights@.len() == classes@.len(),
            (password@, rng.state()) == random_run(
                old(rng).state(),
                drawn as nat,
                numbers,
                symbols,
            ),
            password@.len() == drawn,
            forall|i: int|
                0 <= i < password@.len() ==> admitted(numbers, symbols, #[trigger] password@[i]),
        decreases characters - drawn,
    {
        let class_index = match rng.weighted_choice(&weights) {
            Ok(index) => index,
            Err(_) => unreached(),
        };
        let size = classes[class_index].size();
        let char_index = rng.sample_uniform(0, size);
        push_char(&mut password, password_char(numbers, symbols, class_index, char_index));
        drawn += 1;
    }
    password
}

} // verus!
