//! PIN codes: digits drawn one by one.

use vstd::prelude::*;
use rand::rngs::StdRng;
use crate::alphabet::{digit_at, digit_chars, is_digit, DIGIT_COUNT};
use crate::source::{range_draw, RandomSource};
use crate::text::push_char;

verus! {

/// The PIN of `digits` digits that is generated when the source is in
/// `state`, and the state in which generating it leaves the source: each
/// digit is the one that a draw from `0..10` selects, in the order drawn.
pub open spec fn pin_run(state: StdRng, digits: nat) -> (Seq<char>, StdRng)
    decreases digits,
{
    if digits == 0 {
        (Seq::empty(), state)
    } else {
        let (earlier, middle) = pin_run(state, (digits - 1) as nat);
        let (index, next) = range_draw(middle, 0, DIGIT_COUNT);
        (earlier.push(digit_chars()[index as int]), next)
    }
}

/// Generates a PIN of `numbers` digits, each drawn on its own from `0` to `9`.
pub fn pin_password(rng: &mut RandomSource, numbers: u32) -> (pin: String)
    ensures
        (pin@, final(rng).state()) == pin_run(old(rng).state(), numbers as nat),
        pin@.len() == numbers,
        forall|i: int| 0 <= i < pin@.len() ==> is_digit(#[trigger] pin@[i]),
{
    let mut pin = String::new();
    let mut drawn: u32 = 0;
    while drawn < numbers
        invariant
            drawn <= numbers,
            (pin@, rng.state()) == pin_run(old(rng).state(), drawn as nat),
            pin@.len() == drawn,
            forall|i: int| 0 <= i < pin@.len() ==> is_digit(#[trigger] pin@[i]),
        decreases numbers - drawn,
    {
        let index = rng.uniform_in_range(0, DIGIT_COUNT);
        push_char(&mut pin, digit_at(index));
        drawn += 1;
    }
    pin
}

} // verus!
