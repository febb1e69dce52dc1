//! The bounds that a request's counts are held to before generation.

use vstd::prelude::*;
use vstd::string::StringExecFns;
use crate::alphabet::is_digit;

verus! {

/// Fewest words of a memorable password.
pub const MIN_WORDS: u32 = 3;

/// Most words of a memorable password.
pub const MAX_WORDS: u32 = 15;

/// Fewest characters of a random password.
pub const MIN_CHARACTERS: u32 = 8;

/// Most characters of a random password.
pub const MAX_CHARACTERS: u32 = 100;

/// Fewest digits of a PIN.
pub const MIN_PIN_DIGITS: u32 = 3;

/// Most digits of a PIN.
pub const MAX_PIN_DIGITS: u32 = 12;

/// The number that `digits` writes in base ten.
pub open spec fn decimal_value(digits: Seq<char>) -> nat
    decreases digits.len(),
{
    if digits.len() == 0 {
        0
    } else {
        decimal_value(digits.drop_last()) * 10 + (digits.last() as nat - '0' as nat) as nat
    }
}

/// The number that `text` writes as a `u32`: an optional plus sign, then at
/// least one decimal digit and nothing else, of a value that fits.
pub open spec fn parsed_u32(text: Seq<char>) -> Option<u32> {
    let digits = if text.len() > 0 && text[0] == '+' {
        text.drop_first()
    } else {
        text
    };
    if digits.len() > 0 && (forall|i: int| 0 <= i < digits.len() ==> is_digit(#[trigger] digits[i]))
        && decimal_value(digits) <= u32::MAX {
        Some(decimal_value(digits) as u32)
    } else {
        None
    }
}

/// `str::parse` to a `u32`: the number that the text writes in base ten,
/// or nothing where it writes none that fits.
#[verifier::external_body]
fn parse_u32(text: &str) -> (value: Option<u32>)
    ensures
        value == parsed_u32(text@),
{
    text.parse::<u32>().ok()
}

/// What is made of a count that was read from text, held to `low..=high`.
pub open spec fn bounded(parsed: Option<u32>, low: u32, high: u32) -> Option<u32> {
    match parsed {
        Some(n) if low <= n <= high => Some(n),
        _ => None,
    }
}

/// Holds a count that was read from text to `low..=high`.  A count outside
/// the bounds is refused with `out_of_bounds`, text that is no number with
/// a message that says so.
pub fn check_count(parsed: Option<u32>, low: u32, high: u32, out_of_bounds: &str) -> (result:
    Result<u32, String>)
    ensures
        result is Ok <==> bounded(parsed, low, high) is Some,
        result matches Ok(n) ==> bounded(parsed, low, high) == Some(n),
        result matches Err(message) ==> message@ == (if parsed is Some {
            out_of_bounds@
        } else {
            "The number of words must be an integer"@
        }),
{
    match parsed {
        Some(n) => {
            if low <= n && n <= high {
                Ok(n)
            } else {
                Err(String::from_str(out_of_bounds))
            }
        },
        None => Err(String::from_str("The number of words must be an integer")),
    }
}

/// Reads the number of words of a memorable password, which lies between 3
/// and 15.
pub fn validate_word_count(s: &str) -> (result: Result<u32, String>)
    ensures
        result is Ok <==> bounded(parsed_u32(s@), MIN_WORDS, MAX_WORDS) is Some,
        result matches Ok(n) ==> parsed_u32(s@) == Some(n) && MIN_WORDS <= n <= MAX_WORDS,
        result matches Err(message) ==> message@ == (if parsed_u32(s@) is Some {
            "The number of words must be between 4 and 15"@
        } else {
            "The number of words must be an integer"@
        }),
{
    check_count(parse_u32(s), MIN_WORDS, MAX_WORDS, "The number of words must be between 4 and 15")
}

/// Reads the number of characters of a random password, which lies between
/// 8 and 100.
pub fn validate_character_count(s: &str) -> (result: Result<u32, String>)
    ensures
        result is Ok <==> bounded(parsed_u32(s@), MIN_CHARACTERS, MAX_CHARACTERS) is Some,
        result matches Ok(n) ==> parsed_u32(s@) == Some(n) && MIN_CHARACTERS <= n
            <= MAX_CHARACTERS,
        result matches Err(message) ==> message@ == (if parsed_u32(s@) is Some {
            "The number of words must be between 8 and 100"@
        } else {
            "The number of words must be an integer"@
        }),
{
    check_count(
        parse_u32(s),
        MIN_CHARACTERS,
        MAX_CHARACTERS,
        "The number of words must be between 8 and 100",
    )
}

/// Reads the number of digits of a PIN, which lies between 3 and 12.
pub fn validate_pin_length(s: &str) -> (result: Result<u32, String>)
    ensures
        result is Ok <==> bounded(parsed_u32(s@), MIN_PIN_DIGITS, MAX_PIN_DIGITS) is Some,
        result matches Ok(n) ==> parsed_u32(s@) == Some(n) && MIN_PIN_DIGITS <= n
            <= MAX_PIN_DIGITS,
        result matches Err(message) ==> message@ == (if parsed_u32(s@) is Some {
            "The number of words must be between 3 and 12"@
        } else {
            "The number of words must be an integer"@
        }),
{
    check_count(
        parse_u32(s),
        MIN_PIN_DIGITS,
        MAX_PIN_DIGITS,
        "The number of words must be between 3 and 12",
    )
}

} // verus!
