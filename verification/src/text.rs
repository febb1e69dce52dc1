//! Conversions between strings and vectors of characters, and the lines of
//! a text.

use vstd::prelude::*;

verus! {

/// The character sequences of `words`.
pub open spec fn texts(words: Seq<String>) -> Seq<Seq<char>> {
    Seq::new(words.len(), |i: int| words[i]@)
}

/// `String::push`: the character is appended at the end.
#[verifier::external_body]
pub(crate) fn push_char(text: &mut String, c: char)
    ensures
        final(text)@ == old(text)@.push(c),
{
    text.push(c)
}

/// The characters of `text`, in order.
pub fn chars_of(text: &str) -> (chars: Vec<char>)
    ensures
        chars@ == text@,
{
    let mut chars: Vec<char> = Vec::new();
    for c in it: text.chars()
        invariant
            it.seq() == text@,
            chars@ == it.seq().take(it.index() as int),
    {
        chars.push(c);
    }
    chars
}

/// The string made of `chars`, in order.
pub fn string_of(chars: &Vec<char>) -> (text: String)
    ensures
        text@ == chars@,
{
    let mut text = String::new();
    let mut i: usize = 0;
    while i < chars.len()
        invariant
            i <= chars.len(),
            text@ == chars@.take(i as int),
        decreases chars.len() - i,
    {
        push_char(&mut text, chars[i]);
        assert(chars@.take(i + 1) =~= chars@.take(i as int).push(chars@[i as int]));
        i += 1;
    }
    assert(chars@.take(chars.len() as int) =~= chars@);
    text
}

/// `line` without the carriage return that stands at its end, if one does.
pub open spec fn without_return(line: Seq<char>) -> Seq<char> {
    if line.len() > 0 && line.last() == '\r' {
        line.drop_last()
    } else {
        line
    }
}

/// The characters of `text` that follow its last newline.
pub open spec fn open_line(text: Seq<char>) -> Seq<char>
    decreases text.len(),
{
    if text.len() == 0 || text.last() == '\n' {
        Seq::empty()
    } else {
        open_line(text.drop_last()).push(text.last())
    }
}

/// The lines of `text` that a newline ends, each without the newline and
/// without a carriage return that stands before it.
pub open spec fn ended_lines(text: Seq<char>) -> Seq<Seq<char>>
    decreases text.len(),
{
    if text.len() == 0 {
        Seq::empty()
    } else if text.last() == '\n' {
        ended_lines(text.drop_last()).push(without_return(open_line(text.drop_last())))
    } else {
        ended_lines(text.drop_last())
    }
}

/// The lines of `text`.  A line ends with a newline, or with a carriage
/// return and a newline; the last line needs no ending, and no empty line
/// follows the last ending.
pub open spec fn lines_of(text: Seq<char>) -> Seq<Seq<char>> {
    if open_line(text).len() > 0 {
        ended_lines(text).push(open_line(text))
    } else {
        ended_lines(text)
    }
}

/// Splits `text` into its lines.
pub fn split_lines(text: &str) -> (lines: Vec<String>)
    ensures
        texts(lines@) == lines_of(text@),
{
    let mut lines: Vec<String> = Vec::new();
    let mut current: Vec<char> = Vec::new();
    assert(texts(lines@) =~= Seq::<Seq<char>>::empty());
    assert(text@.take(0) =~= Seq::<char>::empty());
    for c in it: text.chars()
        invariant
            it.seq() == text@,
            texts(lines@) == ended_lines(text@.take(it.index() as int)),
            current@ == open_line(text@.take(it.index() as int)),
    {
        let ghost before = text@.take(it.index() as int);
        let ghost ended = texts(lines@);
        proof {
            let now = text@.take(it.index() + 1);
            assert(now.drop_last() =~= before);
            assert(now.last() == c);
        }
        if c == '\n' {
            if current.len() > 0 && current[current.len() - 1] == '\r' {
                current.pop();
                assert(current@ =~= without_return(open_line(before)));
            }
            let line = string_of(&current);
            lines.push(line);
            assert(texts(lines@) =~= ended.push(line@));
            current = Vec::new();
        } else {
            current.push(c);
        }
    }
    assert(text@.take(text@.len() as int) =~= text@);
    if current.len() > 0 {
        let ghost ended = texts(lines@);
        let line = string_of(&current);
        lines.push(line);
        assert(texts(lines@) =~= ended.push(line@));
    }
    lines
}

} // verus!
