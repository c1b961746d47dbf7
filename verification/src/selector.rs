//! The choice of a chapter by its number, read from a line of text.

use vstd::prelude::*;
use vstd::string::*;
use crate::chapter1::{chapter1_lines, chapter1_main};
use crate::chapter2::{chapter2_lines, chapter2_main};
use crate::chapter3::{chapter3_lines, chapter3_main};
use crate::chapter5::{chapter5_lines, chapter5_main};
use crate::chapter6::{chapter6_lines, chapter6_main};

verus! {

/// The question that is put before a line is read.
pub fn prompt() -> (text: &'static str)
    ensures
        text@ == "Enter the chapter number to run the code"@,
{
    "Enter the chapter number to run the code"
}

/// Whether a character is white space, as Unicode defines `White_Space`.
pub open spec fn is_white_space(c: char) -> bool {
    let code = c as u32;
    ||| 0x09 <= code <= 0x0D
    ||| code == 0x20
    ||| code == 0x85
    ||| code == 0xA0
    ||| code == 0x1680
    ||| 0x2000 <= code <= 0x200A
    ||| code == 0x2028
    ||| code == 0x2029
    ||| code == 0x202F
    ||| code == 0x205F
    ||| code == 0x3000
}

/// A text without the white space at its start.
pub open spec fn trim_start(text: Seq<char>) -> Seq<char>
    decreases text.len(),
{
    if text.len() > 0 && is_white_space(text.first()) {
        trim_start(text.drop_first())
    } else {
        text
    }
}

/// A text without the white space at its end.
pub open spec fn trim_end(text: Seq<char>) -> Seq<char>
    decreases text.len(),
{
    if text.len() > 0 && is_white_space(text.last()) {
        trim_end(text.drop_last())
    } else {
        text
    }
}

/// A text without the white space at its start and at its end.
pub open spec fn trim(text: Seq<char>) -> Seq<char> {
    trim_end(trim_start(text))
}

/// Whether a character is one of the ten decimal digits.
pub open spec fn is_digit(c: char) -> bool {
    '0' <= c <= '9'
}

/// Whether a text is made of decimal digits alone.
pub open spec fn all_digits(text: Seq<char>) -> bool {
    forall|i: int| 0 <= i < text.len() ==> is_digit(#[trigger] text[i])
}

/// The number that a text of decimal digits writes.
pub open spec fn digits_value(digits: Seq<char>) -> nat
    decreases digits.len(),
{
    if digits.len() == 0 {
        0
    } else {
        (digits_value(digits.drop_last()) * 10 + (digits.last() as u32 - '0' as u32)) as nat
    }
}

/// The unsigned number that a text writes: one or more decimal digits, with
/// or without a plus sign before them. Any other text writes none.
pub open spec fn unsigned_number(text: Seq<char>) -> Option<nat> {
    let digits = if text.len() > 0 && text[0] == '+' {
        text.drop_first()
    } else {
        text
    };
    if digits.len() > 0 && all_digits(digits) {
        Some(digits_value(digits))
    } else {
        None
    }
}

/// The chapter number that a line of input gives: the unsigned number that
/// the line writes between the white space around it, where it writes one
/// that a `u32` holds.
pub open spec fn chapter_number(input: Seq<char>) -> Option<u32> {
    match unsigned_number(trim(input)) {
        Some(number) => if number <= u32::MAX {
            Some(number as u32)
        } else {
            None
        },
        None => None,
    }
}

/// White space at the start of a text, up to the first character that is
/// none, is what `trim_start` leaves out.
proof fn lemma_trim_start(text: Seq<char>, from: int)
    requires
        0 <= from <= text.len(),
        forall|i: int| 0 <= i < from ==> is_white_space(#[trigger] text[i]),
        from == text.len() || !is_white_space(text[from]),
    ensures
        trim_start(text) == text.subrange(from, text.len() as int),
    decreases from,
{
    if from > 0 {
        let rest = text.drop_first();
        lemma_trim_start(rest, from - 1);
        assert(rest.subrange(from - 1, rest.len() as int) =~= text.subrange(
            from,
            text.len() as int,
        ));
    }
}

/// White space at the end of a text, back to the last character that is
/// none, is what `trim_end` leaves out.
proof fn lemma_trim_end(text: Seq<char>, to: int)
    requires
        0 <= to <= text.len(),
        forall|i: int| to <= i < text.len() ==> is_white_space(#[trigger] text[i]),
        to == 0 || !is_white_space(text[to - 1]),
    ensures
        trim_end(text) == text.subrange(0, to),
    decreases text.len() - to,
{
    if to < text.len() {
        lemma_trim_end(text.drop_last(), to);
    }
}

/// The digits at the start of a text write no greater number than the text.
proof fn lemma_digits_value_grows(digits: Seq<char>, count: int)
    requires
        0 <= count <= digits.len(),
        all_digits(digits),
    ensures
        digits_value(digits.take(count)) <= digits_value(digits),
    decreases digits.len() - count,
{
    if count == digits.len() {
        assert(digits.take(count) =~= digits);
    } else {
        let rest = digits.drop_last();
        lemma_digits_value_grows(rest, count);
        assert(rest.take(count) =~= digits.take(count));
    }
}

/// Whether a character is white space.
fn white_space(c: char) -> (answer: bool)
    ensures
        answer == is_white_space(c),
{
    let code = c as u32;
    (0x09 <= code && code <= 0x0D) || code == 0x20 || code == 0x85 || code == 0xA0 || code
        == 0x1680 || (0x2000 <= code && code <= 0x200A) || code == 0x2028 || code == 0x2029 || code
        == 0x202F || code == 0x205F || code == 0x3000
}

/// The characters of a string slice, one by one.
fn characters(s: &str) -> (chars: Vec<char>)
    ensures
        chars@ == s@,
{
    let mut chars: Vec<char> = Vec::new();
    for c in it: s.chars()
        invariant
            chars@ == it.seq().take(it.index() as int),
            it.seq() == s@,
    {
        chars.push(c);
    }
    chars
}

/// Reads a chapter number from a line of input: the white space around it is
/// left out, and what remains has to write an unsigned number that a `u32`
/// holds.
pub fn parse_chapter(input: &str) -> (number: Option<u32>)
    ensures
        number == chapter_number(input@),
{
    let chars = characters(input);
    let mut from: usize = 0;
    while from < chars.len() && white_space(chars[from])
        invariant
            from <= chars.len(),
            forall|i: int| 0 <= i < from ==> is_white_space(#[trigger] chars@[i]),
        decreases chars.len() - from,
    {
        from = from + 1;
    }
    let mut to: usize = chars.len();
    while to > from && white_space(chars[to - 1])
        invariant
            from <= to <= chars.len(),
            forall|i: int| to <= i < chars.len() ==> is_white_space(#[trigger] chars@[i]),
        decreases to,
    {
        to = to - 1;
    }
    let ghost kept = chars@.subrange(from as int, to as int);
    proof {
        let tail = chars@.subrange(from as int, chars@.len() as int);
        lemma_trim_start(chars@, from as int);
        lemma_trim_end(tail, to - from);
        assert(tail.subrange(0, to - from) =~= kept);
    }

    let mut at: usize = from;
    if at < to && chars[at] == '+' {
        at = at + 1;
    }
    let ghost digits = chars@.subrange(at as int, to as int);
    proof {
        if at > from {
            assert(kept.drop_first() =~= digits);
        }
    }
    if at == to {
        return None;
    }
    assert(unsigned_number(trim(input@)) == (if all_digits(digits) {
        Some(digits_value(digits))
    } else {
        None
    }));
    let first: usize = at;
    let mut value: u64 = 0;
    while at < to
        invariant
            first <= at <= to <= chars.len(),
            digits == chars@.subrange(first as int, to as int),
            unsigned_number(trim(input@)) == (if all_digits(digits) {
                Some(digits_value(digits))
            } else {
                None
            }),
            all_digits(digits.take(at - first)),
            value == digits_value(digits.take(at - first)),
            value <= u32::MAX,
        decreases to - at,
    {
        let c = chars[at];
        if !('0' <= c && c <= '9') {
            proof {
                assert(digits[at - first] == c);
            }
            return None;
        }
        let digit: u64 = (c as u32 - '0' as u32) as u64;
        value = value * 10 + digit;
        at = at + 1;
        proof {
            let seen = digits.take(at - first);
            assert(seen.drop_last() =~= digits.take(at - first - 1));
        }
        if value > u32::MAX as u64 {
            proof {
                if all_digits(digits) {
                    lemma_digits_value_grows(digits, at - first);
                }
            }
            return None;
        }
    }
    proof {
        assert(digits.take(to - first) =~= digits);
    }
    Some(value as u32)
}

/// What is shown for a chapter number, given the texts of the two
/// floating-point numbers that the first and the sixth chapter show: the
/// chapter's lines for the numbers one, two, three, five and six, and for
/// every other number one line that says so.
pub open spec fn run_lines(chapter: u32, tuple_float: Seq<char>, max_float: Seq<char>) -> Seq<
    Seq<char>,
> {
    if chapter == 1 {
        chapter1_lines(tuple_float)
    } else if chapter == 2 {
        chapter2_lines()
    } else if chapter == 3 {
        chapter3_lines()
    } else if chapter == 5 {
        chapter5_lines()
    } else if chapter == 6 {
        chapter6_lines(max_float)
    } else {
        seq!["Chapter not found"@]
    }
}

/// Runs the chapter of the given number and hands back what it shows.
/// `tuple_float` and `max_float` are the floating-point numbers of the first
/// and the sixth chapter, already rendered.
pub fn run(chapter: u32, tuple_float: &str, max_float: &str) -> (lines: Vec<String>)
    ensures
        lines.deep_view() == run_lines(chapter, tuple_float@, max_float@),
        !(chapter == 1 || chapter == 2 || chapter == 3 || chapter == 5 || chapter == 6)
            ==> lines.deep_view() == seq!["Chapter not found"@],
{
    match chapter {
        1 => chapter1_main(tuple_float),
        2 => chapter2_main(),
        3 => chapter3_main(),
        5 => chapter5_main(),
        6 => chapter6_main(max_float),
        _ => {
            let mut lines: Vec<String> = Vec::new();
            lines.push(String::from_str("Chapter not found"));
            lines
        },
    }
}

} // verus!
