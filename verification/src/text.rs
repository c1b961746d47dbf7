//! Rendering of values as text, as the examples show them.

use vstd::prelude::*;
use vstd::string::*;
use vstd::utf8::{encode_utf8, is_ascii_chars, is_ascii_chars_encode_utf8};

verus! {

/// The character that stands for the decimal digit `d`.
pub open spec fn digit_char(d: int) -> char {
    if d == 0 {
        '0'
    } else if d == 1 {
        '1'
    } else if d == 2 {
        '2'
    } else if d == 3 {
        '3'
    } else if d == 4 {
        '4'
    } else if d == 5 {
        '5'
    } else if d == 6 {
        '6'
    } else if d == 7 {
        '7'
    } else if d == 8 {
        '8'
    } else {
        '9'
    }
}

/// The decimal digits of `n`, most significant first, without leading zeros.
pub open spec fn nat_text(n: nat) -> Seq<char>
    decreases n,
{
    if n < 10 {
        seq![digit_char(n as int)]
    } else {
        nat_text(n / 10).push(digit_char((n % 10) as int))
    }
}

/// The decimal text of `i`: a minus sign for a negative number, then its digits.
pub open spec fn int_text(i: int) -> Seq<char> {
    if i < 0 {
        seq!['-'] + nat_text((-i) as nat)
    } else {
        nat_text(i as nat)
    }
}

/// The one-character string for a decimal digit.
fn digit_str(d: u64) -> (s: &'static str)
    requires
        d < 10,
    ensures
        s@ == seq![digit_char(d as int)],
{
    proof {
        reveal_strlit("0");
        reveal_strlit("1");
        reveal_strlit("2");
        reveal_strlit("3");
        reveal_strlit("4");
        reveal_strlit("5");
        reveal_strlit("6");
        reveal_strlit("7");
        reveal_strlit("8");
        reveal_strlit("9");
    }
    let s = if d == 0 {
        "0"
    } else if d == 1 {
        "1"
    } else if d == 2 {
        "2"
    } else if d == 3 {
        "3"
    } else if d == 4 {
        "4"
    } else if d == 5 {
        "5"
    } else if d == 6 {
        "6"
    } else if d == 7 {
        "7"
    } else if d == 8 {
        "8"
    } else {
        "9"
    };
    s
}

/// Appends the decimal digits of `n` to `out`.
pub fn push_nat(out: &mut String, n: u64)
    ensures
        final(out)@ == old(out)@ + nat_text(n as nat),
    decreases n,
{
    if n >= 10 {
        push_nat(out, n / 10);
    }
    out.append(digit_str(n % 10));
}

/// Appends the decimal text of `i` to `out`.
pub fn push_int(out: &mut String, i: i64)
    ensures
        final(out)@ == old(out)@ + int_text(i as int),
{
    if i < 0 {
        proof {
            reveal_strlit("-");
        }
        out.append("-");
        let magnitude: u64 = if i == i64::MIN {
            9223372036854775808u64
        } else {
            (-i) as u64
        };
        push_nat(out, magnitude);
    } else {
        push_nat(out, i as u64);
    }
}

/// The decimal text of `i` as a string of its own.
pub fn int_string(i: i32) -> (s: String)
    ensures
        s@ == int_text(i as int),
{
    let mut s = String::new();
    push_int(&mut s, i as i64);
    s
}

/// A line made of a caption and a number.
pub fn captioned(caption: &str, value: i32) -> (line: String)
    ensures
        line@ == caption@ + int_text(value as int),
{
    let mut line = String::from_str(caption);
    push_int(&mut line, value as i64);
    line
}

/// The items of a list as decimal text, with a comma and a space between neighbours.
pub open spec fn joined_text(items: Seq<i32>) -> Seq<char>
    decreases items.len(),
{
    if items.len() == 0 {
        Seq::empty()
    } else if items.len() == 1 {
        int_text(items[0] as int)
    } else {
        joined_text(items.drop_last()) + seq![',', ' '] + int_text(items.last() as int)
    }
}

/// A list as the `{:?}` form shows it: its items between square brackets.
pub open spec fn list_text(items: Seq<i32>) -> Seq<char> {
    seq!['['] + joined_text(items) + seq![']']
}

/// Appends the `{:?}` form of `items` to `out`.
pub fn push_list(out: &mut String, items: &[i32])
    ensures
        final(out)@ == old(out)@ + list_text(items@),
{
    proof {
        reveal_strlit("[");
        reveal_strlit(", ");
        reveal_strlit("]");
    }
    out.append("[");
    let mut i: usize = 0;
    while i < items.len()
        invariant
            i <= items.len(),
            out@ == old(out)@ + seq!['['] + joined_text(items@.take(i as int)),
            ", "@ == seq![',', ' '],
        decreases items.len() - i,
    {
        if i > 0 {
            out.append(", ");
        }
        push_int(out, items[i] as i64);
        assert(items@.take(i + 1).drop_last() =~= items@.take(i as int));
        i = i + 1;
    }
    out.append("]");
    assert(items@.take(items@.len() as int) =~= items@);
}

/// An optional number as the `{:?}` form shows it.
pub open spec fn option_text(value: Option<i32>) -> Seq<char> {
    match value {
        Some(number) => seq!['S', 'o', 'm', 'e', '('] + int_text(number as int) + seq![')'],
        None => seq!['N', 'o', 'n', 'e'],
    }
}

/// Appends the `{:?}` form of `value` to `out`.
pub fn push_option(out: &mut String, value: Option<i32>)
    ensures
        final(out)@ == old(out)@ + option_text(value),
{
    proof {
        reveal_strlit("Some(");
        reveal_strlit(")");
        reveal_strlit("None");
    }
    match value {
        Some(number) => {
            out.append("Some(");
            push_int(out, number as i64);
            out.append(")");
        },
        None => {
            out.append("None");
        },
    }
}

/// The number of bytes that a text takes in UTF-8, as `len` reports it.
pub open spec fn byte_length(text: Seq<char>) -> usize {
    encode_utf8(text).len() as usize
}

/// A text of ASCII characters takes one byte for each.
pub proof fn lemma_ascii_byte_length(text: Seq<char>)
    requires
        is_ascii_chars(text),
        text.len() <= usize::MAX,
    ensures
        byte_length(text) == text.len(),
{
    is_ascii_chars_encode_utf8(text);
}

/// Whether two string slices hold the same characters.
pub fn same_text(a: &str, b: &str) -> (same: bool)
    ensures
        same == (a@ == b@),
{
    a.to_owned() == b.to_owned()
}

/// Adds one line at the end of a transcript.
pub fn add_line(lines: &mut Vec<String>, line: String)
    ensures
        final(lines).deep_view() == old(lines).deep_view().push(line@),
{
    lines.push(line);
}

/// Adds the lines of `more`, in their order, at the end of a transcript.
pub fn add_lines(lines: &mut Vec<String>, more: Vec<String>)
    ensures
        final(lines).deep_view() == old(lines).deep_view() + more.deep_view(),
{
    let mut more = more;
    lines.append(&mut more);
}

} // verus!
