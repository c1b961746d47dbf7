//! Ownership, borrowing and lifetimes.

use vstd::prelude::*;
use vstd::string::*;
use crate::text::{add_line, add_lines, byte_length, lemma_ascii_byte_length, push_nat};

verus! {

/// What `ownership` shows.
pub open spec fn ownership_lines() -> Seq<Seq<char>> {
    seq!["world"@]
}

/// A string moves from one binding to another, and a second string moves
/// into a function, which shows it.
#[allow(unused_variables)]
pub fn ownership() -> (lines: Vec<String>)
    ensures
        lines.deep_view() == ownership_lines(),
{
    let mut lines: Vec<String> = Vec::new();
    let s1 = String::from_str("hello");
    let s2 = s1;

    let s3 = String::from_str("world");
    add_line(&mut lines, takes_ownership(s3));
    lines
}

/// Takes a string over for good and hands back the line that shows it.
pub fn takes_ownership(some_string: String) -> (line: String)
    ensures
        line == some_string,
{
    some_string
}

/// What `borrowing` shows.
pub open spec fn borrowing_lines() -> Seq<Seq<char>> {
    seq!["The length of 'hello' is 5."@, "s2 is now: world, changed!"@]
}

/// A string is lent out for reading, to measure it, and another for writing,
/// to extend it.
pub fn borrowing() -> (lines: Vec<String>)
    ensures
        lines.deep_view() == borrowing_lines(),
{
    let mut lines: Vec<String> = Vec::new();
    let s1 = String::from_str("hello");

    let len = calculate_length(&s1);
    let mut measured = String::from_str("The length of '");
    measured.append(s1.as_str());
    measured.append("' is ");
    push_nat(&mut measured, len as u64);
    measured.append(".");
    lines.push(measured);

    let mut s2 = String::from_str("world");
    change(&mut s2);
    let mut changed = String::from_str("s2 is now: ");
    changed.append(s2.as_str());
    lines.push(changed);

    proof {
        reveal_strlit("hello");
        lemma_ascii_byte_length("hello"@);
        reveal_strlit("The length of '");
        reveal_strlit("' is ");
        reveal_strlit(".");
        reveal_strlit("The length of 'hello' is 5.");
        reveal_strlit("world");
        reveal_strlit(", changed!");
        reveal_strlit("s2 is now: ");
        reveal_strlit("s2 is now: world, changed!");
        assert(lines[0]@ =~= "The length of 'hello' is 5."@);
        assert(lines[1]@ =~= "s2 is now: world, changed!"@);
    }
    lines
}

/// The length of a string in bytes, read through a shared reference.
pub fn calculate_length(s: &String) -> (length: usize)
    ensures
        length == byte_length(s@),
{
    s.as_str().len()
}

/// Extends a string through a mutable reference.
pub fn change(some_string: &mut String)
    ensures
        final(some_string)@ == old(some_string)@ + ", changed!"@,
{
    some_string.append(", changed!");
}

/// What `lifetimes` shows.
pub open spec fn lifetimes_lines() -> Seq<Seq<char>> {
    seq!["The longest string is 'abcd'"@]
}

/// The longer of an owned string and a literal, which lives as long as both.
pub fn lifetimes() -> (lines: Vec<String>)
    ensures
        lines.deep_view() == lifetimes_lines(),
{
    let mut lines: Vec<String> = Vec::new();
    let string1 = String::from_str("abcd");
    let string2 = "xyz";

    proof {
        reveal_strlit("abcd");
        reveal_strlit("xyz");
        lemma_ascii_byte_length("abcd"@);
        lemma_ascii_byte_length("xyz"@);
    }
    let result = longest(string1.as_str(), string2);
    let mut line = String::from_str("The longest string is '");
    line.append(result);
    line.append("'");
    lines.push(line);

    proof {
        reveal_strlit("The longest string is '");
        reveal_strlit("'");
        reveal_strlit("The longest string is 'abcd'");
        assert(lines[0]@ =~= "The longest string is 'abcd'"@);
    }
    lines
}

/// The one of two strings that takes more bytes; the second where both take
/// the same.
pub fn longest<'a>(x: &'a str, y: &'a str) -> (result: &'a str)
    ensures
        result == (if byte_length(x@) > byte_length(y@) {
            x
        } else {
            y
        }),
{
    if x.len() > y.len() {
        x
    } else {
        y
    }
}

/// What the second chapter shows.
pub open spec fn chapter2_lines() -> Seq<Seq<char>> {
    ownership_lines() + borrowing_lines() + lifetimes_lines()
}

/// The second chapter: ownership, then borrowing, then lifetimes.
pub fn chapter2_main() -> (lines: Vec<String>)
    ensures
        lines.deep_view() == chapter2_lines(),
{
    let mut lines = ownership();
    add_lines(&mut lines, borrowing());
    add_lines(&mut lines, lifetimes());
    lines
}

} // verus!
