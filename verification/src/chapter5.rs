//! Ownership and borrowing once more: the rules, references side by side,
//! and the common ways in which values change hands.

use vstd::prelude::*;
use vstd::string::*;
use crate::numbers::{lemma_machine_division, quotient};
use crate::text::{
    add_line, add_lines, byte_length, captioned, lemma_ascii_byte_length, push_nat,
};

verus! {

/// What `ownership_rules` shows: nothing.
pub open spec fn ownership_rules_lines() -> Seq<Seq<char>> {
    Seq::empty()
}

/// Every value has one owner: a string moves to a second binding and is
/// dropped with it.
#[allow(unused_variables)]
pub fn ownership_rules() -> (lines: Vec<String>)
    ensures
        lines.deep_view() == ownership_rules_lines(),
{
    let lines: Vec<String> = Vec::new();
    let s1 = String::from_str("hello");
    let s2 = s1;
    lines
}

/// What `borrowing_and_references` shows.
pub open spec fn borrowing_and_references_lines() -> Seq<Seq<char>> {
    seq![
        "The length of 'hello' is 5."@,
        "s2 is now: world, changed!"@,
        "world, changed! and world, changed!"@,
    ]
}

/// A string is lent out for reading, another for writing, and the second is
/// then read through two shared references at once.
pub fn borrowing_and_references() -> (lines: Vec<String>)
    ensures
        lines.deep_view() == borrowing_and_references_lines(),
{
    let mut lines: Vec<String> = Vec::new();
    let s1 = String::from_str("hello");

    let len = calculate_length(&s1);
    let mut measured = String::from_str("The length of '");
    measured.append(s1.as_str());
    measured.append("' is ");
    push_nat(&mut measured, len as u64);
    measured.append(".");
    lines.push(measured);

    let mut s2 = String::from_str("world");
    change(&mut s2);
    let mut changed = String::from_str("s2 is now: ");
    changed.append(s2.as_str());
    lines.push(changed);

    let r1 = &s2;
    let r2 = &s2;
    let mut both = String::from_str(r1.as_str());
    both.append(" and ");
    both.append(r2.as_str());
    lines.push(both);

    proof {
        reveal_strlit("hello");
        lemma_ascii_byte_length("hello"@);
        reveal_strlit("The length of '");
        reveal_strlit("' is ");
        reveal_strlit(".");
        reveal_strlit("The length of 'hello' is 5.");
        reveal_strlit("world");
        reveal_strlit(", changed!");
        reveal_strlit("s2 is now: ");
        reveal_strlit("s2 is now: world, changed!");
        reveal_strlit(" and ");
        reveal_strlit("world, changed! and world, changed!");
        assert(lines[0]@ =~= "The length of 'hello' is 5."@);
        assert(lines[1]@ =~= "s2 is now: world, changed!"@);
        assert(lines[2]@ =~= "world, changed! and world, changed!"@);
    }
    lines
}

/// The length of a string in bytes, read through a shared reference.
pub fn calculate_length(s: &String) -> (length: usize)
    ensures
        length == byte_length(s@),
{
    s.as_str().len()
}

/// Extends a string through a mutable reference.
pub fn change(some_string: &mut String)
    ensures
        final(some_string)@ == old(some_string)@ + ", changed!"@,
{
    some_string.append(", changed!");
}

/// What `lifetimes` shows.
pub open spec fn lifetimes_lines() -> Seq<Seq<char>> {
    seq!["The longest string is 'abcd'"@]
}

/// The longer of an owned string and a literal, which lives as long as both.
pub fn lifetimes() -> (lines: Vec<String>)
    ensures
        lines.deep_view() == lifetimes_lines(),
{
    let mut lines: Vec<String> = Vec::new();
    let string1 = String::from_str("abcd");
    let string2 = "xyz";

    proof {
        reveal_strlit("abcd");
        reveal_strlit("xyz");
        lemma_ascii_byte_length("abcd"@);
        lemma_ascii_byte_length("xyz"@);
    }
    let result = longest(string1.as_str(), string2);
    let mut line = String::from_str("The longest string is '");
    line.append(result);
    line.append("'");
    lines.push(line);

    proof {
        reveal_strlit("The longest string is '");
        reveal_strlit("'");
        reveal_strlit("The longest string is 'abcd'");
        assert(lines[0]@ =~= "The longest string is 'abcd'"@);
    }
    lines
}

/// The one of two strings that takes more bytes; the second where both take
/// the same.
pub fn longest<'a>(x: &'a str, y: &'a str) -> (result: &'a str)
    ensures
        result == (if byte_length(x@) > byte_length(y@) {
            x
        } else {
            y
        }),
{
    if x.len() > y.len() {
        x
    } else {
        y
    }
}

/// What `ownership_patterns` shows.
pub open spec fn ownership_patterns_lines() -> Seq<Seq<char>> {
    seq!["hello"@, "yours"@, "The first element is: 1"@, "Result: 5"@]
}

/// A string is given away to a function and another is received from one, a
/// vector's first number is read through a reference, an `Option` without a
/// value is passed over, and the outcome of a division is told apart.
pub fn ownership_patterns() -> (lines: Vec<String>)
    ensures
        lines.deep_view() == ownership_patterns_lines(),
{
    let mut lines: Vec<String> = Vec::new();
    let s = String::from_str("hello");
    add_line(&mut lines, takes_ownership(s));

    let s = gives_ownership();
    add_line(&mut lines, s);

    let v: Vec<i32> = vec![1, 2, 3];
    let first = &v[0];
    add_line(&mut lines, captioned("The first element is: ", *first));

    let x: Option<&str> = None;
    if let Some(value) = x {
        add_line(&mut lines, String::from_str(value));
    }

    let result = divide(10, 2);
    match result {
        Ok(value) => {
            add_line(&mut lines, captioned("Result: ", value));
        },
        Err(error) => {
            let mut line = String::from_str("Error: ");
            line.append(error.as_str());
            add_line(&mut lines, line);
        },
    }

    proof {
        reveal_strlit("The first element is: ");
        reveal_strlit("Result: ");
        reveal_strlit("The first element is: 1");
        reveal_strlit("Result: 5");
        assert(lines.deep_view() =~~= ownership_patterns_lines());
    }
    lines
}

/// Takes a string over for good and hands back the line that shows it.
pub fn takes_ownership(some_string: String) -> (line: String)
    ensures
        line == some_string,
{
    some_string
}

/// Makes a string and gives it away to the caller.
pub fn gives_ownership() -> (some_string: String)
    ensures
        some_string@ == "yours"@,
{
    let some_string = String::from_str("yours");
    some_string
}

/// Divides `a` by `b`, rounding toward zero. Division by zero is an error
/// with a message of its own.
pub fn divide(a: i32, b: i32) -> (result: Result<i32, String>)
    requires
        !(a == i32::MIN && b == -1),
    ensures
        b != 0 ==> (result matches Ok(value) && value == quotient(a as int, b as int)),
        b == 0 ==> (result matches Err(message) && message@ == "Division by zero"@),
{
    if b == 0 {
        Err(String::from_str("Division by zero"))
    } else {
        proof {
            lemma_machine_division(a, b);
        }
        Ok(a / b)
    }
}

/// What the fifth chapter shows.
pub open spec fn chapter5_lines() -> Seq<Seq<char>> {
    ownership_rules_lines() + borrowing_and_references_lines() + lifetimes_lines()
        + ownership_patterns_lines()
}

/// The fifth chapter: the rules of ownership, references, lifetimes, and the
/// common patterns.
pub fn chapter5_main() -> (lines: Vec<String>)
    ensures
        lines.deep_view() == chapter5_lines(),
{
    let mut lines = ownership_rules();
    add_lines(&mut lines, borrowing_and_references());
    add_lines(&mut lines, lifetimes());
    add_lines(&mut lines, ownership_patterns());
    lines
}

} // verus!
