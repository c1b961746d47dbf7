//! Vectors, strings, a table of scores, and optional and fallible values.

use vstd::prelude::*;
use vstd::string::*;
use crate::numbers::{lemma_machine_division, quotient};
use crate::scores::{distinct_names, Scores};
use crate::text::{
    add_line, add_lines, captioned, int_string, int_text, nat_text, push_int, push_option,
};

verus! {

/// Each number of a list as a line of its own.
pub open spec fn number_lines(items: Seq<i32>) -> Seq<Seq<char>> {
    Seq::new(items.len(), |i: int| int_text(items[i] as int))
}

/// Walks over a vector and adds a line for each of its numbers.
fn show_each(lines: &mut Vec<String>, items: &Vec<i32>)
    ensures
        final(lines).deep_view() == old(lines).deep_view() + number_lines(items@),
{
    for i in 0..items.len()
        invariant
            lines.deep_view() == old(lines).deep_view() + number_lines(items@.take(i as int)),
    {
        add_line(lines, int_string(items[i]));
        assert(lines.deep_view() =~~= old(lines).deep_view() + number_lines(
            items@.take(i + 1),
        ));
    }
}

/// What `vectors` shows.
pub open spec fn vectors_lines() -> Seq<Seq<char>> {
    seq![
        "The first element is: 1"@,
        "The last element is: 3"@,
        "1"@,
        "2"@,
        "3"@,
        "Removed the last element: Some(3)"@,
        "4"@,
        "5"@,
        "6"@,
    ]
}

/// A vector grows by three numbers, is read at both ends and walked over, and
/// gives its last number up; a second vector is made at once and walked over.
pub fn vectors() -> (lines: Vec<String>)
    ensures
        lines.deep_view() == vectors_lines(),
{
    let mut lines: Vec<String> = Vec::new();
    let mut v: Vec<i32> = Vec::new();
    v.push(1);
    v.push(2);
    v.push(3);

    add_line(&mut lines, captioned("The first element is: ", v[0]));
    add_line(&mut lines, captioned("The last element is: ", v[v.len() - 1]));

    show_each(&mut lines, &v);

    let last_element = v.pop();
    let mut removed = String::from_str("Removed the last element: ");
    push_option(&mut removed, last_element);
    add_line(&mut lines, removed);

    let v2: Vec<i32> = vec![4, 5, 6];
    show_each(&mut lines, &v2);

    proof {
        reveal_strlit("The first element is: ");
        reveal_strlit("The last element is: ");
        reveal_strlit("Removed the last element: ");
        reveal_strlit("The first element is: 1");
        reveal_strlit("The last element is: 3");
        reveal_strlit("Removed the last element: Some(3)");
        reveal_strlit("1");
        reveal_strlit("2");
        reveal_strlit("3");
        reveal_strlit("4");
        reveal_strlit("5");
        reveal_strlit("6");
        assert(lines.deep_view() =~~= vectors_lines());
    }
    lines
}

/// What `strings` shows.
pub open spec fn strings_lines() -> Seq<Seq<char>> {
    seq!["hello, world!"@, "hello"@, "Hello, world!"@, "Rust is awesome!"@]
}

/// A string is extended in place and sliced, two strings are joined into a
/// third, and two literals are put together with a space between them.
pub fn strings() -> (lines: Vec<String>)
    ensures
        lines.deep_view() == strings_lines(),
{
    proof {
        reveal_strlit("hello");
        reveal_strlit(", world!");
        reveal_strlit("hello, world!");
        reveal_strlit("Hello, ");
        reveal_strlit("world!");
        reveal_strlit("Hello, world!");
        reveal_strlit("Rust");
        reveal_strlit(" ");
        reveal_strlit("is awesome!");
        reveal_strlit("Rust is awesome!");
    }
    let mut lines: Vec<String> = Vec::new();
    let mut s = String::from_str("hello");
    s.append(", world!");
    assert(s@ =~= "hello, world!"@);
    add_line(&mut lines, s.clone());

    let hello = s.as_str().substring_ascii(0, 5);
    assert(hello@ =~= "hello"@);
    add_line(&mut lines, String::from_str(hello));

    let s1 = String::from_str("Hello, ");
    let s2 = String::from_str("world!");
    let s3 = s1.concat(s2.as_str());
    assert(s3@ =~= "Hello, world!"@);
    add_line(&mut lines, s3);

    let mut s4 = String::from_str("Rust");
    s4.append(" ");
    s4.append("is awesome!");
    assert(s4@ =~= "Rust is awesome!"@);
    add_line(&mut lines, s4);

    lines
}

/// An entry of a table of scores as a line: its name, a colon and its score.
pub open spec fn entry_text(entry: (Seq<char>, i32)) -> Seq<char> {
    entry.0 + seq![':', ' '] + int_text(entry.1 as int)
}

/// The table that `hash_maps` ends with: the first team alone, under its
/// second score.
pub open spec fn hash_maps_scores() -> Seq<(Seq<char>, i32)> {
    seq![("Blue"@, 25i32)]
}

/// What `hash_maps` shows.
pub open spec fn hash_maps_lines() -> Seq<Seq<char>> {
    seq![
        "The score for Blue is: 10"@,
        "Blue: 10"@,
        "Yellow: 50"@,
        "The new score for Blue is: 25"@,
    ]
}

/// Two teams get their scores, one score is read, all entries are walked
/// over, the first team's score is replaced and read again, and the second
/// team leaves the table. Hands back the lines and the table as it is left.
pub fn hash_maps() -> (outcome: (Vec<String>, Scores))
    ensures
        outcome.0.deep_view() == hash_maps_lines(),
        outcome.1@ == hash_maps_scores(),
        distinct_names(outcome.1@),
{
    proof {
        reveal_strlit("Blue");
        reveal_strlit("Yellow");
        reveal_strlit(": ");
    }
    let mut lines: Vec<String> = Vec::new();
    let mut scores = Scores::new();
    scores.insert("Blue", 10);
    assert(scores@[0].0 == "Blue"@);
    scores.insert("Yellow", 50);
    assert(scores@ =~= seq![("Blue"@, 10i32), ("Yellow"@, 50i32)]);

    add_line(&mut lines, captioned("The score for Blue is: ", scores.index("Blue")));

    let count = scores.len();
    for i in 0..count
        invariant
            count == 2,
            scores@ == seq![("Blue"@, 10i32), ("Yellow"@, 50i32)],
            ": "@ == seq![':', ' '],
            lines.deep_view() == seq!["The score for Blue is: "@ + int_text(10)] + Seq::new(
                i as nat,
                |k: int| entry_text(scores@[k]),
            ),
    {
        let (key, value) = scores.entry(i);
        let mut line = String::from_str(key);
        line.append(": ");
        push_int(&mut line, value as i64);
        add_line(&mut lines, line);
        assert(lines.deep_view() =~~= seq!["The score for Blue is: "@ + int_text(10)] + Seq::new(
            (i + 1) as nat,
            |k: int| entry_text(scores@[k]),
        ));
    }

    scores.insert("Blue", 25);
    assert(scores@ =~= seq![("Blue"@, 25i32), ("Yellow"@, 50i32)]);
    add_line(&mut lines, captioned("The new score for Blue is: ", scores.index("Blue")));

    scores.remove("Yellow");

    proof {
        reveal_with_fuel(nat_text, 2);
        reveal_strlit("The score for Blue is: ");
        reveal_strlit("The new score for Blue is: ");
        reveal_strlit("The score for Blue is: 10");
        reveal_strlit("Blue: 10");
        reveal_strlit("Yellow: 50");
        reveal_strlit("The new score for Blue is: 25");
        assert(lines.deep_view() =~~= hash_maps_lines());
    }
    (lines, scores)
}

/// What `options_and_results` shows.
pub open spec fn options_and_results_lines() -> Seq<Seq<char>> {
    seq!["x is 5"@, "Result: 5"@]
}

/// A value that is there is taken out of its `Option`, and the outcome of a
/// division is told apart into its result and its error.
#[allow(unused_variables)]
pub fn options_and_results() -> (lines: Vec<String>)
    ensures
        lines.deep_view() == options_and_results_lines(),
{
    let mut lines: Vec<String> = Vec::new();
    let x: Option<i32> = Some(5);
    let y: Option<i32> = None;

    if let Some(value) = x {
        add_line(&mut lines, captioned("x is ", value));
    }

    let result = divide(10, 2);
    match result {
        Ok(value) => {
            add_line(&mut lines, captioned("Result: ", value));
        },
        Err(error) => {
            let mut line = String::from_str("Error: ");
            line.append(error.as_str());
            add_line(&mut lines, line);
        },
    }

    proof {
        reveal_strlit("x is ");
        reveal_strlit("Result: ");
        reveal_strlit("x is 5");
        reveal_strlit("Result: 5");
        assert(lines.deep_view() =~~= options_and_results_lines());
    }
    lines
}

/// Divides `a` by `b`, rounding toward zero. Division by zero is an error
/// with a message of its own.
pub fn divide(a: i32, b: i32) -> (result: Result<i32, String>)
    requires
        !(a == i32::MIN && b == -1),
    ensures
        b != 0 ==> (result matches Ok(value) && value == quotient(a as int, b as int)),
        b == 0 ==> (result matches Err(message) && message@ == "Division by zero"@),
{
    if b == 0 {
        Err(String::from_str("Division by zero"))
    } else {
        proof {
            lemma_machine_division(a, b);
        }
        Ok(a / b)
    }
}

/// What the third chapter shows.
pub open spec fn chapter3_lines() -> Seq<Seq<char>> {
    vectors_lines() + strings_lines() + hash_maps_lines() + options_and_results_lines()
}

/// The third chapter: vectors, strings, a table of scores, and optional and
/// fallible values.
pub fn chapter3_main() -> (lines: Vec<String>)
    ensures
        lines.deep_view() == chapter3_lines(),
{
    let mut lines = vectors();
    add_lines(&mut lines, strings());
    add_lines(&mut lines, hash_maps().0);
    add_lines(&mut lines, options_and_results());
    lines
}

} // verus!
