//! Bindings, primitive types and control flow.

use vstd::prelude::*;
use vstd::string::*;
use crate::text::{
    add_line, add_lines, captioned, int_string, int_text, joined_text, nat_text, push_int,
    push_list,
};

verus! {

/// What `variables_and_mutability` shows.
pub open spec fn variables_and_mutability_lines() -> Seq<Seq<char>> {
    seq![
        "The value of x is: 5"@,
        "The value of y is: 10"@,
        "The value of y is now: 15"@,
        "The value of x is now: 6"@,
        "The value of x is now: 12"@,
    ]
}

/// An immutable binding, a mutable one that is assigned again, and a binding
/// shadowed twice: first by its successor, then by the double of that.
pub fn variables_and_mutability() -> (lines: Vec<String>)
    ensures
        lines.deep_view() == variables_and_mutability_lines(),
{
    let mut lines: Vec<String> = Vec::new();
    let x: i32 = 5;
    lines.push(captioned("The value of x is: ", x));

    let mut y: i32 = 10;
    lines.push(captioned("The value of y is: ", y));
    y = 15;
    lines.push(captioned("The value of y is now: ", y));

    let x: i32 = x + 1;
    lines.push(captioned("The value of x is now: ", x));

    let x: i32 = x * 2;
    lines.push(captioned("The value of x is now: ", x));

    proof {
        reveal_with_fuel(nat_text, 3);
        reveal_strlit("The value of x is: ");
        reveal_strlit("The value of y is: ");
        reveal_strlit("The value of y is now: ");
        reveal_strlit("The value of x is now: ");
        reveal_strlit("The value of x is: 5");
        reveal_strlit("The value of y is: 10");
        reveal_strlit("The value of y is now: 15");
        reveal_strlit("The value of x is now: 6");
        reveal_strlit("The value of x is now: 12");
        assert(lines.deep_view() =~~= variables_and_mutability_lines());
    }
    lines
}

/// What `data_types` shows, given the text that stands for the tuple's
/// floating-point member.
pub open spec fn data_types_lines(float_text: Seq<char>) -> Seq<Seq<char>> {
    seq!["Tuple: (42, "@ + float_text + ", 255)"@, "Array: [1, 2, 3, 4, 5]"@]
}

/// Values of the primitive types: integers, booleans and characters, then a
/// tuple of an integer, a floating-point number and a byte, and an array of
/// five integers, both shown in their `{:?}` form. The floating-point member
/// comes already rendered, as `float_text`.
#[allow(unused_variables)]
pub fn data_types(float_text: &str) -> (lines: Vec<String>)
    ensures
        lines.deep_view() == data_types_lines(float_text@),
{
    let a: i32 = 42;
    let b: u8 = 255;

    let is_true: bool = true;
    let is_false: bool = false;

    let c: char = 'A';
    let emoji: char = '\u{1F600}';

    let arr: [i32; 5] = [1, 2, 3, 4, 5];

    let mut lines: Vec<String> = Vec::new();
    let mut tuple = captioned("Tuple: (", a);
    tuple.append(", ");
    tuple.append(float_text);
    tuple.append(", ");
    push_int(&mut tuple, b as i64);
    tuple.append(")");
    lines.push(tuple);

    let mut array = String::from_str("Array: ");
    push_list(&mut array, arr.as_slice());
    lines.push(array);

    proof {
        reveal_with_fuel(nat_text, 4);
        reveal_with_fuel(joined_text, 6);
        reveal_strlit("Tuple: (");
        reveal_strlit(", ");
        reveal_strlit(")");
        reveal_strlit("Tuple: (42, ");
        reveal_strlit(", 255)");
        reveal_strlit("Array: ");
        reveal_strlit("Array: [1, 2, 3, 4, 5]");
        assert(lines[0]@ =~= "Tuple: (42, "@ + float_text@ + ", 255)"@);
        assert(lines[1]@ =~= "Array: [1, 2, 3, 4, 5]"@);
    }
    lines
}

/// What is said of a number by its sign.
pub open spec fn sign_text(x: int) -> Seq<char> {
    if x > 0 {
        "x is positive"@
    } else if x < 0 {
        "x is negative"@
    } else {
        "x is zero"@
    }
}

/// Tells whether `x` is positive, negative or zero.
pub fn describe_sign(x: i32) -> (text: &'static str)
    ensures
        text@ == sign_text(x as int),
{
    if x > 0 {
        "x is positive"
    } else if x < 0 {
        "x is negative"
    } else {
        "x is zero"
    }
}

/// The name under which a number is known: one and two by their own names,
/// three to five together, every other number as something else.
pub open spec fn number_text(num: int) -> Seq<char> {
    if num == 1 {
        "One"@
    } else if num == 2 {
        "Two"@
    } else if 3 <= num <= 5 {
        "Three, four, or five"@
    } else {
        "Something else"@
    }
}

/// Names `num`.
pub fn describe_number(num: i32) -> (text: &'static str)
    ensures
        text@ == number_text(num as int),
{
    match num {
        1 => "One",
        2 => "Two",
        3 | 4 | 5 => "Three, four, or five",
        _ => "Something else",
    }
}

/// The numbers from zero up to, but not including, `limit`, one per line.
pub open spec fn counting_lines(limit: int) -> Seq<Seq<char>> {
    Seq::new(limit as nat, |i: int| int_text(i))
}

/// What `control_flow` shows.
pub open spec fn control_flow_lines() -> Seq<Seq<char>> {
    seq![
        "x is positive"@,
        "0"@,
        "1"@,
        "2"@,
        "3"@,
        "4"@,
        "0"@,
        "1"@,
        "2"@,
        "3"@,
        "4"@,
        "Three, four, or five"@,
    ]
}

/// A chain of `if` and `else`, a `for` loop over a range, a `while` loop that
/// counts the same range, and a `match` with a joined arm.
pub fn control_flow() -> (lines: Vec<String>)
    ensures
        lines.deep_view() == control_flow_lines(),
{
    let mut lines: Vec<String> = Vec::new();

    let x: i32 = 5;
    add_line(&mut lines, String::from_str(describe_sign(x)));

    for i in 0..5i32
        invariant
            lines.deep_view() == seq![sign_text(5)] + counting_lines(i as int),
    {
        add_line(&mut lines, int_string(i));
    }

    let mut y: i32 = 0;
    while y < 5
        invariant
            0 <= y <= 5,
            lines.deep_view() == seq![sign_text(5)] + counting_lines(5) + counting_lines(y as int),
        decreases 5 - y,
    {
        add_line(&mut lines, int_string(y));
        y += 1;
        assert(lines.deep_view() =~~= seq![sign_text(5)] + counting_lines(5) + counting_lines(
            y as int,
        ));
    }

    let num: i32 = 4;
    add_line(&mut lines, String::from_str(describe_number(num)));

    proof {
        reveal_strlit("0");
        reveal_strlit("1");
        reveal_strlit("2");
        reveal_strlit("3");
        reveal_strlit("4");
        assert(lines.deep_view() =~~= control_flow_lines());
    }
    lines
}

/// What the first chapter shows, given the text of the floating-point member
/// of its tuple.
pub open spec fn chapter1_lines(float_text: Seq<char>) -> Seq<Seq<char>> {
    variables_and_mutability_lines() + data_types_lines(float_text) + control_flow_lines()
}

/// The first chapter: bindings, then primitive types, then control flow.
pub fn chapter1_main(float_text: &str) -> (lines: Vec<String>)
    ensures
        lines.deep_view() == chapter1_lines(float_text@),
{
    let mut lines = variables_and_mutability();
    add_lines(&mut lines, data_types(float_text));
    add_lines(&mut lines, control_flow());
    lines
}

} // verus!
