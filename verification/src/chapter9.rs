//! What macros stand for, written out: an expression shown beside its value,
//! a function made from a pattern, a factorial, a vector built item by item,
//! and a method that every type gets in the same way.

use vstd::prelude::*;
use vstd::string::*;
use crate::text::{
    add_line, add_lines, int_string, joined_text, nat_text, push_list, push_nat,
};

verus! {

/// An expression beside its value: the expression as it is written, an
/// equals sign, and the value.
pub open spec fn shown_text(expression: Seq<char>, value: Seq<char>) -> Seq<char> {
    expression + seq![' ', '=', ' '] + value
}

/// Shows an expression, given as it is written, beside its value.
fn println_plus(expression: &str, value: &str) -> (line: String)
    ensures
        line@ == shown_text(expression@, value@),
{
    proof {
        reveal_strlit(" = ");
    }
    let mut line = String::from_str(expression);
    line.append(" = ");
    line.append(value);
    line
}

/// Whether a text holds letters, digits and spaces of ASCII only, so that its
/// `{:?}` form is the text itself between double quotes.
pub open spec fn plain(text: Seq<char>) -> bool {
    forall|i: int|
        0 <= i < text.len() ==> {
            let c = #[trigger] text[i];
            ('a' <= c <= 'z') || ('A' <= c <= 'Z') || ('0' <= c <= '9') || c == ' '
        }
}

/// The `{:?}` form of a plain text.
fn quoted(text: &str) -> (form: String)
    requires
        plain(text@),
    ensures
        form@ == seq!['"'] + text@ + seq!['"'],
{
    proof {
        reveal_strlit("\"");
    }
    let mut form = String::from_str("\"");
    form.append(text);
    form.append("\"");
    form
}

/// What `macro_example_1` shows.
pub open spec fn macro_example_1_lines() -> Seq<Seq<char>> {
    seq!["x = 42"@, "x + 2 = 44"@, "String::from(\"hello\") = \"hello\""@]
}

/// A variable, a sum and a freshly made string, each shown beside its value.
pub fn macro_example_1() -> (lines: Vec<String>)
    ensures
        lines.deep_view() == macro_example_1_lines(),
{
    let mut lines: Vec<String> = Vec::new();
    let x: i32 = 42;
    lines.push(println_plus("x", int_string(x).as_str()));
    lines.push(println_plus("x + 2", int_string(x + 2).as_str()));
    proof {
        reveal_strlit("hello");
    }
    lines.push(println_plus("String::from(\"hello\")", quoted("hello").as_str()));

    proof {
        reveal_with_fuel(nat_text, 2);
        reveal_strlit("x");
        reveal_strlit("x + 2");
        reveal_strlit("String::from(\"hello\")");
        reveal_strlit("x = 42");
        reveal_strlit("x + 2 = 44");
        reveal_strlit("String::from(\"hello\") = \"hello\"");
        assert(lines[0]@ =~= "x = 42"@);
        assert(lines[1]@ =~= "x + 2 = 44"@);
        assert(lines[2]@ =~= "String::from(\"hello\") = \"hello\""@);
    }
    lines
}

/// The function that the pattern `hello_world() { .. }` stands for.
pub fn hello_world() -> (line: String)
    ensures
        line@ == "Hello, world!"@,
{
    String::from_str("Hello, world!")
}

/// What `macro_example_2` shows.
pub open spec fn macro_example_2_lines() -> Seq<Seq<char>> {
    seq!["Hello, world!"@]
}

/// Calls the function that was made from a pattern.
pub fn macro_example_2() -> (lines: Vec<String>)
    ensures
        lines.deep_view() == macro_example_2_lines(),
{
    let mut lines: Vec<String> = Vec::new();
    add_line(&mut lines, hello_world());
    lines
}

/// The product of the whole numbers from one to `n`.
pub open spec fn factorial_of(n: nat) -> nat
    decreases n,
{
    if n == 0 {
        1
    } else {
        n * factorial_of((n - 1) as nat)
    }
}

/// A factorial is at least one, and no factorial is greater than a later one.
proof fn lemma_factorial_grows(i: nat, j: nat)
    requires
        i <= j,
    ensures
        1 <= factorial_of(i) <= factorial_of(j),
    decreases j,
{
    if j == 0 {
    } else if i == j {
        lemma_factorial_grows(0, (j - 1) as nat);
        assert(j * factorial_of((j - 1) as nat) >= 1) by (nonlinear_arith)
            requires
                j >= 1,
                factorial_of((j - 1) as nat) >= 1,
        ;
    } else {
        lemma_factorial_grows(i, (j - 1) as nat);
        assert(j * factorial_of((j - 1) as nat) >= factorial_of((j - 1) as nat))
            by (nonlinear_arith)
            requires
                j >= 1,
                factorial_of((j - 1) as nat) >= 1,
        ;
    }
}

/// The factorial of `n`, or `None` where it is more than a `u64` holds.
pub fn factorial(n: u32) -> (product: Option<u64>)
    ensures
        factorial_of(n as nat) <= u64::MAX ==> product == Some(factorial_of(n as nat) as u64),
        factorial_of(n as nat) > u64::MAX ==> product.is_none(),
{
    let mut product: u64 = 1;
    let mut i: u32 = 0;
    while i < n
        invariant
            i <= n,
            product == factorial_of(i as nat),
        decreases n - i,
    {
        i = i + 1;
        proof {
            assert(product * (i as u64) == i * factorial_of((i - 1) as nat)) by (nonlinear_arith)
                requires
                    product == factorial_of((i - 1) as nat),
            ;
        }
        match product.checked_mul(i as u64) {
            Some(next) => {
                product = next;
            },
            None => {
                proof {
                    lemma_factorial_grows(i as nat, n as nat);
                }
                return None;
            },
        }
    }
    Some(product)
}

/// What `macro_example_3` shows.
pub open spec fn macro_example_3_lines() -> Seq<Seq<char>> {
    seq!["Factorial of 5 is 120"@]
}

/// The factorial of five.
pub fn macro_example_3() -> (lines: Vec<String>)
    ensures
        lines.deep_view() == macro_example_3_lines(),
{
    let mut lines: Vec<String> = Vec::new();
    proof {
        reveal_with_fuel(factorial_of, 6);
    }
    let product = factorial(5).unwrap();
    let mut line = String::from_str("Factorial of 5 is ");
    push_nat(&mut line, product);
    lines.push(line);
    proof {
        reveal_with_fuel(nat_text, 3);
        reveal_strlit("Factorial of 5 is ");
        reveal_strlit("Factorial of 5 is 120");
        assert(lines[0]@ =~= "Factorial of 5 is 120"@);
    }
    lines
}

/// What `macro_example_4` shows.
pub open spec fn macro_example_4_lines() -> Seq<Seq<char>> {
    seq!["[1, 2, 3, 4, 5]"@]
}

/// A vector is built from five numbers, one `push` for each, and shown.
pub fn macro_example_4() -> (lines: Vec<String>)
    ensures
        lines.deep_view() == macro_example_4_lines(),
{
    let mut lines: Vec<String> = Vec::new();
    let v = {
        let mut temp_vec: Vec<i32> = Vec::new();
        temp_vec.push(1);
        temp_vec.push(2);
        temp_vec.push(3);
        temp_vec.push(4);
        temp_vec.push(5);
        temp_vec
    };
    let mut line = String::new();
    push_list(&mut line, v.as_slice());
    lines.push(line);
    proof {
        reveal_with_fuel(joined_text, 6);
        reveal_strlit("[1, 2, 3, 4, 5]");
        assert(lines[0]@ =~= "[1, 2, 3, 4, 5]"@);
    }
    lines
}

/// The greeting that comes from a type of the given name.
pub open spec fn greeting(name: Seq<char>) -> Seq<char> {
    "Hello from "@ + name + "!"@
}

/// Greets from a type of the given name.
pub fn hello_from(name: &str) -> (line: String)
    ensures
        line@ == greeting(name@),
{
    let mut line = String::from_str("Hello from ");
    line.append(name);
    line.append("!");
    line
}

/// A type that greets under its own name.
pub trait MyMacro {
    /// The name of the type, as its declaration writes it.
    spec fn name() -> Seq<char>;

    /// The greeting from this type.
    fn my_method(&self) -> (line: String)
        ensures
            line@ == greeting(Self::name()),
    ;
}

/// A type without fields.
pub struct MyStruct;

impl MyMacro for MyStruct {
    open spec fn name() -> Seq<char> {
        "MyStruct"@
    }

    fn my_method(&self) -> (line: String) {
        hello_from("MyStruct")
    }
}

/// What `macro_example_5` shows.
pub open spec fn macro_example_5_lines() -> Seq<Seq<char>> {
    seq!["Hello from MyStruct!"@]
}

/// A value of a type without fields greets under the name of its type.
pub fn macro_example_5() -> (lines: Vec<String>)
    ensures
        lines.deep_view() == macro_example_5_lines(),
{
    let mut lines: Vec<String> = Vec::new();
    let my_struct = MyStruct {  };
    lines.push(my_struct.my_method());
    proof {
        reveal_strlit("Hello from ");
        reveal_strlit("MyStruct");
        reveal_strlit("!");
        reveal_strlit("Hello from MyStruct!");
        assert(lines[0]@ =~= "Hello from MyStruct!"@);
    }
    lines
}

/// What the ninth chapter shows.
pub open spec fn chapter9_lines() -> Seq<Seq<char>> {
    macro_example_1_lines() + macro_example_2_lines() + macro_example_3_lines()
        + macro_example_4_lines() + macro_example_5_lines()
}

/// The ninth chapter: its five examples in their order.
pub fn chapter9_main() -> (lines: Vec<String>)
    ensures
        lines.deep_view() == chapter9_lines(),
{
    let mut lines = macro_example_1();
    add_lines(&mut lines, macro_example_2());
    add_lines(&mut lines, macro_example_3());
    add_lines(&mut lines, macro_example_4());
    add_lines(&mut lines, macro_example_5());
    lines
}

} // verus!
