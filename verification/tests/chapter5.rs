use rust_chapters::chapter5::{
    borrowing_and_references, calculate_length, change, chapter5_main, divide, gives_ownership,
    lifetimes, longest, ownership_patterns, ownership_rules, takes_ownership,
};

#[test]
fn ownership_rules_shows_nothing() {
    assert!(ownership_rules().is_empty());
}

#[test]
fn borrowing_and_references_reads_through_two_references() {
    assert_eq!(
        borrowing_and_references(),
        vec![
            "The length of 'hello' is 5.",
            "s2 is now: world, changed!",
            "world, changed! and world, changed!",
        ]
    );
}

#[test]
fn revisited_calculate_length_counts_bytes() {
    assert_eq!(calculate_length(&String::from("hello")), 5);
    assert_eq!(calculate_length(&String::from("\u{3b1}\u{3b2}")), 4);
}

#[test]
fn revisited_change_appends_its_suffix() {
    let mut text = String::from("world");
    change(&mut text);
    assert_eq!(text, "world, changed!");
}

#[test]
fn revisited_lifetimes_shows_the_longer_string() {
    assert_eq!(lifetimes(), vec!["The longest string is 'abcd'"]);
}

#[test]
fn revisited_longest_prefers_the_second_on_a_tie() {
    assert_eq!(longest("abcd", "xyz"), "abcd");
    assert_eq!(longest("one", "two"), "two");
    assert_eq!(longest("", "x"), "x");
}

#[test]
fn ownership_patterns_shows_four_lines() {
    assert_eq!(
        ownership_patterns(),
        vec!["hello", "yours", "The first element is: 1", "Result: 5"]
    );
}

#[test]
fn revisited_takes_ownership_hands_the_string_back() {
    assert_eq!(takes_ownership(String::from("hello")), "hello");
}

#[test]
fn gives_ownership_makes_its_string() {
    assert_eq!(gives_ownership(), "yours");
}

#[test]
fn revisited_divide_gives_quotient_or_error() {
    assert_eq!(divide(10, 2), Ok(5));
    assert_eq!(divide(-9, 4), Ok(-2));
    assert_eq!(divide(9, -4), Ok(-2));
    assert_eq!(divide(3, 0), Err(String::from("Division by zero")));
}

#[test]
fn chapter5_main_runs_its_parts_in_order() {
    assert_eq!(
        chapter5_main(),
        vec![
            "The length of 'hello' is 5.",
            "s2 is now: world, changed!",
            "world, changed! and world, changed!",
            "The longest string is 'abcd'",
            "hello",
            "yours",
            "The first element is: 1",
            "Result: 5",
        ]
    );
}
