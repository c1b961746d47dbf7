use rust_chapters::chapter2::{
    borrowing, calculate_length, change, chapter2_main, lifetimes, longest, ownership,
    takes_ownership,
};

#[test]
fn ownership_shows_the_string_that_was_given_away() {
    assert_eq!(ownership(), vec!["world"]);
}

#[test]
fn takes_ownership_hands_the_string_back_as_a_line() {
    assert_eq!(takes_ownership(String::from("world")), "world");
    assert_eq!(takes_ownership(String::new()), "");
}

#[test]
fn borrowing_measures_and_changes() {
    assert_eq!(
        borrowing(),
        vec!["The length of 'hello' is 5.", "s2 is now: world, changed!"]
    );
}

#[test]
fn calculate_length_counts_bytes() {
    assert_eq!(calculate_length(&String::from("hello")), 5);
    assert_eq!(calculate_length(&String::new()), 0);
    assert_eq!(calculate_length(&String::from("h\u{e9}llo")), 6);
    assert_eq!(calculate_length(&String::from("\u{1f600}")), 4);
}

#[test]
fn change_appends_its_suffix() {
    let mut text = String::from("world");
    change(&mut text);
    assert_eq!(text, "world, changed!");
    change(&mut text);
    assert_eq!(text, "world, changed!, changed!");
    let mut empty = String::new();
    change(&mut empty);
    assert_eq!(empty, ", changed!");
}

#[test]
fn lifetimes_shows_the_longer_string() {
    assert_eq!(lifetimes(), vec!["The longest string is 'abcd'"]);
}

#[test]
fn longest_prefers_the_second_on_a_tie() {
    assert_eq!(longest("abcd", "xyz"), "abcd");
    assert_eq!(longest("xyz", "abcd"), "abcd");
    assert_eq!(longest("abc", "xyz"), "xyz");
    assert_eq!(longest("", ""), "");
    assert_eq!(longest("a", ""), "a");
}

#[test]
fn longest_goes_by_bytes() {
    assert_eq!(longest("\u{e9}\u{e9}", "abc"), "\u{e9}\u{e9}");
    assert_eq!(longest("ab", "\u{e9}"), "\u{e9}");
}

#[test]
fn chapter2_main_runs_its_parts_in_order() {
    assert_eq!(
        chapter2_main(),
        vec![
            "world",
            "The length of 'hello' is 5.",
            "s2 is now: world, changed!",
            "The longest string is 'abcd'",
        ]
    );
}
