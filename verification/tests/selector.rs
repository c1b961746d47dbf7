use rust_chapters::chapter1::chapter1_main;
use rust_chapters::chapter2::chapter2_main;
use rust_chapters::chapter3::chapter3_main;
use rust_chapters::chapter5::chapter5_main;
use rust_chapters::chapter6::chapter6_main;
use rust_chapters::selector::{parse_chapter, prompt, run};

#[test]
fn prompt_asks_for_the_chapter_number() {
    assert_eq!(prompt(), "Enter the chapter number to run the code");
}

#[test]
fn input_one_runs_the_first_chapter() {
    let number = parse_chapter("1\n");
    assert_eq!(number, Some(1));
    let lines = run(1, "3.14", "3.14");
    assert_eq!(lines, chapter1_main("3.14"));
    assert_eq!(lines[0], "The value of x is: 5");
}

#[test]
fn every_mapped_number_runs_its_chapter() {
    assert_eq!(run(2, "3.14", "3.14"), chapter2_main());
    assert_eq!(run(3, "3.14", "3.14"), chapter3_main());
    assert_eq!(run(5, "3.14", "3.14"), chapter5_main());
    assert_eq!(run(6, "1.5", "3.14"), chapter6_main("3.14"));
    assert_eq!(run(1, "1.5", "3.14"), chapter1_main("1.5"));
}

#[test]
fn input_ninety_nine_is_not_found() {
    assert_eq!(parse_chapter("99\n"), Some(99));
    assert_eq!(run(99, "3.14", "3.14"), vec!["Chapter not found"]);
}

#[test]
fn unmapped_numbers_are_not_found() {
    for number in [0u32, 4, 7, 8, 9, 10, 11, 16, 100, u32::MAX] {
        assert_eq!(run(number, "3.14", "3.14"), vec!["Chapter not found"]);
    }
}

#[test]
fn input_that_writes_no_number_is_refused() {
    assert_eq!(parse_chapter("abc"), None);
    assert_eq!(parse_chapter(""), None);
    assert_eq!(parse_chapter("\n"), None);
    assert_eq!(parse_chapter("   "), None);
    assert_eq!(parse_chapter("one"), None);
    assert_eq!(parse_chapter("1.0"), None);
    assert_eq!(parse_chapter("1 2"), None);
    assert_eq!(parse_chapter("1_000"), None);
    assert_eq!(parse_chapter("0x10"), None);
    assert_eq!(parse_chapter("-1"), None);
    assert_eq!(parse_chapter("-0"), None);
    assert_eq!(parse_chapter("+"), None);
    assert_eq!(parse_chapter("++1"), None);
    assert_eq!(parse_chapter("1+"), None);
    assert_eq!(parse_chapter("\u{ff11}"), None);
    assert_eq!(parse_chapter("\u{661}"), None);
}

#[test]
fn white_space_around_the_number_is_left_out() {
    assert_eq!(parse_chapter(" 5 "), Some(5));
    assert_eq!(parse_chapter("\t6\r\n"), Some(6));
    assert_eq!(parse_chapter("\u{3000}3\u{a0}"), Some(3));
    assert_eq!(parse_chapter("\u{2028}\u{2029}2\u{85}\u{1680}"), Some(2));
    assert_eq!(parse_chapter("\u{b}\u{c}1\u{202f}\u{205f}\u{2000}\u{200a}"), Some(1));
    assert_eq!(parse_chapter("\u{200b}1"), None);
    assert_eq!(parse_chapter("\u{feff}1"), None);
    assert_eq!(parse_chapter("\u{1c}1"), None);
}

#[test]
fn plus_sign_and_leading_zeros_are_taken() {
    assert_eq!(parse_chapter("+3"), Some(3));
    assert_eq!(parse_chapter("007"), Some(7));
    assert_eq!(parse_chapter("+000"), Some(0));
    assert_eq!(parse_chapter(" +12 "), Some(12));
    assert_eq!(parse_chapter("+ 12"), None);
}

#[test]
fn numbers_up_to_the_greatest_u32_are_taken() {
    assert_eq!(parse_chapter("4294967295"), Some(u32::MAX));
    assert_eq!(parse_chapter("4294967296"), None);
    assert_eq!(parse_chapter("4294967300"), None);
    assert_eq!(parse_chapter("42949672950"), None);
    assert_eq!(parse_chapter("0000000000000004294967295"), Some(u32::MAX));
    assert_eq!(parse_chapter("99999999999999999999999999999999999999"), None);
    assert_eq!(parse_chapter("18446744073709551617"), None);
}

#[test]
fn parse_chapter_agrees_with_trim_and_parse() {
    let inputs = [
        "1", "2\n", " 3", "4 ", "\t5\t", "6x", "x6", "", " ", "+", "-", "+1", "-1", "+-1", "010",
        "4294967295", "4294967296", "12345678901234567890", "1 1", "1\n1", "\u{a0}7\u{a0}",
        "\u{85}8", "9\u{200b}", "\u{1d7d9}", "1e3", "١", "0", "00", "+0", " + 1", "3\0",
    ];
    for input in inputs {
        assert_eq!(parse_chapter(input), input.trim().parse::<u32>().ok());
    }
}

#[test]
fn white_space_is_what_the_standard_library_trims() {
    let mut code: u32 = 0;
    while code <= 0x10ffff {
        if let Some(c) = char::from_u32(code) {
            let input = format!("{}7{}", c, c);
            assert_eq!(parse_chapter(&input), input.trim().parse::<u32>().ok());
        }
        code += if code < 0x4000 { 1 } else { 13 };
    }
}
