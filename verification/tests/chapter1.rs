use rust_chapters::chapter1::{
    chapter1_main, control_flow, data_types, describe_number, describe_sign,
    variables_and_mutability,
};

#[test]
fn shadowing_ends_at_twelve() {
    let lines = variables_and_mutability();
    assert_eq!(lines.last().map(String::as_str), Some("The value of x is now: 12"));
}

#[test]
fn variables_and_mutability_shows_every_binding() {
    assert_eq!(
        variables_and_mutability(),
        vec![
            "The value of x is: 5",
            "The value of y is: 10",
            "The value of y is now: 15",
            "The value of x is now: 6",
            "The value of x is now: 12",
        ]
    );
}

#[test]
fn data_types_shows_the_tuple_and_the_array() {
    assert_eq!(
        data_types("3.14"),
        vec!["Tuple: (42, 3.14, 255)", "Array: [1, 2, 3, 4, 5]"]
    );
}

#[test]
fn data_types_agrees_with_debug() {
    let pi: f64 = 3.14;
    let lines = data_types(&format!("{:?}", pi));
    assert_eq!(lines[0], format!("Tuple: {:?}", (42i32, pi, 255u8)));
    assert_eq!(lines[1], format!("Array: {:?}", [1, 2, 3, 4, 5]));
}

#[test]
fn data_types_takes_any_text_for_the_float() {
    assert_eq!(data_types("")[0], "Tuple: (42, , 255)");
    assert_eq!(data_types("NaN")[0], "Tuple: (42, NaN, 255)");
}

#[test]
fn describe_sign_tells_three_cases() {
    assert_eq!(describe_sign(5), "x is positive");
    assert_eq!(describe_sign(1), "x is positive");
    assert_eq!(describe_sign(i32::MAX), "x is positive");
    assert_eq!(describe_sign(-1), "x is negative");
    assert_eq!(describe_sign(i32::MIN), "x is negative");
    assert_eq!(describe_sign(0), "x is zero");
}

#[test]
fn describe_number_names_each_arm() {
    assert_eq!(describe_number(1), "One");
    assert_eq!(describe_number(2), "Two");
    assert_eq!(describe_number(3), "Three, four, or five");
    assert_eq!(describe_number(4), "Three, four, or five");
    assert_eq!(describe_number(5), "Three, four, or five");
    assert_eq!(describe_number(6), "Something else");
    assert_eq!(describe_number(0), "Something else");
    assert_eq!(describe_number(-1), "Something else");
}

#[test]
fn control_flow_shows_branch_loops_and_match() {
    assert_eq!(
        control_flow(),
        vec![
            "x is positive",
            "0",
            "1",
            "2",
            "3",
            "4",
            "0",
            "1",
            "2",
            "3",
            "4",
            "Three, four, or five",
        ]
    );
}

#[test]
fn chapter1_main_runs_its_parts_in_order() {
    let mut expected = variables_and_mutability();
    expected.extend(data_types("3.14"));
    expected.extend(control_flow());
    let lines = chapter1_main("3.14");
    assert_eq!(lines.len(), 19);
    assert_eq!(lines, expected);
}
