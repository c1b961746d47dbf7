use rust_chapters::chapter9::{
    chapter9_main, factorial, hello_from, hello_world, macro_example_1, macro_example_2,
    macro_example_3, macro_example_4, macro_example_5, MyMacro, MyStruct,
};

#[test]
fn macro_example_1_shows_expressions_beside_values() {
    assert_eq!(
        macro_example_1(),
        vec!["x = 42", "x + 2 = 44", "String::from(\"hello\") = \"hello\""]
    );
}

#[test]
fn macro_example_1_agrees_with_debug() {
    let x = 42;
    let lines = macro_example_1();
    assert_eq!(lines[0], format!("{} = {:?}", "x", x));
    assert_eq!(lines[1], format!("{} = {:?}", "x + 2", x + 2));
    assert_eq!(
        lines[2],
        format!("{} = {:?}", "String::from(\"hello\")", String::from("hello"))
    );
}

#[test]
fn hello_world_greets() {
    assert_eq!(hello_world(), "Hello, world!");
    assert_eq!(macro_example_2(), vec!["Hello, world!"]);
}

#[test]
fn factorial_of_small_numbers() {
    assert_eq!(factorial(0), Some(1));
    assert_eq!(factorial(1), Some(1));
    assert_eq!(factorial(2), Some(2));
    assert_eq!(factorial(5), Some(120));
    assert_eq!(factorial(10), Some(3_628_800));
}

#[test]
fn factorial_up_to_what_fits() {
    assert_eq!(factorial(20), Some(2_432_902_008_176_640_000));
    assert_eq!(factorial(21), None);
    assert_eq!(factorial(22), None);
    assert_eq!(factorial(u32::MAX), None);
}

#[test]
fn macro_example_3_shows_the_factorial_of_five() {
    assert_eq!(macro_example_3(), vec!["Factorial of 5 is 120"]);
}

#[test]
fn macro_example_4_shows_the_vector() {
    assert_eq!(macro_example_4(), vec!["[1, 2, 3, 4, 5]"]);
    assert_eq!(macro_example_4()[0], format!("{:?}", vec![1, 2, 3, 4, 5]));
}

#[test]
fn hello_from_names_the_type() {
    assert_eq!(hello_from("MyStruct"), "Hello from MyStruct!");
    assert_eq!(hello_from(""), "Hello from !");
    assert_eq!(hello_from("Other"), "Hello from Other!");
}

#[test]
fn my_struct_greets_under_its_name() {
    let my_struct = MyStruct {};
    assert_eq!(my_struct.my_method(), "Hello from MyStruct!");
    assert_eq!(macro_example_5(), vec!["Hello from MyStruct!"]);
}

#[test]
fn chapter9_main_runs_its_examples_in_order() {
    assert_eq!(
        chapter9_main(),
        vec![
            "x = 42",
            "x + 2 = 44",
            "String::from(\"hello\") = \"hello\"",
            "Hello, world!",
            "Factorial of 5 is 120",
            "[1, 2, 3, 4, 5]",
            "Hello from MyStruct!",
        ]
    );
}
