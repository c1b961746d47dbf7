use rust_chapters::chapter7::{
    chapter7_main, get_optional_value, open_file, Attempt, CliError, FaultKind, IoFault, Verdict,
};

fn missing() -> IoFault {
    IoFault {
        kind: FaultKind::NotFound,
        message: String::from("No such file or directory (os error 2)"),
    }
}

fn denied() -> IoFault {
    IoFault {
        kind: FaultKind::Other,
        message: String::from("Permission denied (os error 13)"),
    }
}

#[test]
fn opened_file_is_the_result() {
    assert_eq!(open_file(Attempt::Open, &Ok(())), Verdict::File);
}

#[test]
fn missing_file_is_created() {
    assert_eq!(open_file(Attempt::Open, &Err(missing())), Verdict::Create);
}

#[test]
fn other_fault_on_opening_is_passed_on_by_its_kind() {
    assert_eq!(open_file(Attempt::Open, &Err(denied())), Verdict::FaultOfKind);
}

#[test]
fn created_file_is_the_result() {
    assert_eq!(open_file(Attempt::Create, &Ok(())), Verdict::File);
}

#[test]
fn fault_on_creating_is_passed_on_as_it_is() {
    assert_eq!(open_file(Attempt::Create, &Err(denied())), Verdict::Fault);
    assert_eq!(open_file(Attempt::Create, &Err(missing())), Verdict::Fault);
}

#[test]
fn cli_error_shows_heading_and_cause() {
    let error = CliError { cause: String::from("Failed to parse command line arguments") };
    assert_eq!(error.to_string(), "CLI Error: Failed to parse command line arguments");
    let bare = CliError { cause: String::new() };
    assert_eq!(bare.to_string(), "CLI Error: ");
}

#[test]
fn cli_error_takes_its_cause_from_the_fault() {
    let error = CliError::from(missing());
    assert_eq!(error.cause, "No such file or directory (os error 2)");
    let converted: CliError = denied().into();
    assert_eq!(converted.cause, "Permission denied (os error 13)");
}

#[test]
fn get_optional_value_gives_back_what_it_got() {
    assert_eq!(get_optional_value(Some(5)), Some(5));
    assert_eq!(get_optional_value(Some(i32::MIN)), Some(i32::MIN));
    assert_eq!(get_optional_value(None), None);
}

#[test]
fn chapter7_main_with_everything_in_place() {
    let (lines, error) = chapter7_main(
        Ok(String::from("File { fd: 3 }")),
        Ok(String::from("ferris")),
        Ok(String::from("some text\n")),
    );
    assert_eq!(
        lines,
        vec![
            "Successfully opened file: File { fd: 3 }",
            "Value is 5",
            "Username: ferris",
            "File contents: some text\n",
        ]
    );
    assert_eq!(error.cause, "Failed to parse command line arguments");
}

#[test]
fn chapter7_main_without_the_username_file() {
    let (lines, error) = chapter7_main(
        Ok(String::from("File { fd: 3 }")),
        Err(missing()),
        Ok(String::new()),
    );
    assert_eq!(
        lines,
        vec![
            "Successfully opened file: File { fd: 3 }",
            "Value is 5",
            "Failed to read username: No such file or directory (os error 2)",
            "File contents: ",
        ]
    );
    assert_eq!(error.cause, "Failed to parse command line arguments");
}

#[test]
fn chapter7_main_ends_early_where_the_contents_cannot_be_read() {
    let (lines, error) = chapter7_main(
        Err(String::from("Kind(PermissionDenied)")),
        Ok(String::from("ferris")),
        Err(denied()),
    );
    assert_eq!(
        lines,
        vec![
            "Problem opening the file: Kind(PermissionDenied)",
            "Value is 5",
            "Username: ferris",
        ]
    );
    assert_eq!(error.cause, "Permission denied (os error 13)");
    assert_eq!(error.to_string(), "CLI Error: Permission denied (os error 13)");
}
