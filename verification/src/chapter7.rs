//! Errors of one's own: a fault of the file system, an error that wraps its
//! cause, and what to do when a file cannot be opened.

use vstd::prelude::*;
use vstd::std_specs::convert::FromSpecImpl;
use vstd::string::*;
use crate::text::captioned;

verus! {

/// The kinds of fault that the chapter tells apart.
#[derive(Clone, Copy, Debug, PartialEq, Eq, Structural)]
pub enum FaultKind {
    /// There is no file of that name.
    NotFound,
    /// Any other fault.
    Other,
}

/// A fault of the file system: its kind, and what it says of itself.
#[derive(Debug)]
pub struct IoFault {
    pub kind: FaultKind,
    pub message: String,
}

/// An error of the command line, which keeps its cause as text.
#[derive(Debug)]
pub struct CliError {
    pub cause: String,
}

impl CliError {
    /// The error as it shows itself: a fixed heading, then the cause.
    pub fn to_string(&self) -> (text: String)
        ensures
            text@ == "CLI Error: "@ + self.cause@,
    {
        let mut text = String::from_str("CLI Error: ");
        text.append(self.cause.as_str());
        text
    }
}

impl From<IoFault> for CliError {
    /// A fault of the file system becomes an error whose cause is what the
    /// fault says of itself.
    fn from(error: IoFault) -> (converted: CliError) {
        CliError { cause: error.message }
    }
}

impl FromSpecImpl<IoFault> for CliError {
    open spec fn obeys_from_spec() -> bool {
        true
    }

    open spec fn from_spec(error: IoFault) -> CliError {
        CliError { cause: error.message }
    }
}

/// What was tried on a file.
#[derive(Clone, Copy, Debug, PartialEq, Eq, Structural)]
pub enum Attempt {
    /// To open a file that is there.
    Open,
    /// To create the file.
    Create,
}

/// What follows an attempt.
#[derive(Clone, Copy, Debug, PartialEq, Eq, Structural)]
pub enum Verdict {
    /// The attempt gave a file: hand it to the caller.
    File,
    /// Try to create the file, and come back with the outcome.
    Create,
    /// Hand the caller the fault as it came.
    Fault,
    /// Hand the caller a new fault that keeps the kind of this one alone.
    FaultOfKind,
}

/// The rule of `open_file`: a file that was opened or created is the result;
/// a file that is not there is created; any other fault on opening is passed
/// on by its kind alone, and a fault on creating as it is.
pub open spec fn open_file_verdict(attempt: Attempt, outcome: Result<(), IoFault>) -> Verdict {
    match outcome {
        Ok(_) => Verdict::File,
        Err(fault) => match attempt {
            Attempt::Open => if fault.kind == FaultKind::NotFound {
                Verdict::Create
            } else {
                Verdict::FaultOfKind
            },
            Attempt::Create => Verdict::Fault,
        },
    }
}

/// Decides what follows an attempt to open or to create a file, given its
/// outcome. The caller starts with `Attempt::Open`, and makes the attempt
/// to create only when told so.
pub fn open_file(attempt: Attempt, outcome: &Result<(), IoFault>) -> (verdict: Verdict)
    ensures
        verdict == open_file_verdict(attempt, *outcome),
{
    match outcome {
        Ok(_) => Verdict::File,
        Err(error) => match attempt {
            Attempt::Open => match error.kind {
                FaultKind::NotFound => Verdict::Create,
                FaultKind::Other => Verdict::FaultOfKind,
            },
            Attempt::Create => Verdict::Fault,
        },
    }
}

/// Takes the value out of an `Option` and wraps it again.
pub fn get_optional_value(x: Option<i32>) -> (value: Option<i32>)
    ensures
        value == x,
{
    match x {
        Some(value) => Some(value),
        None => None,
    }
}

/// The line on the file that was to be opened: the `{:?}` form of the file, or of
/// the fault.
pub open spec fn opened_line(opened: Result<String, String>) -> Seq<char> {
    match opened {
        Ok(file) => "Successfully opened file: "@ + file@,
        Err(fault) => "Problem opening the file: "@ + fault@,
    }
}

/// The line on the user's name: the name as it was read, or what the fault
/// says of itself.
pub open spec fn username_line(username: Result<String, IoFault>) -> Seq<char> {
    match username {
        Ok(name) => "Username: "@ + name@,
        Err(fault) => "Failed to read username: "@ + fault.message@,
    }
}

/// What the seventh chapter shows: a line on the file, the value of an
/// `Option`, a line on the user's name, and the file's contents where they
/// could be read.
pub open spec fn chapter7_lines(
    opened: Result<String, String>,
    username: Result<String, IoFault>,
    contents: Result<String, IoFault>,
) -> Seq<Seq<char>> {
    let first = seq![opened_line(opened), "Value is 5"@, username_line(username)];
    match contents {
        Ok(text) => first.push("File contents: "@ + text@),
        Err(_) => first,
    }
}

/// The cause of the error with which the seventh chapter ends: what the fault
/// says where the contents could not be read, and else that the command line
/// could not be parsed.
pub open spec fn chapter7_cause(contents: Result<String, IoFault>) -> Seq<char> {
    match contents {
        Ok(_) => "Failed to parse command line arguments"@,
        Err(fault) => fault.message@,
    }
}

/// The seventh chapter, given what the file system answered: the `{:?}` form
/// of the file that was opened or of the fault, the user's name or the fault
/// on reading it, and the file's contents or the fault on reading them. It
/// hands back the lines to show and the error with which it ends.
pub fn chapter7_main(
    opened: Result<String, String>,
    username: Result<String, IoFault>,
    contents: Result<String, IoFault>,
) -> (outcome: (Vec<String>, CliError))
    ensures
        outcome.0.deep_view() == chapter7_lines(opened, username, contents),
        outcome.1.cause@ == chapter7_cause(contents),
{
    let mut lines: Vec<String> = Vec::new();
    match &opened {
        Ok(file) => {
            let mut line = String::from_str("Successfully opened file: ");
            line.append(file.as_str());
            lines.push(line);
        },
        Err(e) => {
            let mut line = String::from_str("Problem opening the file: ");
            line.append(e.as_str());
            lines.push(line);
        },
    }

    let x: Option<i32> = Some(5);
    let value = get_optional_value(x);
    match value {
        Some(v) => {
            lines.push(captioned("Value is ", v));
        },
        None => {
            lines.push(String::from_str("Value is None"));
        },
    }

    match &username {
        Ok(name) => {
            let mut line = String::from_str("Username: ");
            line.append(name.as_str());
            lines.push(line);
        },
        Err(e) => {
            let mut line = String::from_str("Failed to read username: ");
            line.append(e.message.as_str());
            lines.push(line);
        },
    }
    proof {
        reveal_strlit("Value is ");
        reveal_strlit("Value is 5");
        assert(lines.deep_view() =~~= seq![
            opened_line(opened),
            "Value is 5"@,
            username_line(username),
        ]);
    }

    match contents {
        Ok(text) => {
            let mut line = String::from_str("File contents: ");
            line.append(text.as_str());
            lines.push(line);
            (lines, CliError { cause: String::from_str("Failed to parse command line arguments") })
        },
        Err(fault) => (lines, CliError::from(fault)),
    }
}

} // verus!
