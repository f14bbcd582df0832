//! Where the lines of a batch come from, and what is said when they cannot be
//! had.

use vstd::prelude::*;

verus! {

/// The two places from which a batch can be read.
#[derive(Clone, Copy, Debug, PartialEq, Eq, Structural)]
pub enum SourceChoice {
    /// The process's standard input.
    StandardInput,
    /// The file at the path given.
    File,
}

/// The source that the argument `path` stands for: standard input for the
/// single character `-`, a file for everything else.
pub open spec fn source_of(path: Seq<char>) -> SourceChoice {
    if path.len() == 1 && path[0] == '-' {
        SourceChoice::StandardInput
    } else {
        SourceChoice::File
    }
}

/// Tells which source the argument of a batch run names.
pub fn select_source(path: &str) -> (choice: SourceChoice)
    ensures
        choice == source_of(path@),
{
    if path.unicode_len() == 1 && path.get_char(0) == '-' {
        SourceChoice::StandardInput
    } else {
        SourceChoice::File
    }
}

/// The diagnostic for a path at which there is nothing.
pub open spec fn missing_path_text(path: Seq<char>) -> Seq<char> {
    "\""@ + path + "\" does not exist"@
}

/// The diagnostic for a file that is there and cannot be opened; `cause` is
/// what the system gave as the reason.
pub open spec fn open_failure_text(path: Seq<char>, cause: Seq<char>) -> Seq<char> {
    "Could not open file at \""@ + path + "\": "@ + cause
}

/// Words the diagnostic for a path at which there is nothing.
pub fn missing_path_message(path: &str) -> (message: String)
    ensures
        message@ == missing_path_text(path@),
{
    let mut message = "\"".to_owned();
    message.append(path);
    message.append("\" does not exist");
    message
}

/// Words the diagnostic for a file that cannot be opened.
pub fn open_failure_message(path: &str, cause: &str) -> (message: String)
    ensures
        message@ == open_failure_text(path@, cause@),
{
    let mut message = "Could not open file at \"".to_owned();
    message.append(path);
    message.append("\": ");
    message.append(cause);
    message
}

} // verus!
