//! What a committed input line amounts to: nothing, one of the colon
//! commands, or an expression for the evaluator.

use crate::evaluator::{admissible, is_admissible};
use crate::text::{same_text, trim, trimmed};
use vstd::prelude::*;
use vstd::string::StrSliceExecFns;

verus! {

/// What a trimmed input line that starts with `:` asks for.
#[derive(Clone, Copy, Debug, PartialEq, Eq)]
pub enum Command {
    /// `:c` or `:clear`: empty the history and forget all variables.
    Clear,
    /// `:q` or `:quit`: leave the application.
    Quit,
    /// `:h` or `:help`: open the help popup.
    Help,
    /// Any other line.
    Unknown,
}

/// Whether a trimmed line is a command rather than an expression: it
/// starts with a colon.
pub open spec fn is_command(line: Seq<char>) -> bool {
    line.len() > 0 && line[0] == ':'
}

/// The command a trimmed line names. The whole line must match, case and
/// all; every other line is `Unknown`.
pub open spec fn command_of(line: Seq<char>) -> Command {
    if line == ":c"@ || line == ":clear"@ {
        Command::Clear
    } else if line == ":q"@ || line == ":quit"@ {
        Command::Quit
    } else if line == ":h"@ || line == ":help"@ {
        Command::Help
    } else {
        Command::Unknown
    }
}

/// Reads the command that a trimmed line names.
pub fn parse_command(line: &str) -> (command: Command)
    ensures
        command == command_of(line@),
{
    if same_text(line, ":c") || same_text(line, ":clear") {
        Command::Clear
    } else if same_text(line, ":q") || same_text(line, ":quit") {
        Command::Quit
    } else if same_text(line, ":h") || same_text(line, ":help") {
        Command::Help
    } else {
        Command::Unknown
    }
}

/// What committing the input line amounts to.
#[derive(Debug, PartialEq, Eq)]
pub enum Submission {
    /// The help popup is open: the commit closes it and touches nothing else.
    CloseHelp,
    /// The line is empty or all white space: nothing happens.
    Blank,
    /// The line is a command.
    Run(Command),
    /// The line, trimmed, is an expression for the evaluator.
    Evaluate(String),
    /// The line is an expression that the evaluator is not trusted with.
    Refuse,
}

/// The mathematical content of a `Submission`.
pub enum SubmissionView {
    CloseHelp,
    Blank,
    Run(Command),
    Evaluate(Seq<char>),
    Refuse,
}

impl View for Submission {
    type V = SubmissionView;

    open spec fn view(&self) -> SubmissionView {
        match self {
            Submission::CloseHelp => SubmissionView::CloseHelp,
            Submission::Blank => SubmissionView::Blank,
            Submission::Run(command) => SubmissionView::Run(*command),
            Submission::Evaluate(expression) => SubmissionView::Evaluate(expression@),
            Submission::Refuse => SubmissionView::Refuse,
        }
    }
}

/// What committing the trimmed line `line` amounts to while the help popup
/// is closed.
pub open spec fn line_submission(line: Seq<char>) -> SubmissionView {
    if line.len() == 0 {
        SubmissionView::Blank
    } else if is_command(line) {
        SubmissionView::Run(command_of(line))
    } else if admissible(line) {
        SubmissionView::Evaluate(line)
    } else {
        SubmissionView::Refuse
    }
}

/// What committing the raw line `input` amounts to, with the help popup
/// open or not.
pub open spec fn submission_of(show_help: bool, input: Seq<char>) -> SubmissionView {
    if show_help {
        SubmissionView::CloseHelp
    } else {
        line_submission(trimmed(input))
    }
}

/// Decides what committing the trimmed line `line` amounts to while the
/// help popup is closed.
pub fn classify_line(line: &str) -> (submission: Submission)
    ensures
        submission@ == line_submission(line@),
{
    if line.unicode_len() == 0 {
        Submission::Blank
    } else if line.get_char(0) == ':' {
        Submission::Run(parse_command(line))
    } else if is_admissible(line) {
        Submission::Evaluate(line.to_owned())
    } else {
        Submission::Refuse
    }
}

/// Decides what committing the raw line `input` amounts to.
pub fn classify(show_help: bool, input: &str) -> (submission: Submission)
    ensures
        submission@ == submission_of(show_help, input@),
{
    if show_help {
        Submission::CloseHelp
    } else {
        classify_line(trim(input))
    }
}

} // verus!
