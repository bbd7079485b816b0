//! What the task list tells the user after each step.

use crate::command::ParseError;
use crate::listing::Row;
use crate::text::{decimal, decimal_text};
use vstd::prelude::*;

verus! {

/// The outcome of one step: what was done or why nothing was done. It says
/// what to print, on which stream, whether the list has changed and has to
/// be saved, and whether the session is over.
#[derive(Clone, Debug, PartialEq, Eq)]
pub enum Report {
    /// A task was added.
    Added,
    /// The task at position `index` was removed.
    Removed { index: usize },
    /// The state of the task at position `index` was changed.
    StateSet { index: usize },
    /// The task at position `index` was done already.
    AlreadyDone { index: usize },
    /// The task at position `index` was not done anyway.
    StillUndone { index: usize },
    /// A deadline was set.
    DeadlineSet,
    /// The position names no task.
    InvalidIndex,
    /// The date and time could not be read; `reason` says why.
    BadDateTime { reason: String },
    /// The local clock shows the date and time never, or twice.
    UnresolvedLocalTime,
    /// The rows of a listing, from top to bottom.
    Listed { rows: Vec<Row> },
    /// The user asked what the commands are.
    Help,
    /// The user ended the session.
    Goodbye,
    /// No line of input could be read.
    ReadFailed,
    /// The line held no command.
    Nothing,
    /// The line spelled no command.
    Rejected { error: ParseError },
    /// The place where the list is kept could not be found or made.
    StoreUnavailable,
    /// What is kept there is no task list.
    StoreCorrupt,
}

/// The message about the task at position `index` that starts with `before`
/// and ends with `after`.
pub open spec fn indexed_message(before: Seq<char>, index: usize, after: Seq<char>) -> Seq<char> {
    before + decimal(index as nat) + after
}

fn write_indexed(before: &str, index: usize, after: &str) -> (r: String)
    ensures
        r@ == indexed_message(before@, index, after@),
{
    let mut s = String::from_str(before);
    s.append(decimal_text(index).as_str());
    s.append(after);
    s
}

/// The message for a line that spells no command.
pub open spec fn parse_error_message(error: ParseError) -> Seq<char> {
    match error {
        ParseError::NoValidCommand => "no valid command"@,
        ParseError::MissingArgument => "missing argument"@,
        ParseError::UnexpectedArgument => "unexpected argument"@,
        ParseError::InvalidNumber => "invalid number"@,
        ParseError::InvalidOption => "invalid option"@,
    }
}

/// The lines that explain the commands.
pub open spec fn help_lines() -> Seq<Seq<char>> {
    seq![
        "add <text...>                      add a task"@,
        "list [--status done|undone|all] [--sort no-sort|created|deadline]"@,
        "                                   show the tasks"@,
        "remove <index>                     remove a task"@,
        "do <index>                         mark a task as done"@,
        "undo <index>                       mark a task as not done"@,
        "deadline <index> <date> [time]     set a deadline, YYYY-MM-DD and HH:MM"@,
        "help                               show this text"@,
        "exit                               end the session"@,
    ]
}

fn write_help() -> (r: Vec<String>)
    ensures
        r.deep_view() == help_lines(),
{
    let mut lines: Vec<String> = Vec::new();
    lines.push(String::from_str("add <text...>                      add a task"));
    lines.push(
        String::from_str("list [--status done|undone|all] [--sort no-sort|created|deadline]"),
    );
    lines.push(String::from_str("                                   show the tasks"));
    lines.push(String::from_str("remove <index>                     remove a task"));
    lines.push(String::from_str("do <index>                         mark a task as done"));
    lines.push(String::from_str("undo <index>                       mark a task as not done"));
    lines.push(
        String::from_str("deadline <index> <date> [time]     set a deadline, YYYY-MM-DD and HH:MM"),
    );
    lines.push(String::from_str("help                               show this text"));
    lines.push(String::from_str("exit                               end the session"));
    assert(lines.deep_view() =~= help_lines());
    lines
}

fn one_line(line: String) -> (r: Vec<String>)
    ensures
        r.deep_view() == seq![line@],
{
    let mut lines: Vec<String> = Vec::new();
    lines.push(line);
    assert(lines.deep_view() =~= seq![line@]);
    lines
}

fn write_rows(rows: &Vec<Row>) -> (r: Vec<String>)
    ensures
        r.deep_view() == rows@.map_values(|row: Row| row.text()),
{
    let mut lines: Vec<String> = Vec::new();
    let mut k: usize = 0;
    while k < rows.len()
        invariant
            k <= rows.len(),
            lines.len() == k,
            forall|j: int| 0 <= j < k ==> (#[trigger] lines[j])@ == rows[j].text(),
        decreases rows.len() - k,
    {
        lines.push(rows[k].line());
        k = k + 1;
    }
    assert(lines.deep_view() =~= rows@.map_values(|row: Row| row.text()));
    lines
}

impl Report {
    /// Whether the step changed the list, which then has to be saved.
    pub open spec fn spec_changed(&self) -> bool {
        self is Added || self is Removed || self is StateSet || self is DeadlineSet
    }

    /// Tells whether the step changed the list, which then has to be saved.
    #[verifier::when_used_as_spec(spec_changed)]
    pub fn changed(&self) -> (r: bool)
        ensures
            r == self.spec_changed(),
    {
        match self {
            Report::Added => true,
            Report::Removed { .. } => true,
            Report::StateSet { .. } => true,
            Report::DeadlineSet => true,
            _ => false,
        }
    }

    /// Whether the report is of a failure, and belongs on the error stream.
    pub open spec fn spec_is_failure(&self) -> bool {
        self is InvalidIndex || self is BadDateTime || self is UnresolvedLocalTime
            || self is Rejected || self is StoreCorrupt
    }

    /// Tells whether the report is of a failure, and belongs on the error
    /// stream.
    #[verifier::when_used_as_spec(spec_is_failure)]
    pub fn is_failure(&self) -> (r: bool)
        ensures
            r == self.spec_is_failure(),
    {
        match self {
            Report::InvalidIndex => true,
            Report::BadDateTime { .. } => true,
            Report::UnresolvedLocalTime => true,
            Report::Rejected { .. } => true,
            Report::StoreCorrupt => true,
            _ => false,
        }
    }

    /// Whether the session is over.
    pub open spec fn spec_ends_session(&self) -> bool {
        self is Goodbye
    }

    /// Tells whether the session is over.
    #[verifier::when_used_as_spec(spec_ends_session)]
    pub fn ends_session(&self) -> (r: bool)
        ensures
            r == self.spec_ends_session(),
    {
        match self {
            Report::Goodbye => true,
            _ => false,
        }
    }

    /// The lines that the report prints.
    pub open spec fn text(&self) -> Seq<Seq<char>> {
        match *self {
            Report::Added => seq!["Task added."@],
            Report::Removed { index } => seq![indexed_message("Task "@, index, " was removed"@)],
            Report::StateSet { index } => seq![
                indexed_message("State of task "@, index, " set accordingly"@),
            ],
            Report::AlreadyDone { index } => seq![
                indexed_message("Task "@, index, " was already done"@),
            ],
            Report::StillUndone { index } => seq![
                indexed_message("Task "@, index, " is still undone"@),
            ],
            Report::DeadlineSet => seq!["Date changed"@],
            Report::InvalidIndex => seq!["Invalid index"@],
            Report::BadDateTime { reason } => seq!["Error: "@ + reason@],
            Report::UnresolvedLocalTime => seq!["could not resolve local time"@],
            Report::Listed { rows } => rows@.map_values(|row: Row| row.text()),
            Report::Help => help_lines(),
            Report::Goodbye => seq!["Goodbye"@],
            Report::ReadFailed => seq!["failed to read input"@],
            Report::Nothing => Seq::empty(),
            Report::Rejected { error } => seq![parse_error_message(error)],
            Report::StoreUnavailable => seq!["something went wrong during getting data_dir"@],
            Report::StoreCorrupt => seq!["Failed to parse tasks.json, starting empty"@],
        }
    }

    /// Writes the lines that the report prints.
    pub fn lines(&self) -> (r: Vec<String>)
        ensures
            r.deep_view() == self.text(),
    {
        match self {
            Report::Added => one_line(String::from_str("Task added.")),
            Report::Removed { index } => one_line(write_indexed("Task ", *index, " was removed")),
            Report::StateSet { index } => one_line(
                write_indexed("State of task ", *index, " set accordingly"),
            ),
            Report::AlreadyDone { index } => one_line(
                write_indexed("Task ", *index, " was already done"),
            ),
            Report::StillUndone { index } => one_line(
                write_indexed("Task ", *index, " is still undone"),
            ),
            Report::DeadlineSet => one_line(String::from_str("Date changed")),
            Report::InvalidIndex => one_line(String::from_str("Invalid index")),
            Report::BadDateTime { reason } => {
                let mut s = String::from_str("Error: ");
                s.append(reason.as_str());
                one_line(s)
            },
            Report::UnresolvedLocalTime => one_line(
                String::from_str("could not resolve local time"),
            ),
            Report::Listed { rows } => write_rows(rows),
            Report::Help => write_help(),
            Report::Goodbye => one_line(String::from_str("Goodbye")),
            Report::ReadFailed => one_line(String::from_str("failed to read input")),
            Report::Nothing => {
                let lines: Vec<String> = Vec::new();
                assert(lines.deep_view() =~= Seq::<Seq<char>>::empty());
                lines
            },
            Report::Rejected { error } => one_line(
                String::from_str(
                    match error {
                        ParseError::NoValidCommand => "no valid command",
                        ParseError::MissingArgument => "missing argument",
                        ParseError::UnexpectedArgument => "unexpected argument",
                        ParseError::InvalidNumber => "invalid number",
                        ParseError::InvalidOption => "invalid option",
                    },
                ),
            ),
            Report::StoreUnavailable => one_line(
                String::from_str("something went wrong during getting data_dir"),
            ),
            Report::StoreCorrupt => one_line(
                String::from_str("Failed to parse tasks.json, starting empty"),
            ),
        }
    }
}

} // verus!
