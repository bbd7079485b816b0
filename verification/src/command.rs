//! The commands of the task list and the language in which a line of input
//! spells them.

use crate::task::{SortBy, StatusFilter};
use crate::words::{number, parse_number, split_words, words};
use vstd::prelude::*;

verus! {

/// What the user can ask of the task list.
#[derive(Clone, Debug, PartialEq, Eq)]
pub enum Commands {
    /// Add a task. Its objective is the words of `text`, joined by spaces.
    Add { text: Vec<String> },
    /// Show the tasks that `status` selects, in the order of `sort`.
    List { status: StatusFilter, sort: SortBy },
    /// Remove the task at position `index`.
    Remove { index: usize },
    /// Mark the task at position `index` as done.
    Do { index: usize },
    /// Mark the task at position `index` as not done.
    Undo { index: usize },
    /// Set the deadline of the task at position `index` to the local `date`
    /// and `time`.
    Deadline { index: usize, date: String, time: String },
    /// Show what the commands are.
    Help,
    /// End the session.
    Exit,
}

/// A parsed command line: one command, or none where the line was empty.
#[derive(Clone, Debug, PartialEq, Eq)]
pub struct Cli {
    pub command: Option<Commands>,
}

/// A command with its texts as sequences of characters.
pub enum CommandView {
    Add { text: Seq<Seq<char>> },
    List { status: StatusFilter, sort: SortBy },
    Remove { index: usize },
    Do { index: usize },
    Undo { index: usize },
    Deadline { index: usize, date: Seq<char>, time: Seq<char> },
    Help,
    Exit,
}

impl View for Commands {
    type V = CommandView;

    open spec fn view(&self) -> CommandView {
        match *self {
            Commands::Add { text } => CommandView::Add { text: text.deep_view() },
            Commands::List { status, sort } => CommandView::List { status, sort },
            Commands::Remove { index } => CommandView::Remove { index },
            Commands::Do { index } => CommandView::Do { index },
            Commands::Undo { index } => CommandView::Undo { index },
            Commands::Deadline { index, date, time } => CommandView::Deadline {
                index,
                date: date@,
                time: time@,
            },
            Commands::Help => CommandView::Help,
            Commands::Exit => CommandView::Exit,
        }
    }
}

impl View for Cli {
    type V = Option<CommandView>;

    open spec fn view(&self) -> Option<CommandView> {
        match self.command {
            Some(command) => Some(command@),
            None => None,
        }
    }
}

/// Why a line of input spells no command.
#[derive(Clone, Copy, Debug, PartialEq, Eq, Structural)]
pub enum ParseError {
    /// The first word names no command.
    NoValidCommand,
    /// The command lacks an argument, or an option lacks its value.
    MissingArgument,
    /// There is a word that the command has no use for, or an option that
    /// comes a second time.
    UnexpectedArgument,
    /// A position is not a number.
    InvalidNumber,
    /// The value of an option is none of those that the option takes.
    InvalidOption,
}

/// The filter that `word` names as the value of `--status`.
pub open spec fn status_value(word: Seq<char>) -> Option<StatusFilter> {
    if word == "done"@ {
        Some(StatusFilter::Done)
    } else if word == "undone"@ {
        Some(StatusFilter::Undone)
    } else if word == "all"@ {
        Some(StatusFilter::All)
    } else {
        None
    }
}

/// The order that `word` names as the value of `--sort`.
pub open spec fn sort_value(word: Seq<char>) -> Option<SortBy> {
    if word == "no-sort"@ {
        Some(SortBy::NoSort)
    } else if word == "created"@ {
        Some(SortBy::Created)
    } else if word == "deadline"@ {
        Some(SortBy::Deadline)
    } else {
        None
    }
}

/// The `list` command that the options `args` spell after those already
/// read, which gave `status` and `sort`. Each option comes at most once and
/// is followed by its value; without `--status` every task is shown, without
/// `--sort` the tasks are not sorted.
pub open spec fn list_command(
    args: Seq<Seq<char>>,
    status: Option<StatusFilter>,
    sort: Option<SortBy>,
) -> Result<CommandView, ParseError>
    decreases args.len(),
{
    if args.len() == 0 {
        Ok(
            CommandView::List {
                status: match status {
                    Some(s) => s,
                    None => StatusFilter::All,
                },
                sort: match sort {
                    Some(s) => s,
                    None => SortBy::NoSort,
                },
            },
        )
    } else if args[0] == "--status"@ {
        if status is Some {
            Err(ParseError::UnexpectedArgument)
        } else if args.len() < 2 {
            Err(ParseError::MissingArgument)
        } else {
            match status_value(args[1]) {
                Some(s) => list_command(args.skip(2), Some(s), sort),
                None => Err(ParseError::InvalidOption),
            }
        }
    } else if args[0] == "--sort"@ {
        if sort is Some {
            Err(ParseError::UnexpectedArgument)
        } else if args.len() < 2 {
            Err(ParseError::MissingArgument)
        } else {
            match sort_value(args[1]) {
                Some(s) => list_command(args.skip(2), status, Some(s)),
                None => Err(ParseError::InvalidOption),
            }
        }
    } else {
        Err(ParseError::UnexpectedArgument)
    }
}

/// The position that `args` gives to a command that takes a position and
/// nothing else.
pub open spec fn sole_position(args: Seq<Seq<char>>) -> Result<usize, ParseError> {
    if args.len() == 0 {
        Err(ParseError::MissingArgument)
    } else if args.len() > 1 {
        Err(ParseError::UnexpectedArgument)
    } else {
        match number(args[0]) {
            Some(index) => Ok(index),
            None => Err(ParseError::InvalidNumber),
        }
    }
}

/// The `deadline` command that `args` spells: a position, a date, and a time
/// that is 23:59 where `args` gives none.
pub open spec fn deadline_command(args: Seq<Seq<char>>) -> Result<CommandView, ParseError> {
    if args.len() < 2 {
        Err(ParseError::MissingArgument)
    } else if args.len() > 3 {
        Err(ParseError::UnexpectedArgument)
    } else {
        match number(args[0]) {
            Some(index) => Ok(
                CommandView::Deadline {
                    index,
                    date: args[1],
                    time: if args.len() == 3 {
                        args[2]
                    } else {
                        "23:59"@
                    },
                },
            ),
            None => Err(ParseError::InvalidNumber),
        }
    }
}

/// The command that takes no argument, where `args` gives none.
pub open spec fn bare_command(args: Seq<Seq<char>>, command: CommandView) -> Result<
    CommandView,
    ParseError,
> {
    if args.len() == 0 {
        Ok(command)
    } else {
        Err(ParseError::UnexpectedArgument)
    }
}

/// The command that the first word `name` and the words `args` after it
/// spell. Names are matched exactly, in lower case.
pub open spec fn named_command(name: Seq<char>, args: Seq<Seq<char>>) -> Result<
    CommandView,
    ParseError,
> {
    if name == "add"@ {
        if args.len() == 0 {
            Err(ParseError::MissingArgument)
        } else {
            Ok(CommandView::Add { text: args })
        }
    } else if name == "list"@ {
        list_command(args, None, None)
    } else if name == "remove"@ {
        match sole_position(args) {
            Ok(index) => Ok(CommandView::Remove { index }),
            Err(e) => Err(e),
        }
    } else if name == "do"@ {
        match sole_position(args) {
            Ok(index) => Ok(CommandView::Do { index }),
            Err(e) => Err(e),
        }
    } else if name == "undo"@ {
        match sole_position(args) {
            Ok(index) => Ok(CommandView::Undo { index }),
            Err(e) => Err(e),
        }
    } else if name == "deadline"@ {
        deadline_command(args)
    } else if name == "help"@ {
        bare_command(args, CommandView::Help)
    } else if name == "exit"@ {
        bare_command(args, CommandView::Exit)
    } else {
        Err(ParseError::NoValidCommand)
    }
}

/// What the words `w` of a line spell: no command where there is no word,
/// else the command that the first word names.
pub open spec fn command_of(w: Seq<Seq<char>>) -> Result<Option<CommandView>, ParseError> {
    if w.len() == 0 {
        Ok(None)
    } else {
        match named_command(w[0], w.skip(1)) {
            Ok(command) => Ok(Some(command)),
            Err(e) => Err(e),
        }
    }
}

/// The outcome of reading one command, with its texts as sequences of
/// characters.
pub open spec fn read_view(r: Result<Commands, ParseError>) -> Result<CommandView, ParseError> {
    match r {
        Ok(command) => Ok(command@),
        Err(e) => Err(e),
    }
}

/// The outcome of a parse with its texts as sequences of characters.
pub open spec fn parsed_view(r: Result<Cli, ParseError>) -> Result<
    Option<CommandView>,
    ParseError,
> {
    match r {
        Ok(cli) => Ok(cli@),
        Err(e) => Err(e),
    }
}

fn is_word(token: &String, word: &str) -> (r: bool)
    ensures
        r == (token@ == word@),
{
    let w = String::from_str(word);
    *token == w
}

fn read_status(word: &String) -> (r: Option<StatusFilter>)
    ensures
        r == status_value(word@),
{
    if is_word(word, "done") {
        Some(StatusFilter::Done)
    } else if is_word(word, "undone") {
        Some(StatusFilter::Undone)
    } else if is_word(word, "all") {
        Some(StatusFilter::All)
    } else {
        None
    }
}

fn read_sort(word: &String) -> (r: Option<SortBy>)
    ensures
        r == sort_value(word@),
{
    if is_word(word, "no-sort") {
        Some(SortBy::NoSort)
    } else if is_word(word, "created") {
        Some(SortBy::Created)
    } else if is_word(word, "deadline") {
        Some(SortBy::Deadline)
    } else {
        None
    }
}

fn read_list(args: &Vec<String>) -> (r: Result<Commands, ParseError>)
    ensures
        read_view(r) == list_command(args.deep_view(), None, None),
{
    let mut status: Option<StatusFilter> = None;
    let mut sort: Option<SortBy> = None;
    let mut i: usize = 0;
    let ghost all = args.deep_view();
    assert(all.skip(0) =~= all);
    while i < args.len()
        invariant
            i <= args.len(),
            all == args.deep_view(),
            list_command(all.skip(i as int), status, sort) == list_command(all, None, None),
        decreases args.len() - i,
    {
        let ghost rest = all.skip(i as int);
        assert(rest[0] == args[i as int]@);
        let is_status = is_word(&args[i], "--status");
        let is_sort = is_word(&args[i], "--sort");
        if !is_status && !is_sort {
            return Err(ParseError::UnexpectedArgument);
        }
        if (is_status && status.is_some()) || (!is_status && sort.is_some()) {
            return Err(ParseError::UnexpectedArgument);
        }
        if args.len() - i < 2 {
            return Err(ParseError::MissingArgument);
        }
        assert(rest[1] == args[i + 1]@);
        assert(rest.skip(2) =~= all.skip(i + 2));
        if is_status {
            match read_status(&args[i + 1]) {
                Some(s) => {
                    status = Some(s);
                },
                None => {
                    return Err(ParseError::InvalidOption);
                },
            }
        } else {
            match read_sort(&args[i + 1]) {
                Some(s) => {
                    sort = Some(s);
                },
                None => {
                    return Err(ParseError::InvalidOption);
                },
            }
        }
        i = i + 2;
    }
    Ok(
        Commands::List {
            status: match status {
                Some(s) => s,
                None => StatusFilter::All,
            },
            sort: match sort {
                Some(s) => s,
                None => SortBy::NoSort,
            },
        },
    )
}

fn read_sole_position(args: &Vec<String>) -> (r: Result<usize, ParseError>)
    ensures
        r == sole_position(args.deep_view()),
{
    if args.len() == 0 {
        Err(ParseError::MissingArgument)
    } else if args.len() > 1 {
        Err(ParseError::UnexpectedArgument)
    } else {
        match parse_number(args[0].as_str()) {
            Some(index) => Ok(index),
            None => Err(ParseError::InvalidNumber),
        }
    }
}

fn read_deadline(args: &Vec<String>) -> (r: Result<Commands, ParseError>)
    ensures
        read_view(r) == deadline_command(args.deep_view()),
{
    if args.len() < 2 {
        Err(ParseError::MissingArgument)
    } else if args.len() > 3 {
        Err(ParseError::UnexpectedArgument)
    } else {
        match parse_number(args[0].as_str()) {
            Some(index) => {
                let date = args[1].clone();
                let time = if args.len() == 3 {
                    args[2].clone()
                } else {
                    String::from_str("23:59")
                };
                Ok(Commands::Deadline { index, date, time })
            },
            None => Err(ParseError::InvalidNumber),
        }
    }
}

/// Reads the command that `tokens`, the words of a line, spell.
pub fn parse_words(tokens: Vec<String>) -> (r: Result<Cli, ParseError>)
    ensures
        parsed_view(r) == command_of(tokens.deep_view()),
{
    let ghost w = tokens.deep_view();
    let mut args = tokens;
    if args.len() == 0 {
        return Ok(Cli { command: None });
    }
    let name = args.remove(0);
    assert(args.deep_view() =~= w.skip(1));
    assert(name@ == w[0]);
    let read = if is_word(&name, "add") {
        if args.len() == 0 {
            Err(ParseError::MissingArgument)
        } else {
            Ok(Commands::Add { text: args })
        }
    } else if is_word(&name, "list") {
        read_list(&args)
    } else if is_word(&name, "remove") {
        match read_sole_position(&args) {
            Ok(index) => Ok(Commands::Remove { index }),
            Err(e) => Err(e),
        }
    } else if is_word(&name, "do") {
        match read_sole_position(&args) {
            Ok(index) => Ok(Commands::Do { index }),
            Err(e) => Err(e),
        }
    } else if is_word(&name, "undo") {
        match read_sole_position(&args) {
            Ok(index) => Ok(Commands::Undo { index }),
            Err(e) => Err(e),
        }
    } else if is_word(&name, "deadline") {
        read_deadline(&args)
    } else if is_word(&name, "help") {
        if args.len() == 0 {
            Ok(Commands::Help)
        } else {
            Err(ParseError::UnexpectedArgument)
        }
    } else if is_word(&name, "exit") {
        if args.len() == 0 {
            Ok(Commands::Exit)
        } else {
            Err(ParseError::UnexpectedArgument)
        }
    } else {
        Err(ParseError::NoValidCommand)
    };
    match read {
        Ok(command) => Ok(Cli { command: Some(command) }),
        Err(e) => Err(e),
    }
}

/// Reads the command that `line` spells: its words are split at white
/// space, the first names the command, the others are its arguments.
pub fn parse_line(line: &str) -> (r: Result<Cli, ParseError>)
    ensures
        parsed_view(r) == command_of(words(line@)),
{
    parse_words(split_words(line))
}

} // verus!
