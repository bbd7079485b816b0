use ygptaskmgr::command::{parse_line, parse_words, Cli, Commands, ParseError};
use ygptaskmgr::task::{SortBy, StatusFilter};

fn command(line: &str) -> Commands {
    parse_line(line).unwrap().command.unwrap()
}

#[test]
fn parse_line_add_takes_the_words_that_follow() {
    assert_eq!(
        command("add buy   milk"),
        Commands::Add { text: vec!["buy".to_string(), "milk".to_string()] }
    );
    assert_eq!(command("add add"), Commands::Add { text: vec!["add".to_string()] });
}

#[test]
fn parse_line_add_without_text_is_rejected() {
    assert_eq!(parse_line("add"), Err(ParseError::MissingArgument));
    assert_eq!(parse_line("  add   "), Err(ParseError::MissingArgument));
}

#[test]
fn parse_line_list_defaults_to_all_unsorted() {
    assert_eq!(command("list"), Commands::List { status: StatusFilter::All, sort: SortBy::NoSort });
}

#[test]
fn parse_line_list_options_in_any_order() {
    assert_eq!(
        command("list --status done"),
        Commands::List { status: StatusFilter::Done, sort: SortBy::NoSort }
    );
    assert_eq!(
        command("list --status undone"),
        Commands::List { status: StatusFilter::Undone, sort: SortBy::NoSort }
    );
    assert_eq!(
        command("list --status all"),
        Commands::List { status: StatusFilter::All, sort: SortBy::NoSort }
    );
    assert_eq!(
        command("list --sort created"),
        Commands::List { status: StatusFilter::All, sort: SortBy::Created }
    );
    assert_eq!(
        command("list --sort no-sort"),
        Commands::List { status: StatusFilter::All, sort: SortBy::NoSort }
    );
    assert_eq!(
        command("list --sort deadline --status undone"),
        Commands::List { status: StatusFilter::Undone, sort: SortBy::Deadline }
    );
    assert_eq!(
        command("list --status done --sort deadline"),
        Commands::List { status: StatusFilter::Done, sort: SortBy::Deadline }
    );
}

#[test]
fn parse_line_list_rejects_bad_options() {
    assert_eq!(parse_line("list --status"), Err(ParseError::MissingArgument));
    assert_eq!(parse_line("list --sort"), Err(ParseError::MissingArgument));
    assert_eq!(parse_line("list --status finished"), Err(ParseError::InvalidOption));
    assert_eq!(parse_line("list --status Done"), Err(ParseError::InvalidOption));
    assert_eq!(parse_line("list --sort newest"), Err(ParseError::InvalidOption));
    assert_eq!(parse_line("list done"), Err(ParseError::UnexpectedArgument));
    assert_eq!(parse_line("list --order created"), Err(ParseError::UnexpectedArgument));
    assert_eq!(
        parse_line("list --status done --status all"),
        Err(ParseError::UnexpectedArgument)
    );
    assert_eq!(
        parse_line("list --sort created --sort created"),
        Err(ParseError::UnexpectedArgument)
    );
    assert_eq!(parse_line("list --status done extra"), Err(ParseError::UnexpectedArgument));
    assert_eq!(
        parse_line("list --status done --sort"),
        Err(ParseError::MissingArgument)
    );
}

#[test]
fn parse_line_commands_with_a_position() {
    assert_eq!(command("remove 3"), Commands::Remove { index: 3 });
    assert_eq!(command("do 1"), Commands::Do { index: 1 });
    assert_eq!(command("undo 20"), Commands::Undo { index: 20 });
    assert_eq!(command("remove 0"), Commands::Remove { index: 0 });
}

#[test]
fn parse_line_position_must_be_one_number() {
    assert_eq!(parse_line("remove"), Err(ParseError::MissingArgument));
    assert_eq!(parse_line("do"), Err(ParseError::MissingArgument));
    assert_eq!(parse_line("undo"), Err(ParseError::MissingArgument));
    assert_eq!(parse_line("remove one"), Err(ParseError::InvalidNumber));
    assert_eq!(parse_line("do -1"), Err(ParseError::InvalidNumber));
    assert_eq!(parse_line("undo 1.5"), Err(ParseError::InvalidNumber));
    assert_eq!(parse_line("remove 1 2"), Err(ParseError::UnexpectedArgument));
    assert_eq!(parse_line("do 99999999999999999999999999"), Err(ParseError::InvalidNumber));
}

#[test]
fn parse_line_deadline_with_date_and_time() {
    assert_eq!(
        command("deadline 2 2030-05-06 07:08"),
        Commands::Deadline { index: 2, date: "2030-05-06".to_string(), time: "07:08".to_string() }
    );
}

#[test]
fn parse_line_deadline_time_defaults_to_last_minute_of_day() {
    assert_eq!(
        command("deadline 1 2099-01-01"),
        Commands::Deadline { index: 1, date: "2099-01-01".to_string(), time: "23:59".to_string() }
    );
}

#[test]
fn parse_line_deadline_keeps_date_and_time_as_written() {
    assert_eq!(
        command("deadline 1 someday soon"),
        Commands::Deadline { index: 1, date: "someday".to_string(), time: "soon".to_string() }
    );
}

#[test]
fn parse_line_deadline_rejects_wrong_arguments() {
    assert_eq!(parse_line("deadline"), Err(ParseError::MissingArgument));
    assert_eq!(parse_line("deadline 1"), Err(ParseError::MissingArgument));
    assert_eq!(parse_line("deadline x 2099-01-01"), Err(ParseError::InvalidNumber));
    assert_eq!(
        parse_line("deadline 1 2099-01-01 10:00 pm"),
        Err(ParseError::UnexpectedArgument)
    );
}

#[test]
fn parse_line_help_and_exit() {
    assert_eq!(command("help"), Commands::Help);
    assert_eq!(command("exit"), Commands::Exit);
    assert_eq!(command("\texit\n"), Commands::Exit);
    assert_eq!(parse_line("exit now"), Err(ParseError::UnexpectedArgument));
    assert_eq!(parse_line("help me"), Err(ParseError::UnexpectedArgument));
}

#[test]
fn parse_line_empty_line_is_no_command() {
    assert_eq!(parse_line(""), Ok(Cli { command: None }));
    assert_eq!(parse_line("   \t "), Ok(Cli { command: None }));
}

#[test]
fn parse_line_names_are_matched_exactly() {
    assert_eq!(parse_line("Add milk"), Err(ParseError::NoValidCommand));
    assert_eq!(parse_line("EXIT"), Err(ParseError::NoValidCommand));
    assert_eq!(parse_line("quit"), Err(ParseError::NoValidCommand));
    assert_eq!(parse_line("ad milk"), Err(ParseError::NoValidCommand));
    assert_eq!(parse_line("adds milk"), Err(ParseError::NoValidCommand));
    assert_eq!(parse_line("1"), Err(ParseError::NoValidCommand));
    assert_eq!(parse_line("--status done"), Err(ParseError::NoValidCommand));
}

#[test]
fn parse_words_takes_the_words_as_given() {
    assert_eq!(parse_words(vec![]), Ok(Cli { command: None }));
    assert_eq!(
        parse_words(vec!["add".to_string(), "two words".to_string()]),
        Ok(Cli { command: Some(Commands::Add { text: vec!["two words".to_string()] }) })
    );
    assert_eq!(
        parse_words(vec!["do".to_string(), " 1".to_string()]),
        Err(ParseError::InvalidNumber)
    );
    assert_eq!(parse_words(vec!["".to_string()]), Err(ParseError::NoValidCommand));
}
