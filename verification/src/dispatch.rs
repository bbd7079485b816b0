//! From a command, or a line of input, to the operation on the task list
//! that carries it out.

use crate::command::{command_of, parse_line, CommandView, Commands};
use crate::listing::{is_listing, row_indices, smart_list_tasks};
use crate::report::Report;
use crate::store::{
    add_task_from_string, adds, remove_task_by_index, removal, removal_report, set_deadline,
    set_status, sets_deadline, status_report, with_status,
};
use crate::task::{SortBy, StatusFilter, Task};
use crate::text::{join_words, joined};
use crate::words::words;
use vstd::prelude::*;

verus! {

/// Whether `report` holds the listing of `tasks` under `status` and `sort`:
/// one row for each task that `status` selects, in the order of `sort`.
pub open spec fn lists(
    tasks: Seq<Task>,
    status: StatusFilter,
    sort: SortBy,
    report: Report,
) -> bool {
    &&& report matches Report::Listed { rows }
    &&& is_listing(tasks, status, sort, row_indices(rows@))
    &&& forall|k: int| 0 <= k < rows.len() ==> (#[trigger] rows[k]).presents(tasks)
}

/// Whether the list `after` and `report` are what carrying out `command` on
/// the list `before` can give. The instant of an added task, the instant of
/// a deadline and the times that a listing shows come from the clock and the
/// time zone of this machine; everything else is fixed by `command` and
/// `before`.
pub open spec fn carries_out(
    command: CommandView,
    before: Seq<Task>,
    after: Seq<Task>,
    report: Report,
) -> bool {
    match command {
        CommandView::Add { text } => adds(before, after, joined(text)) && report == Report::Added,
        CommandView::List { status, sort } => after == before && lists(
            before,
            status,
            sort,
            report,
        ),
        CommandView::Remove { index } => after == removal(before, index as int) && report
            == removal_report(before, index),
        CommandView::Do { index } => after == with_status(before, index as int, true) && report
            == status_report(before, index, true),
        CommandView::Undo { index } => after == with_status(before, index as int, false) && report
            == status_report(before, index, false),
        CommandView::Deadline { index, date, time } => sets_deadline(
            before,
            after,
            index as int,
            date,
            time,
            report,
        ),
        CommandView::Help => after == before && report == Report::Help,
        CommandView::Exit => after == before && report == Report::Goodbye,
    }
}

/// A command that reports no change has left the list as it was, and only
/// `exit` ends the session.
pub proof fn lemma_carries_out(
    command: CommandView,
    before: Seq<Task>,
    after: Seq<Task>,
    report: Report,
)
    requires
        carries_out(command, before, after, report),
    ensures
        !report.changed() ==> after == before,
        report.ends_session() <==> command is Exit,
{
    match command {
        CommandView::Do { index } => {
            if !report.changed() {
                assert(with_status(before, index as int, true) =~= before);
            }
        },
        CommandView::Undo { index } => {
            if !report.changed() {
                assert(with_status(before, index as int, false) =~= before);
            }
        },
        _ => {},
    }
}

/// Carries out `cmd` on `tasks` and reports what happened. The list has to
/// be saved where the report says that it has changed.
pub fn handle_command(cmd: Commands, tasks: &mut Vec<Task>) -> (report: Report)
    ensures
        carries_out(cmd@, old(tasks)@, final(tasks)@, report),
        !report.changed() ==> final(tasks)@ == old(tasks)@,
        report.ends_session() <==> cmd is Exit,
{
    let ghost command = cmd@;
    let ghost before = tasks@;
    let report = match cmd {
        Commands::Add { text } => add_task_from_string(join_words(&text), tasks),
        Commands::List { status, sort } => Report::Listed {
            rows: smart_list_tasks(status, sort, tasks),
        },
        Commands::Remove { index } => remove_task_by_index(index, tasks),
        Commands::Do { index } => set_status(index, true, tasks),
        Commands::Undo { index } => set_status(index, false, tasks),
        Commands::Deadline { index, date, time } => set_deadline(
            index,
            date.as_str(),
            time.as_str(),
            tasks,
        ),
        Commands::Help => Report::Help,
        Commands::Exit => Report::Goodbye,
    };
    proof {
        lemma_carries_out(command, before, tasks@, report);
    }
    report
}

/// Whether the list `after` and `report` are what one turn of the
/// interactive session can give on the list `before`: a line that could not
/// be read is reported, an empty line does nothing, a line that spells no
/// command is rejected, and a command is carried out.
pub open spec fn answers(
    input: Option<Seq<char>>,
    before: Seq<Task>,
    after: Seq<Task>,
    report: Report,
) -> bool {
    match input {
        None => after == before && report == Report::ReadFailed,
        Some(line) => match command_of(words(line)) {
            Ok(Some(command)) => carries_out(command, before, after, report),
            Ok(None) => after == before && report == Report::Nothing,
            Err(error) => after == before && report == (Report::Rejected { error }),
        },
    }
}

/// Whether `input` is a line that spells the command `exit`.
pub open spec fn spells_exit(input: Option<Seq<char>>) -> bool {
    &&& input matches Some(line)
    &&& command_of(words(line)) matches Ok(Some(command))
    &&& command is Exit
}

/// The line that was read, as a sequence of characters.
pub open spec fn input_view(input: Option<&str>) -> Option<Seq<char>> {
    match input {
        Some(line) => Some(line@),
        None => None,
    }
}

/// One turn of the interactive session: takes the line that was read, or
/// `None` where reading failed, and carries out the command that it spells.
/// The session goes on with the next line unless the report says that it is
/// over, which only `exit` brings about.
pub fn interactive_mode(tasks: &mut Vec<Task>, input: Option<&str>) -> (report: Report)
    ensures
        answers(input_view(input), old(tasks)@, final(tasks)@, report),
        !report.changed() ==> final(tasks)@ == old(tasks)@,
        report.ends_session() <==> spells_exit(input_view(input)),
{
    match input {
        None => Report::ReadFailed,
        Some(line) => match parse_line(line) {
            Ok(cli) => match cli.command {
                Some(command) => handle_command(command, tasks),
                None => Report::Nothing,
            },
            Err(error) => Report::Rejected { error },
        },
    }
}

} // verus!
