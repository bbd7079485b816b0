//! The operations that change the task list.

use crate::clock::{
    now_utc, parse_view, parse_wall_clock, pattern_parse, resolve_local, WallClock,
};
use crate::instant::Instant;
use crate::listing::is_listing;
use crate::report::Report;
use crate::task::{valid_position, SortBy, StatusFilter, Task};
use vstd::prelude::*;

verus! {

/// The task that adding `objective` at the instant `now` creates.
pub open spec fn fresh(objective: String, now: Instant) -> Task {
    Task { objective, done: false, created_at: now, deadline: None }
}

/// Adds a task with the objective `text`, created at `now`, at the end of
/// the list.
pub fn add_task(text: String, now: Instant, tasks: &mut Vec<Task>) -> (report: Report)
    ensures
        final(tasks)@ == old(tasks)@.push(fresh(text, now)),
        report == Report::Added,
{
    tasks.push(Task::new(text, now));
    Report::Added
}

/// Whether `after` is `before` with one task added at its end: a task with
/// the objective `text`, not done and without a deadline, created at some
/// instant.
pub open spec fn adds(before: Seq<Task>, after: Seq<Task>, text: Seq<char>) -> bool {
    &&& after.len() == before.len() + 1
    &&& after.drop_last() == before
    &&& after.last().objective@ == text
    &&& !after.last().done
    &&& after.last().deadline is None
}

/// Adds a task with the objective `text`, created now, at the end of the
/// list.
pub fn add_task_from_string(text: String, tasks: &mut Vec<Task>) -> (report: Report)
    ensures
        adds(old(tasks)@, final(tasks)@, text@),
        report == Report::Added,
{
    let ghost before = tasks@;
    let now = now_utc();
    let report = add_task(text, now, tasks);
    assert(tasks@.drop_last() =~= before);
    report
}

/// The list after the removal of the task at `position`: without that task,
/// or unchanged where the position names none.
pub open spec fn removal(tasks: Seq<Task>, position: int) -> Seq<Task> {
    if valid_position(tasks.len(), position) {
        tasks.remove(position - 1)
    } else {
        tasks
    }
}

/// What the removal of the task at `position` reports.
pub open spec fn removal_report(tasks: Seq<Task>, position: usize) -> Report {
    if valid_position(tasks.len(), position as int) {
        Report::Removed { index: position }
    } else {
        Report::InvalidIndex
    }
}

/// Removes the task at position `index`. The tasks after it move up by one.
pub fn remove_task_by_index(index: usize, tasks: &mut Vec<Task>) -> (report: Report)
    ensures
        final(tasks)@ == removal(old(tasks)@, index as int),
        report == removal_report(old(tasks)@, index),
{
    if index == 0 || index > tasks.len() {
        Report::InvalidIndex
    } else {
        tasks.remove(index - 1);
        Report::Removed { index }
    }
}

/// The list after the task at `position` has been marked as done, or as not
/// done: that task has the state `state`, and nothing else has changed.
pub open spec fn with_status(tasks: Seq<Task>, position: int, state: bool) -> Seq<Task> {
    if valid_position(tasks.len(), position) {
        tasks.update(position - 1, Task { done: state, ..tasks[position - 1] })
    } else {
        tasks
    }
}

/// What marking the task at `position` as `state` reports: that the state
/// was set, or that the task was in that state already.
pub open spec fn status_report(tasks: Seq<Task>, position: usize, state: bool) -> Report {
    if !valid_position(tasks.len(), position as int) {
        Report::InvalidIndex
    } else if tasks[position - 1].done != state {
        Report::StateSet { index: position }
    } else if state {
        Report::AlreadyDone { index: position }
    } else {
        Report::StillUndone { index: position }
    }
}

/// Marks the task at position `num` as done where `state` is true, as not
/// done where it is false.
pub fn set_status(num: usize, state: bool, tasks: &mut Vec<Task>) -> (report: Report)
    ensures
        final(tasks)@ == with_status(old(tasks)@, num as int, state),
        report == status_report(old(tasks)@, num, state),
{
    if num == 0 || num > tasks.len() {
        return Report::InvalidIndex;
    }
    let n: usize = num - 1;
    if tasks[n].done == state {
        assert(tasks@ =~= with_status(tasks@, num as int, state));
        if state {
            Report::AlreadyDone { index: num }
        } else {
            Report::StillUndone { index: num }
        }
    } else {
        tasks[n].done = state;
        Report::StateSet { index: num }
    }
}

/// The list after the deadline of the task at `position` has been set to
/// `due`.
pub open spec fn with_deadline(tasks: Seq<Task>, position: int, due: Instant) -> Seq<Task> {
    if valid_position(tasks.len(), position) {
        tasks.update(position - 1, Task { deadline: Some(due), ..tasks[position - 1] })
    } else {
        tasks
    }
}

/// Sets the deadline of the task at position `index` to the instant at which
/// the local clock shows the wanted time, where `resolved` holds one. A
/// deadline that was set before is overwritten.
pub fn conclude_deadline(index: usize, resolved: Option<Instant>, tasks: &mut Vec<Task>) -> (report:
    Report)
    ensures
        !valid_position(old(tasks)@.len(), index as int) ==> report == Report::InvalidIndex
            && final(tasks)@ == old(tasks)@,
        valid_position(old(tasks)@.len(), index as int) ==> match resolved {
            Some(due) => report == Report::DeadlineSet && final(tasks)@ == with_deadline(
                old(tasks)@,
                index as int,
                due,
            ),
            None => report == Report::UnresolvedLocalTime && final(tasks)@ == old(tasks)@,
        },
{
    if index == 0 || index > tasks.len() {
        return Report::InvalidIndex;
    }
    match resolved {
        Some(due) => {
            tasks[index - 1].deadline = Some(due);
            Report::DeadlineSet
        },
        None => Report::UnresolvedLocalTime,
    }
}

/// Whether `after` and `report` are a possible outcome of setting the
/// deadline of the task at `position` of `before` to a local date and time:
/// the deadline is set to some instant and nothing else has changed, or the
/// local time could not be resolved and nothing has changed at all.
pub open spec fn resolves(
    before: Seq<Task>,
    after: Seq<Task>,
    position: int,
    report: Report,
) -> bool {
    ||| report == Report::UnresolvedLocalTime && after == before
    ||| {
        &&& report == Report::DeadlineSet
        &&& after.len() == before.len()
        &&& after[position - 1].deadline is Some
        &&& after == with_deadline(before, position, after[position - 1].deadline->0)
    }
}

/// Sets the deadline of the task at position `index` from the outcome
/// `parsed` of reading the date and time: where they were read, to the
/// instant at which the local clock of this machine shows them, if there is
/// exactly one.
pub fn deadline_from_parse(
    index: usize,
    parsed: Result<WallClock, String>,
    tasks: &mut Vec<Task>,
) -> (report: Report)
    ensures
        !valid_position(old(tasks)@.len(), index as int) ==> report == Report::InvalidIndex
            && final(tasks)@ == old(tasks)@,
        valid_position(old(tasks)@.len(), index as int) ==> match parsed {
            Ok(wanted) => resolves(old(tasks)@, final(tasks)@, index as int, report),
            Err(reason) => report == (Report::BadDateTime { reason }) && final(tasks)@ == old(
                tasks,
            )@,
        },
{
    if index == 0 || index > tasks.len() {
        return Report::InvalidIndex;
    }
    match parsed {
        Ok(wanted) => {
            let resolved = resolve_local(&wanted);
            conclude_deadline(index, resolved, tasks)
        },
        Err(reason) => Report::BadDateTime { reason },
    }
}

/// The format in which a deadline is written: year, month and day, a space,
/// hour and minute.
pub open spec fn deadline_pattern() -> Seq<char> {
    "%Y-%m-%d %H:%M"@
}

/// The text that is read as a deadline: the date, a space, the time.
pub open spec fn deadline_text(date: Seq<char>, time: Seq<char>) -> Seq<char> {
    date + " "@ + time
}

/// Whether `after` and `report` are a possible outcome of setting the
/// deadline of the task at `position` of `before` to `date` and `time`.
pub open spec fn sets_deadline(
    before: Seq<Task>,
    after: Seq<Task>,
    position: int,
    date: Seq<char>,
    time: Seq<char>,
    report: Report,
) -> bool {
    if !valid_position(before.len(), position) {
        report == Report::InvalidIndex && after == before
    } else {
        match pattern_parse(deadline_text(date, time), deadline_pattern()) {
            Ok(wanted) => resolves(before, after, position, report),
            Err(reason) => {
                &&& report matches Report::BadDateTime { reason: shown }
                &&& shown@ == reason
                &&& after == before
            },
        }
    }
}

/// Sets the deadline of the task at position `index` to the local `date`
/// and `time`, written as `YYYY-MM-DD` and `HH:MM`. The position comes
/// first: where it names no task, nothing is read. Then the date and time are
/// read, and resolved to an instant by the local clock of this machine.
pub fn set_deadline(index: usize, date: &str, time: &str, tasks: &mut Vec<Task>) -> (report: Report)
    ensures
        sets_deadline(old(tasks)@, final(tasks)@, index as int, date@, time@, report),
{
    if index == 0 || index > tasks.len() {
        return Report::InvalidIndex;
    }
    let mut text = String::from_str(date);
    text.append(" ");
    text.append(time);
    let parsed = parse_wall_clock(text.as_str(), "%Y-%m-%d %H:%M");
    assert(parse_view(parsed) == pattern_parse(deadline_text(date@, time@), deadline_pattern()));
    deadline_from_parse(index, parsed, tasks)
}

/// What was found where the task list is kept.
#[derive(Clone, Debug, PartialEq, Eq)]
pub enum Stored {
    /// The place itself could not be found or made.
    Unavailable,
    /// No list has been saved yet.
    Missing,
    /// Something is there that is no task list.
    Corrupt,
    /// The saved list.
    Tasks(Vec<Task>),
}

/// The list to start with and what to tell the user: the saved list where
/// there is one, else an empty list, with a warning where something else
/// was found in its place.
pub fn load_tasks(stored: Stored) -> (r: (Vec<Task>, Report))
    ensures
        r.0@ == match stored {
            Stored::Tasks(saved) => saved@,
            _ => Seq::empty(),
        },
        r.1 == match stored {
            Stored::Unavailable => Report::StoreUnavailable,
            Stored::Corrupt => Report::StoreCorrupt,
            _ => Report::Nothing,
        },
{
    match stored {
        Stored::Unavailable => (Vec::new(), Report::StoreUnavailable),
        Stored::Missing => (Vec::new(), Report::Nothing),
        Stored::Corrupt => (Vec::new(), Report::StoreCorrupt),
        Stored::Tasks(saved) => (saved, Report::Nothing),
    }
}

/// The list after tasks with the objectives `objectives` have been added to
/// `tasks` one after the other, the k-th at the instant `times[k]`.
pub open spec fn after_adds(tasks: Seq<Task>, objectives: Seq<String>, times: Seq<Instant>) -> Seq<
    Task,
>
    decreases objectives.len(),
{
    if objectives.len() == 0 {
        tasks
    } else {
        after_adds(tasks, objectives.drop_last(), times.drop_last()).push(
            fresh(objectives.last(), times.last()),
        )
    }
}

/// Adding tasks one after the other puts them at the end of the list, in the
/// order in which they were added.
pub proof fn lemma_after_adds(tasks: Seq<Task>, objectives: Seq<String>, times: Seq<Instant>)
    requires
        objectives.len() == times.len(),
    ensures
        after_adds(tasks, objectives, times).len() == tasks.len() + objectives.len(),
        forall|k: int|
            0 <= k < tasks.len() ==> after_adds(tasks, objectives, times)[k] == tasks[k],
        forall|k: int|
            0 <= k < objectives.len() ==> after_adds(tasks, objectives, times)[tasks.len() + k]
                == fresh(objectives[k], times[k]),
    decreases objectives.len(),
{
    if objectives.len() > 0 {
        let earlier = after_adds(tasks, objectives.drop_last(), times.drop_last());
        lemma_after_adds(tasks, objectives.drop_last(), times.drop_last());
        assert forall|k: int| 0 <= k < objectives.len() implies after_adds(
            tasks,
            objectives,
            times,
        )[tasks.len() + k] == fresh(objectives[k], times[k]) by {
            if k < objectives.len() - 1 {
                assert(earlier[tasks.len() + k] == fresh(
                    objectives.drop_last()[k],
                    times.drop_last()[k],
                ));
            }
        }
    }
}

/// After any number of adds to an empty list, the unfiltered and unsorted
/// listing shows the added tasks in the order in which they were added: the
/// k-th row shows position k, counted from one, and there stands the task of
/// the k-th add.
pub proof fn lemma_adds_are_listed_in_order(
    objectives: Seq<String>,
    times: Seq<Instant>,
    rows: Seq<usize>,
)
    requires
        objectives.len() == times.len(),
        objectives.len() <= usize::MAX,
        is_listing(
            after_adds(Seq::empty(), objectives, times),
            StatusFilter::All,
            SortBy::NoSort,
            rows,
        ),
    ensures
        rows.len() == objectives.len(),
        forall|k: int|
            0 <= k < rows.len() ==> rows[k] == k && after_adds(
                Seq::empty(),
                objectives,
                times,
            )[rows[k] as int] == fresh(objectives[k], times[k]),
{
    let tasks = after_adds(Seq::empty(), objectives, times);
    lemma_after_adds(Seq::empty(), objectives, times);
    crate::listing::lemma_plain_listing(tasks, rows);
}

/// After the removal of the task at `position`, the unfiltered and unsorted
/// listing shows at every earlier position the task that stood there before,
/// and at `position` and every later one the task that stood one further
/// down. Row `k` of the listing is the one for position `k + 1`.
pub proof fn lemma_removal_moves_up(tasks: Seq<Task>, position: int, rows: Seq<usize>)
    requires
        tasks.len() <= usize::MAX,
        valid_position(tasks.len(), position),
        is_listing(removal(tasks, position), StatusFilter::All, SortBy::NoSort, rows),
    ensures
        rows.len() == tasks.len() - 1,
        forall|k: int| 0 <= k < rows.len() ==> rows[k] == k,
        forall|k: int|
            0 <= k < position - 1 ==> removal(tasks, position)[#[trigger] rows[k] as int]
                == tasks[k],
        forall|k: int|
            position - 1 <= k < rows.len() ==> removal(tasks, position)[#[trigger] rows[k] as int]
                == tasks[k + 1],
{
    crate::listing::lemma_plain_listing(removal(tasks, position), rows);
}

/// Marking a task a second time as done, or as not done, changes nothing:
/// the list stays as the first time left it, and the report says that the
/// task was in that state already.
pub proof fn lemma_set_status_twice(tasks: Seq<Task>, position: usize, state: bool)
    ensures
        with_status(with_status(tasks, position as int, state), position as int, state)
            == with_status(tasks, position as int, state),
        !status_report(with_status(tasks, position as int, state), position, state).changed(),
        valid_position(tasks.len(), position as int) ==> status_report(
            with_status(tasks, position as int, state),
            position,
            state,
        ) == if state {
            Report::AlreadyDone { index: position }
        } else {
            Report::StillUndone { index: position }
        },
{
    let once = with_status(tasks, position as int, state);
    assert(with_status(once, position as int, state) =~= once);
}

} // verus!
