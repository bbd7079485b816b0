use chrono::{Local, NaiveDateTime, TimeZone, Utc};
use ygptaskmgr::clock::WallClock;
use ygptaskmgr::instant::Instant;
use ygptaskmgr::report::Report;
use ygptaskmgr::store::{
    add_task, add_task_from_string, conclude_deadline, deadline_from_parse, load_tasks,
    remove_task_by_index, set_deadline, set_status, Stored,
};
use ygptaskmgr::task::Task;

fn at(secs: i64) -> Instant {
    Instant::new(secs, 0).unwrap()
}

fn task(objective: &str, secs: i64) -> Task {
    Task::new(objective.to_string(), at(secs))
}

fn three() -> Vec<Task> {
    vec![task("one", 10), task("two", 20), task("three", 30)]
}

#[test]
fn new_task_is_undone_and_has_no_deadline() {
    let t = Task::new("buy milk".to_string(), at(1_700_000_000));
    assert_eq!(t.objective, "buy milk");
    assert!(!t.done);
    assert_eq!(t.created_at, at(1_700_000_000));
    assert_eq!(t.deadline, None);
}

#[test]
fn add_task_appends_in_call_order() {
    let mut tasks: Vec<Task> = Vec::new();
    assert_eq!(add_task("first".to_string(), at(5), &mut tasks), Report::Added);
    assert_eq!(add_task("second".to_string(), at(3), &mut tasks), Report::Added);
    assert_eq!(add_task("third".to_string(), at(4), &mut tasks), Report::Added);
    assert_eq!(tasks, vec![task("first", 5), task("second", 3), task("third", 4)]);
}

#[test]
fn add_task_accepts_an_empty_objective() {
    let mut tasks = three();
    assert_eq!(add_task(String::new(), at(40), &mut tasks), Report::Added);
    assert_eq!(tasks.len(), 4);
    assert_eq!(tasks[3], task("", 40));
}

#[test]
fn add_task_from_string_stamps_the_current_time() {
    let mut tasks = three();
    let before = Utc::now();
    let report = add_task_from_string("buy milk".to_string(), &mut tasks);
    let after = Utc::now();
    assert_eq!(report, Report::Added);
    assert_eq!(tasks.len(), 4);
    assert_eq!(&tasks[..3], &three()[..]);
    let added = &tasks[3];
    assert_eq!(added.objective, "buy milk");
    assert!(!added.done);
    assert_eq!(added.deadline, None);
    let stamp = (added.created_at.timestamp(), added.created_at.subsec_nanos());
    assert!((before.timestamp(), before.timestamp_subsec_nanos()) <= stamp);
    assert!(stamp <= (after.timestamp(), after.timestamp_subsec_nanos()));
}

#[test]
fn remove_shifts_later_tasks_up() {
    let mut tasks = three();
    assert_eq!(remove_task_by_index(2, &mut tasks), Report::Removed { index: 2 });
    assert_eq!(tasks, vec![task("one", 10), task("three", 30)]);
}

#[test]
fn remove_first_and_last() {
    let mut tasks = three();
    assert_eq!(remove_task_by_index(3, &mut tasks), Report::Removed { index: 3 });
    assert_eq!(tasks, vec![task("one", 10), task("two", 20)]);
    assert_eq!(remove_task_by_index(1, &mut tasks), Report::Removed { index: 1 });
    assert_eq!(tasks, vec![task("two", 20)]);
    assert_eq!(remove_task_by_index(1, &mut tasks), Report::Removed { index: 1 });
    assert!(tasks.is_empty());
}

#[test]
fn remove_out_of_range_changes_nothing() {
    let mut tasks = vec![task("one", 10), task("two", 20)];
    assert_eq!(remove_task_by_index(5, &mut tasks), Report::InvalidIndex);
    assert_eq!(tasks, vec![task("one", 10), task("two", 20)]);
    assert_eq!(remove_task_by_index(3, &mut tasks), Report::InvalidIndex);
    assert_eq!(remove_task_by_index(0, &mut tasks), Report::InvalidIndex);
    assert_eq!(remove_task_by_index(usize::MAX, &mut tasks), Report::InvalidIndex);
    assert_eq!(tasks, vec![task("one", 10), task("two", 20)]);
    let mut none: Vec<Task> = Vec::new();
    assert_eq!(remove_task_by_index(1, &mut none), Report::InvalidIndex);
}

#[test]
fn set_status_marks_done_then_reports_already_done() {
    let mut tasks = vec![task("one", 10), task("two", 20)];
    let first = set_status(1, true, &mut tasks);
    assert_eq!(first, Report::StateSet { index: 1 });
    assert!(first.changed());
    assert!(tasks[0].done);
    let once = tasks.clone();
    let second = set_status(1, true, &mut tasks);
    assert_eq!(second, Report::AlreadyDone { index: 1 });
    assert!(!second.changed());
    assert_eq!(tasks, once);
    assert!(!tasks[1].done);
}

#[test]
fn set_status_undo_reports_still_undone() {
    let mut tasks = three();
    assert_eq!(set_status(2, false, &mut tasks), Report::StillUndone { index: 2 });
    assert_eq!(tasks, three());
    assert_eq!(set_status(2, true, &mut tasks), Report::StateSet { index: 2 });
    assert_eq!(set_status(2, false, &mut tasks), Report::StateSet { index: 2 });
    assert_eq!(tasks, three());
    assert_eq!(set_status(2, false, &mut tasks), Report::StillUndone { index: 2 });
}

#[test]
fn set_status_reaches_the_last_position() {
    let mut tasks = three();
    assert_eq!(set_status(3, true, &mut tasks), Report::StateSet { index: 3 });
    assert!(tasks[2].done);
    assert!(!tasks[0].done && !tasks[1].done);
}

#[test]
fn set_status_changes_only_the_flag() {
    let mut tasks = three();
    tasks[1].deadline = Some(at(99));
    assert_eq!(set_status(2, true, &mut tasks), Report::StateSet { index: 2 });
    assert_eq!(tasks[1].objective, "two");
    assert_eq!(tasks[1].created_at, at(20));
    assert_eq!(tasks[1].deadline, Some(at(99)));
    assert_eq!(tasks[0], task("one", 10));
    assert_eq!(tasks[2], task("three", 30));
}

#[test]
fn set_status_out_of_range_changes_nothing() {
    let mut tasks = three();
    assert_eq!(set_status(0, true, &mut tasks), Report::InvalidIndex);
    assert_eq!(set_status(4, true, &mut tasks), Report::InvalidIndex);
    assert_eq!(set_status(usize::MAX, false, &mut tasks), Report::InvalidIndex);
    assert_eq!(tasks, three());
}

#[test]
fn conclude_deadline_sets_and_overwrites() {
    let mut tasks = three();
    assert_eq!(conclude_deadline(2, Some(at(500)), &mut tasks), Report::DeadlineSet);
    assert_eq!(tasks[1].deadline, Some(at(500)));
    assert_eq!(conclude_deadline(2, Some(at(400)), &mut tasks), Report::DeadlineSet);
    assert_eq!(tasks[1].deadline, Some(at(400)));
    assert_eq!(tasks[1].objective, "two");
    assert!(!tasks[1].done);
    assert_eq!(tasks[0], task("one", 10));
    assert_eq!(tasks[2], task("three", 30));
}

#[test]
fn conclude_deadline_without_an_instant_changes_nothing() {
    let mut tasks = three();
    tasks[0].deadline = Some(at(77));
    let kept = tasks.clone();
    assert_eq!(conclude_deadline(1, None, &mut tasks), Report::UnresolvedLocalTime);
    assert_eq!(tasks, kept);
}

#[test]
fn conclude_deadline_looks_at_the_position_first() {
    let mut tasks = three();
    assert_eq!(conclude_deadline(0, Some(at(1)), &mut tasks), Report::InvalidIndex);
    assert_eq!(conclude_deadline(4, None, &mut tasks), Report::InvalidIndex);
    assert_eq!(tasks, three());
}

#[test]
fn deadline_from_parse_reports_the_reason_of_a_failed_parse() {
    let mut tasks = three();
    let report = deadline_from_parse(1, Err("trailing input".to_string()), &mut tasks);
    assert_eq!(report, Report::BadDateTime { reason: "trailing input".to_string() });
    assert_eq!(tasks, three());
    let report = deadline_from_parse(9, Err("trailing input".to_string()), &mut tasks);
    assert_eq!(report, Report::InvalidIndex);
}

#[test]
fn deadline_from_parse_resolves_in_the_local_zone() {
    let mut tasks = three();
    let wanted = WallClock { year: 2031, month: 7, day: 15, hour: 12, minute: 30, second: 0 };
    let report = deadline_from_parse(3, Ok(wanted), &mut tasks);
    match Local.with_ymd_and_hms(2031, 7, 15, 12, 30, 0).single() {
        Some(local) => {
            assert_eq!(report, Report::DeadlineSet);
            assert_eq!(tasks[2].deadline, Some(at(local.timestamp())));
        }
        None => {
            assert_eq!(report, Report::UnresolvedLocalTime);
            assert_eq!(tasks, three());
        }
    }
}

#[test]
fn deadline_from_parse_rejects_a_date_that_does_not_exist() {
    let mut tasks = three();
    let wanted = WallClock { year: 2031, month: 2, day: 30, hour: 12, minute: 30, second: 0 };
    assert_eq!(deadline_from_parse(1, Ok(wanted), &mut tasks), Report::UnresolvedLocalTime);
    let wanted = WallClock { year: 2031, month: 2, day: 3, hour: 24, minute: 0, second: 0 };
    assert_eq!(deadline_from_parse(1, Ok(wanted), &mut tasks), Report::UnresolvedLocalTime);
    assert_eq!(tasks, three());
}

#[test]
fn set_deadline_reads_date_and_time() {
    let mut tasks = three();
    let report = set_deadline(1, "2030-05-06", "07:08", &mut tasks);
    match Local.with_ymd_and_hms(2030, 5, 6, 7, 8, 0).single() {
        Some(local) => {
            assert_eq!(report, Report::DeadlineSet);
            assert!(report.changed());
            assert_eq!(tasks[0].deadline, Some(at(local.with_timezone(&Utc).timestamp())));
            assert_eq!(tasks[0].objective, "one");
            assert_eq!(tasks[1], task("two", 20));
        }
        None => {
            assert_eq!(report, Report::UnresolvedLocalTime);
            assert_eq!(tasks, three());
        }
    }
}

#[test]
fn set_deadline_reports_what_chrono_objects_to() {
    let mut tasks = three();
    let report = set_deadline(1, "tomorrow", "23:59", &mut tasks);
    assert_eq!(
        report,
        Report::BadDateTime { reason: "input contains invalid characters".to_string() }
    );
    assert!(!report.changed());
    assert_eq!(tasks, three());
    let cases =
        [("2099-13-01", "23:59"), ("2099-01-01", "24:00"), ("2099-01-01", ""), ("", "")];
    for (date, time) in cases {
        let text = format!("{} {}", date, time);
        let expected =
            NaiveDateTime::parse_from_str(&text, "%Y-%m-%d %H:%M").unwrap_err().to_string();
        assert!(!expected.is_empty());
        assert_eq!(
            set_deadline(2, date, time, &mut tasks),
            Report::BadDateTime { reason: expected }
        );
    }
    assert_eq!(tasks, three());
}

#[test]
fn set_deadline_tests_the_position_before_the_date() {
    let mut tasks = three();
    assert_eq!(set_deadline(0, "2099-01-01", "23:59", &mut tasks), Report::InvalidIndex);
    assert_eq!(set_deadline(4, "2099-01-01", "23:59", &mut tasks), Report::InvalidIndex);
    assert_eq!(set_deadline(4, "never", "", &mut tasks), Report::InvalidIndex);
    assert_eq!(tasks, three());
}

#[test]
fn load_tasks_keeps_the_saved_list() {
    let (tasks, report) = load_tasks(Stored::Tasks(three()));
    assert_eq!(tasks, three());
    assert_eq!(report, Report::Nothing);
    let (tasks, report) = load_tasks(Stored::Tasks(Vec::new()));
    assert!(tasks.is_empty());
    assert_eq!(report, Report::Nothing);
}

#[test]
fn load_tasks_starts_empty_without_a_saved_list() {
    let (tasks, report) = load_tasks(Stored::Missing);
    assert!(tasks.is_empty());
    assert_eq!(report, Report::Nothing);
    let (tasks, report) = load_tasks(Stored::Corrupt);
    assert!(tasks.is_empty());
    assert_eq!(report, Report::StoreCorrupt);
    assert!(report.is_failure());
    let (tasks, report) = load_tasks(Stored::Unavailable);
    assert!(tasks.is_empty());
    assert_eq!(report, Report::StoreUnavailable);
}
