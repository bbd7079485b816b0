//! Which tasks a listing shows, and in what order.

use crate::clock::local_minute_text;
use crate::instant::{opt_le, opt_no_later_than, Instant};
use crate::task::{valid_position, SortBy, StatusFilter, Task};
use crate::text::{decimal, decimal_text, underline, underlined};
use vstd::prelude::*;

verus! {

/// Whether a listing filtered by `status` shows `task`.
pub open spec fn selected(status: StatusFilter, task: Task) -> bool {
    match status {
        StatusFilter::Done => task.done,
        StatusFilter::Undone => !task.done,
        StatusFilter::All => true,
    }
}

/// Whether the sort key of `a` is no greater than that of `b`. Without
/// sorting every task has the same key.
pub open spec fn key_le(sort: SortBy, a: Task, b: Task) -> bool {
    match sort {
        SortBy::NoSort => true,
        SortBy::Created => a.created_at.le(b.created_at),
        SortBy::Deadline => opt_le(a.deadline, b.deadline),
    }
}

/// Whether a listing sorted by `sort` shows the task at index `i` above the
/// task at index `j`: its key is smaller, or the keys are equal and it was
/// added earlier.
pub open spec fn shown_before(tasks: Seq<Task>, sort: SortBy, i: int, j: int) -> bool {
    if i < j {
        key_le(sort, tasks[i], tasks[j])
    } else {
        i != j && !key_le(sort, tasks[j], tasks[i])
    }
}

/// Whether `rows` goes from top to bottom in the order of `sort`.
pub open spec fn in_display_order(tasks: Seq<Task>, sort: SortBy, rows: Seq<usize>) -> bool {
    forall|a: int, b: int|
        0 <= a < b < rows.len() ==> shown_before(tasks, sort, rows[a] as int, rows[b] as int)
}

/// Whether `rows` lists, by index and in the order of `sort`, exactly those
/// of the first `n` tasks that `status` selects.
pub open spec fn lists_first(
    tasks: Seq<Task>,
    status: StatusFilter,
    sort: SortBy,
    rows: Seq<usize>,
    n: int,
) -> bool {
    &&& forall|k: int|
        0 <= k < rows.len() ==> (#[trigger] rows[k]) < n && selected(status, tasks[rows[k] as int])
    &&& forall|i: int|
        0 <= i < n && selected(status, #[trigger] tasks[i]) ==> rows.contains(i as usize)
    &&& in_display_order(tasks, sort, rows)
}

/// Whether `rows` is the listing of `tasks` under `status` and `sort`: the
/// indices of the selected tasks, each once, from top to bottom.
pub open spec fn is_listing(
    tasks: Seq<Task>,
    status: StatusFilter,
    sort: SortBy,
    rows: Seq<usize>,
) -> bool {
    lists_first(tasks, status, sort, rows, tasks.len() as int)
}

/// `shown_before` is a strict total order on the indices of `tasks`.
pub proof fn lemma_shown_before_order(tasks: Seq<Task>, sort: SortBy, i: int, j: int, k: int)
    ensures
        !shown_before(tasks, sort, i, i),
        i != j ==> (shown_before(tasks, sort, i, j) <==> !shown_before(tasks, sort, j, i)),
        shown_before(tasks, sort, i, j) && shown_before(tasks, sort, j, k) ==> shown_before(
            tasks,
            sort,
            i,
            k,
        ),
{
}

/// Two sequences in display order that hold the same indices are equal.
proof fn lemma_same_rows(tasks: Seq<Task>, sort: SortBy, x: Seq<usize>, y: Seq<usize>)
    requires
        in_display_order(tasks, sort, x),
        in_display_order(tasks, sort, y),
        forall|v: usize| x.contains(v) <==> y.contains(v),
    ensures
        x == y,
    decreases x.len(),
{
    if x.len() == 0 {
        if y.len() > 0 {
            assert(y.contains(y[0]));
        }
        assert(x =~= y);
    } else {
        assert(x.contains(x[0]));
        assert(y.contains(x[0]));
        assert(y.len() > 0);
        assert(y.contains(y[0]));
        assert(x.contains(y[0]));
        let i = choose|i: int| 0 <= i < x.len() && x[i] == y[0];
        let j = choose|j: int| 0 <= j < y.len() && y[j] == x[0];
        lemma_shown_before_order(tasks, sort, x[0] as int, y[0] as int, x[0] as int);
        assert(x[0] == y[0]) by {
            if x[0] != y[0] {
                assert(i > 0);
                assert(j > 0);
                assert(shown_before(tasks, sort, x[0] as int, x[i] as int));
                assert(shown_before(tasks, sort, y[0] as int, y[j] as int));
            }
        }
        let xs = x.subrange(1, x.len() as int);
        let ys = y.subrange(1, y.len() as int);
        assert forall|v: usize| xs.contains(v) <==> ys.contains(v) by {
            lemma_shown_before_order(tasks, sort, v as int, v as int, v as int);
            if xs.contains(v) {
                let a = choose|a: int| 0 <= a < xs.len() && xs[a] == v;
                assert(x[a + 1] == v);
                assert(shown_before(tasks, sort, x[0] as int, x[a + 1] as int));
                assert(x.contains(v));
                let b = choose|b: int| 0 <= b < y.len() && y[b] == v;
                assert(b != 0);
                assert(ys[b - 1] == v);
            }
            if ys.contains(v) {
                let a = choose|a: int| 0 <= a < ys.len() && ys[a] == v;
                assert(y[a + 1] == v);
                assert(shown_before(tasks, sort, y[0] as int, y[a + 1] as int));
                assert(y.contains(v));
                let b = choose|b: int| 0 <= b < x.len() && x[b] == v;
                assert(b != 0);
                assert(xs[b - 1] == v);
            }
        }
        assert(in_display_order(tasks, sort, xs)) by {
            assert forall|a: int, b: int| 0 <= a < b < xs.len() implies shown_before(
                tasks,
                sort,
                xs[a] as int,
                xs[b] as int,
            ) by {
                assert(shown_before(tasks, sort, x[a + 1] as int, x[b + 1] as int));
            }
        }
        assert(in_display_order(tasks, sort, ys)) by {
            assert forall|a: int, b: int| 0 <= a < b < ys.len() implies shown_before(
                tasks,
                sort,
                ys[a] as int,
                ys[b] as int,
            ) by {
                assert(shown_before(tasks, sort, y[a + 1] as int, y[b + 1] as int));
            }
        }
        lemma_same_rows(tasks, sort, xs, ys);
        assert(x =~= seq![x[0]] + xs);
        assert(y =~= seq![y[0]] + ys);
    }
}

/// A list of tasks has one listing under given options, and no other.
pub proof fn lemma_listing_unique(
    tasks: Seq<Task>,
    status: StatusFilter,
    sort: SortBy,
    x: Seq<usize>,
    y: Seq<usize>,
)
    requires
        is_listing(tasks, status, sort, x),
        is_listing(tasks, status, sort, y),
    ensures
        x == y,
{
    assert forall|v: usize| x.contains(v) <==> y.contains(v) by {
        if x.contains(v) {
            let a = choose|a: int| 0 <= a < x.len() && x[a] == v;
            assert(selected(status, tasks[x[a] as int]));
        }
        if y.contains(v) {
            let a = choose|a: int| 0 <= a < y.len() && y[a] == v;
            assert(selected(status, tasks[y[a] as int]));
        }
    }
    lemma_same_rows(tasks, sort, x, y);
}

/// Tells whether `status` selects `task`.
pub fn is_selected(status: StatusFilter, task: &Task) -> (r: bool)
    ensures
        r == selected(status, *task),
{
    match status {
        StatusFilter::Done => task.done,
        StatusFilter::Undone => !task.done,
        StatusFilter::All => true,
    }
}

/// Tells whether the sort key of `a` is no greater than that of `b`.
pub fn key_no_greater(sort: SortBy, a: &Task, b: &Task) -> (r: bool)
    ensures
        r == key_le(sort, *a, *b),
{
    match sort {
        SortBy::NoSort => true,
        SortBy::Created => a.created_at.no_later_than(&b.created_at),
        SortBy::Deadline => opt_no_later_than(&a.deadline, &b.deadline),
    }
}

/// The listing of `tasks`: the indices of the tasks that `status` selects,
/// in the order of `sort`. Tasks with equal keys stay in the order in which
/// they were added.
pub fn listing_order(status: StatusFilter, sort: SortBy, tasks: &Vec<Task>) -> (rows: Vec<usize>)
    ensures
        is_listing(tasks@, status, sort, rows@),
{
    let mut rows: Vec<usize> = Vec::new();
    let mut i: usize = 0;
    while i < tasks.len()
        invariant
            i <= tasks.len(),
            lists_first(tasks@, status, sort, rows@, i as int),
        decreases tasks.len() - i,
    {
        if is_selected(status, &tasks[i]) {
            let ghost before = rows@;
            let mut p: usize = rows.len();
            while p > 0 && !key_no_greater(sort, &tasks[rows[p - 1]], &tasks[i])
                invariant
                    p <= rows.len(),
                    i < tasks.len(),
                    rows@ == before,
                    lists_first(tasks@, status, sort, rows@, i as int),
                    forall|k: int|
                        p <= k < rows.len() ==> shown_before(
                            tasks@,
                            sort,
                            i as int,
                            #[trigger] rows[k] as int,
                        ),
                decreases p,
            {
                p = p - 1;
            }
            proof {
                assert forall|k: int| 0 <= k < p implies shown_before(
                    tasks@,
                    sort,
                    #[trigger] before[k] as int,
                    i as int,
                ) by {
                    if k < p - 1 {
                        assert(shown_before(tasks@, sort, before[k] as int, before[p - 1] as int));
                        lemma_shown_before_order(
                            tasks@,
                            sort,
                            before[k] as int,
                            before[p - 1] as int,
                            i as int,
                        );
                    }
                }
            }
            rows.insert(p, i);
            proof {
                let after = rows@;
                assert forall|k: int| 0 <= k < after.len() implies (#[trigger] after[k]) < i + 1
                    && selected(status, tasks@[after[k] as int]) by {
                    if k < p {
                        assert(after[k] == before[k]);
                    } else if k > p {
                        assert(after[k] == before[k - 1]);
                    }
                }
                assert forall|x: int| 0 <= x < i + 1 && selected(
                    status,
                    #[trigger] tasks@[x],
                ) implies after.contains(x as usize) by {
                    if x == i {
                        assert(after[p as int] == x as usize);
                    } else {
                        assert(before.contains(x as usize));
                        let k = choose|k: int| 0 <= k < before.len() && before[k] == x as usize;
                        if k < p {
                            assert(after[k] == x as usize);
                        } else {
                            assert(after[k + 1] == x as usize);
                        }
                    }
                }
                assert forall|a: int, b: int| 0 <= a < b < after.len() implies shown_before(
                    tasks@,
                    sort,
                    after[a] as int,
                    after[b] as int,
                ) by {
                    if b < p {
                        assert(after[a] == before[a] && after[b] == before[b]);
                    } else if b == p {
                        assert(after[a] == before[a]);
                    } else if a < p {
                        assert(after[a] == before[a] && after[b] == before[b - 1]);
                    } else if a == p {
                        assert(after[b] == before[b - 1]);
                    } else {
                        assert(after[a] == before[a - 1] && after[b] == before[b - 1]);
                    }
                }
            }
        }
        i = i + 1;
    }
    rows
}

/// Without a filter and unsorted, a listing shows every task, in the order
/// in which the tasks were added.
pub proof fn lemma_plain_listing(tasks: Seq<Task>, rows: Seq<usize>)
    requires
        tasks.len() <= usize::MAX,
        is_listing(tasks, StatusFilter::All, SortBy::NoSort, rows),
    ensures
        rows.len() == tasks.len(),
        forall|k: int| 0 <= k < rows.len() ==> rows[k] == k,
{
    let plain = Seq::new(tasks.len(), |k: int| k as usize);
    assert forall|i: int| 0 <= i < tasks.len() && selected(
        StatusFilter::All,
        #[trigger] tasks[i],
    ) implies plain.contains(i as usize) by {
        assert(plain[i] == i as usize);
    }
    assert(is_listing(tasks, StatusFilter::All, SortBy::NoSort, plain));
    lemma_listing_unique(tasks, StatusFilter::All, SortBy::NoSort, rows, plain);
}

/// Sorted by deadline, a listing shows every task without a deadline above
/// every task with one, and the tasks with a deadline from the earliest
/// deadline to the latest.
pub proof fn lemma_deadline_listing(tasks: Seq<Task>, status: StatusFilter, rows: Seq<usize>)
    requires
        is_listing(tasks, status, SortBy::Deadline, rows),
    ensures
        forall|a: int, b: int|
            0 <= a < rows.len() && 0 <= b < rows.len() && tasks[rows[a] as int].deadline is None
                && tasks[rows[b] as int].deadline is Some ==> a < b,
        forall|a: int, b: int|
            0 <= a < b < rows.len() && tasks[rows[a] as int].deadline is Some
                && tasks[rows[b] as int].deadline is Some ==> tasks[rows[a] as int].deadline->0.le(
                tasks[rows[b] as int].deadline->0,
            ),
{
    assert forall|a: int, b: int|
        0 <= a < rows.len() && 0 <= b < rows.len() && tasks[rows[a] as int].deadline is None
            && tasks[rows[b] as int].deadline is Some implies a < b by {
        if b < a {
            assert(shown_before(tasks, SortBy::Deadline, rows[b] as int, rows[a] as int));
        }
    }
    assert forall|a: int, b: int|
        0 <= a < b < rows.len() && tasks[rows[a] as int].deadline is Some
            && tasks[rows[b] as int].deadline is Some implies tasks[rows[a] as int].deadline->0.le(
        tasks[rows[b] as int].deadline->0,
    ) by {
        assert(shown_before(tasks, SortBy::Deadline, rows[a] as int, rows[b] as int));
    }
}

/// One line of a listing: a task with its position in the list and with its
/// two times as the local clock shows them.
#[derive(Clone, Debug, PartialEq, Eq)]
pub struct Row {
    /// The position of the task in the whole list, counted from one.
    pub position: usize,
    /// Whether the task is done.
    pub done: bool,
    /// What is to be done.
    pub objective: String,
    /// The local date and minute at which the task was added.
    pub created: String,
    /// The local date and minute at which the task is due, if it has a
    /// deadline.
    pub deadline: Option<String>,
}

/// The text of a line: position, a box that is crossed where the task is
/// done, objective, and in brackets the time of creation and the underlined
/// deadline, a dash where there is none.
pub open spec fn row_text(
    position: nat,
    done: bool,
    objective: Seq<char>,
    created: Seq<char>,
    deadline: Option<Seq<char>>,
) -> Seq<char> {
    decimal(position) + " ["@ + (if done {
        "x"@
    } else {
        " "@
    }) + "] "@ + objective + " (created: "@ + created + ", deadline: "@ + underlined(
        match deadline {
            Some(d) => d,
            None => "-"@,
        },
    ) + ")"@
}

impl Row {
    /// The index in the list of the task that the row shows.
    pub open spec fn index(self) -> usize {
        (self.position - 1) as usize
    }

    /// Whether the row shows the task of `tasks` at its position: the same
    /// state and objective, and a deadline where the task has one.
    pub open spec fn presents(self, tasks: Seq<Task>) -> bool {
        &&& valid_position(tasks.len(), self.position as int)
        &&& self.done == tasks[self.position - 1].done
        &&& self.objective@ == tasks[self.position - 1].objective@
        &&& self.deadline is Some <==> tasks[self.position - 1].deadline is Some
    }

    /// The text of the row.
    pub open spec fn text(self) -> Seq<char> {
        row_text(
            self.position as nat,
            self.done,
            self.objective@,
            self.created@,
            match self.deadline {
                Some(d) => Some(d@),
                None => None,
            },
        )
    }

    /// Writes the row as a line of text.
    pub fn line(&self) -> (r: String)
        ensures
            r@ == self.text(),
    {
        let mut s = decimal_text(self.position);
        s.append(" [");
        s.append(if self.done { "x" } else { " " });
        s.append("] ");
        s.append(self.objective.as_str());
        s.append(" (created: ");
        s.append(self.created.as_str());
        s.append(", deadline: ");
        let cell = match &self.deadline {
            Some(d) => underline(d.as_str()),
            None => underline("-"),
        };
        s.append(cell.as_str());
        s.append(")");
        s
    }
}

/// The indices of the tasks that `rows` show, from top to bottom.
pub open spec fn row_indices(rows: Seq<Row>) -> Seq<usize> {
    rows.map_values(|row: Row| row.index())
}

/// The rows of the listing of `tasks` under `status` and `sort`, from top to
/// bottom. Each row shows its task with the position that the task has in
/// the whole list; the two times are written as the local clock of this
/// machine shows them.
pub fn smart_list_tasks(status: StatusFilter, sort: SortBy, tasks: &Vec<Task>) -> (rows: Vec<Row>)
    ensures
        is_listing(tasks@, status, sort, row_indices(rows@)),
        forall|k: int| 0 <= k < rows.len() ==> (#[trigger] rows[k]).presents(tasks@),
{
    let order = listing_order(status, sort, tasks);
    let mut rows: Vec<Row> = Vec::new();
    let mut k: usize = 0;
    while k < order.len()
        invariant
            k <= order.len(),
            is_listing(tasks@, status, sort, order@),
            rows.len() == k,
            forall|j: int| 0 <= j < k ==> (#[trigger] rows[j]).index() == order[j],
            forall|j: int| 0 <= j < k ==> (#[trigger] rows[j]).presents(tasks@),
        decreases order.len() - k,
    {
        let i: usize = order[k];
        assert(i < tasks.len());
        let task = &tasks[i];
        let created_at: Instant = task.created_at;
        proof {
            use_type_invariant(&created_at);
        }
        let created = local_minute_text(created_at);
        let deadline = match task.deadline {
            Some(due) => {
                proof {
                    use_type_invariant(&due);
                }
                Some(local_minute_text(due))
            },
            None => None,
        };
        rows.push(
            Row {
                position: i + 1,
                done: task.done,
                objective: task.objective.clone(),
                created,
                deadline,
            },
        );
        k = k + 1;
    }
    assert(row_indices(rows@) =~= order@);
    rows
}

} // verus!
