//! The task record and the options of a listing.

use crate::instant::Instant;
use vstd::prelude::*;

verus! {

/// One entry of the task list.
#[derive(Clone, Debug, PartialEq, Eq)]
pub struct Task {
    /// What is to be done.
    pub objective: String,
    /// Whether it has been done.
    pub done: bool,
    /// When the task was added. Never changes afterwards.
    pub created_at: Instant,
    /// When the task is due, once that has been set.
    pub deadline: Option<Instant>,
}

impl Task {
    /// A task as it is when added: not done, with no deadline.
    pub fn new(objective: String, created_at: Instant) -> (task: Task)
        ensures
            task == (Task { objective, done: false, created_at, deadline: None }),
    {
        Task { objective, done: false, created_at, deadline: None }
    }
}

/// Which tasks a listing shows.
#[derive(Clone, Copy, Debug, PartialEq, Eq, Structural)]
pub enum StatusFilter {
    /// Only the tasks that are done.
    Done,
    /// Only the tasks that are not done.
    Undone,
    /// Every task.
    All,
}

/// The order in which a listing shows its tasks.
#[derive(Clone, Copy, Debug, PartialEq, Eq, Structural)]
pub enum SortBy {
    /// The order in which the tasks were added.
    NoSort,
    /// Oldest first.
    Created,
    /// Tasks without a deadline first, then those with one, earliest first.
    Deadline,
}

/// Whether `position` names a task of a list of `len` tasks. Positions count
/// from one.
pub open spec fn valid_position(len: nat, position: int) -> bool {
    1 <= position <= len
}

} // verus!
