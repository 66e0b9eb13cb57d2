//! Sessions and the timed tasks they are made of.
use vstd::prelude::*;

verus! {

/// `chrono::NaiveDateTime`, carried through sessions as an opaque value.
#[verifier::external_type_specification]
#[verifier::external_body]
pub struct ExNaiveDateTime(chrono::NaiveDateTime);

/// `Clone::clone` of `chrono::NaiveDateTime`. The type is `Copy` and derives
/// `Clone`, so the clone is the value itself.
pub assume_specification[ <chrono::NaiveDateTime as Clone>::clone ](
    t: &chrono::NaiveDateTime,
) -> (copy: chrono::NaiveDateTime)
    ensures
        copy == *t,
;

/// Whether a task is time to work or time to rest.
#[derive(Debug, Clone, Copy, PartialEq, Eq, Structural)]
pub enum TaskType {
    Work,
    Break,
}

/// One timed segment of a session.
#[derive(Debug, Clone)]
pub struct Task {
    pub id: String,
    pub name: String,
    pub duration_minutes: u32,
    pub task_type: TaskType,
}

/// The mathematical content of a [`Task`].
pub struct TaskView {
    pub id: Seq<char>,
    pub name: Seq<char>,
    pub duration_minutes: nat,
    pub task_type: TaskType,
}

impl TaskView {
    /// The task's length in seconds.
    pub open spec fn seconds(self) -> nat {
        self.duration_minutes * 60
    }

    /// True for a break, false for work.
    pub open spec fn is_break(self) -> bool {
        self.task_type == TaskType::Break
    }
}

impl View for Task {
    type V = TaskView;

    open spec fn view(&self) -> TaskView {
        TaskView {
            id: self.id@,
            name: self.name@,
            duration_minutes: self.duration_minutes as nat,
            task_type: self.task_type,
        }
    }
}

impl Task {
    /// The task's length in seconds. Sixty times any `u32` fits in a `u64`.
    pub fn duration_seconds(&self) -> (secs: u64)
        ensures
            secs == self@.seconds(),
    {
        self.duration_minutes as u64 * 60
    }

    /// True for a break, false for work.
    pub fn is_break(&self) -> (b: bool)
        ensures
            b == self@.is_break(),
    {
        match self.task_type {
            TaskType::Break => true,
            TaskType::Work => false,
        }
    }
}

/// An ordered list of tasks that is run from first to last. `created_at` is
/// the creation time in UTC.
#[derive(Debug, Clone)]
pub struct Session {
    pub id: String,
    pub name: String,
    pub tasks: Vec<Task>,
    pub created_at: chrono::NaiveDateTime,
}

/// The mathematical content of a [`Session`].
pub struct SessionView {
    pub id: Seq<char>,
    pub name: Seq<char>,
    pub tasks: Seq<TaskView>,
    pub created_at: chrono::NaiveDateTime,
}

impl View for Session {
    type V = SessionView;

    open spec fn view(&self) -> SessionView {
        SessionView {
            id: self.id@,
            name: self.name@,
            tasks: Seq::new(self.tasks@.len(), |i: int| self.tasks@[i]@),
            created_at: self.created_at,
        }
    }
}

/// The seconds of the tasks of `tasks` from position `from` on, added up.
pub open spec fn seconds_from(tasks: Seq<TaskView>, from: nat) -> nat
    decreases tasks.len() - from,
{
    if from >= tasks.len() {
        0
    } else {
        tasks[from as int].seconds() + seconds_from(tasks, from + 1)
    }
}

impl SessionView {
    /// The length of the whole session in seconds.
    pub open spec fn total_seconds(self) -> nat {
        seconds_from(self.tasks, 0)
    }
}

} // verus!
