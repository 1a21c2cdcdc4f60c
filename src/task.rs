//! Tasks, the builder that assembles them, and the urgency rule.
use vstd::prelude::*;

use crate::priority::{priority_of_text, Priority};
use crate::time::{current_time, parse_rfc3339, rfc3339_instant, within_a_day, Timestamp};

verus! {

/// A unit of work: what to do, how important it is, and when it is due. Once
/// made, a task is only read.
pub struct Task {
    desc: String,
    priority: Priority,
    due: Option<Timestamp>,
}

/// What a task holds, as plain values.
pub struct TaskView {
    pub desc: Seq<char>,
    pub priority: Priority,
    pub due: Option<Timestamp>,
}

impl View for Task {
    type V = TaskView;

    closed spec fn view(&self) -> TaskView {
        TaskView { desc: self.desc@, priority: self.priority, due: self.due }
    }
}

/// Why a task could not be built.
#[derive(Clone, Debug, PartialEq, Eq)]
pub enum TaskError {
    /// The deadline text is not an RFC 3339 date and time; it is kept here.
    InvalidDeadlineFormat(String),
    /// No description was given.
    MissingDescription,
}

/// The priority the builder stores for a priority text: the one it names, or
/// `Normal` when it names none.
pub open spec fn priority_or_default(s: Seq<char>) -> Priority {
    match priority_of_text(s) {
        Some(p) => p,
        None => Priority::Normal,
    }
}

impl Task {
    /// Whether the task is urgent at the instant `now`: its priority is high, or
    /// it is due no later than one day after `now`.
    pub open spec fn urgent_at(&self, now: Timestamp) -> bool {
        self@.priority == Priority::High || match self@.due {
            Some(t) => within_a_day(t, now),
            None => false,
        }
    }

    pub fn new(desc: String, priority: Priority, due: Option<Timestamp>) -> (r: Task)
        ensures
            r@.desc == desc@,
            r@.priority == priority,
            r@.due == due,
    {
        Task { desc, priority, due }
    }

    /// What to do.
    pub fn desc(&self) -> (r: &str)
        ensures
            r@ == self@.desc,
    {
        self.desc.as_str()
    }

    /// How important the task is.
    pub fn priority(&self) -> (r: Priority)
        ensures
            r == self@.priority,
    {
        self.priority
    }

    /// When the task is due, if it has a deadline.
    pub fn due(&self) -> (r: Option<Timestamp>)
        ensures
            r == self@.due,
    {
        self.due
    }

    /// The task itself.
    pub fn restitute_task(&self) -> (r: &Task)
        ensures
            r == self,
    {
        self
    }

    /// Whether the task is urgent at the instant `now`.
    pub fn is_urgent_at(&self, now: &Timestamp) -> (r: bool)
        ensures
            r == self.urgent_at(*now),
    {
        let urgent_priority = match self.priority {
            Priority::Low => false,
            Priority::Normal => false,
            Priority::High => true,
        };
        let urgent_deadline = match &self.due {
            None => false,
            Some(due) => due.is_within_a_day_of(now),
        };
        urgent_priority || urgent_deadline
    }

    /// Whether the task is urgent now, by the system clock. Two calls on the same
    /// task may differ, as time goes by.
    pub fn is_urgent(&self) -> (r: bool)
        ensures
            exists|now: Timestamp| r == self.urgent_at(now),
            self@.priority == Priority::High ==> r,
            self@.priority != Priority::High && self@.due is None ==> !r,
    {
        let now = current_time();
        let r = self.is_urgent_at(&now);
        assert(r == self.urgent_at(now));
        r
    }
}

/// A task with its fields still being gathered.
pub struct TaskBuilder {
    pub desc: Option<String>,
    pub prio: Option<Priority>,
    pub due: Option<Timestamp>,
}

impl TaskBuilder {
    /// A builder with no field given yet.
    pub fn new() -> (r: TaskBuilder)
        ensures
            r.desc is None,
            r.prio is None,
            r.due is None,
    {
        TaskBuilder { desc: None, prio: None, due: None }
    }

    /// Gives the description, kept as it is (an empty one too).
    pub fn desc(self, desc: String) -> (r: TaskBuilder)
        ensures
            r.desc == Some(desc),
            r.prio == self.prio,
            r.due == self.due,
    {
        TaskBuilder { desc: Some(desc), prio: self.prio, due: self.due }
    }

    /// Gives the priority as a text; one that names no priority gives `Normal`.
    pub fn priority(self, prio: &str) -> (r: TaskBuilder)
        ensures
            r.desc == self.desc,
            r.prio == Some(priority_or_default(prio@)),
            prio@.len() == 0 ==> r.prio == Some(Priority::Normal),
            r.due == self.due,
    {
        let p = match Priority::from_str(prio) {
            Ok(p) => p,
            Err(_) => Priority::default(),
        };
        TaskBuilder { desc: self.desc, prio: Some(p), due: self.due }
    }

    /// Gives the deadline as an instant.
    pub fn with_deadline(self, due: Timestamp) -> (r: TaskBuilder)
        ensures
            r.desc == self.desc,
            r.prio == self.prio,
            r.due == Some(due),
    {
        TaskBuilder { desc: self.desc, prio: self.prio, due: Some(due) }
    }

    /// Gives the deadline as an RFC 3339 text (`2014-07-08T09:10:11Z`). A text
    /// in any other form is refused, and no builder is left.
    pub fn deadline(self, due: &str) -> (r: Result<TaskBuilder, TaskError>)
        ensures
            match rfc3339_instant(due@) {
                Some(t) => r matches Ok(b) && b.desc == self.desc && b.prio == self.prio
                    && b.due == Some(t),
                None => r matches Err(TaskError::InvalidDeadlineFormat(m)) && m@ == due@,
            },
    {
        match parse_rfc3339(due) {
            Some(t) => Ok(self.with_deadline(t)),
            None => Err(TaskError::InvalidDeadlineFormat(due.to_owned())),
        }
    }

    /// The finished task. It needs a description; the priority is `Normal` when
    /// none was given.
    pub fn build(self) -> (r: Result<Task, TaskError>)
        ensures
            match self.desc {
                Some(d) => r matches Ok(t) && t@.desc == d@ && t@.priority == match self.prio {
                    Some(p) => p,
                    None => Priority::Normal,
                } && t@.due == self.due,
                None => r matches Err(TaskError::MissingDescription),
            },
    {
        match self.desc {
            Some(desc) => {
                let priority = match self.prio {
                    Some(p) => p,
                    None => Priority::default(),
                };
                Ok(Task { desc, priority, due: self.due })
            },
            None => Err(TaskError::MissingDescription),
        }
    }
}

/// A task of high priority is urgent at every instant, whatever its deadline,
/// none included.
pub proof fn lemma_high_priority_is_urgent(task: Task, now: Timestamp)
    requires
        task@.priority == Priority::High,
    ensures
        task.urgent_at(now),
{
}

/// A task of low or normal priority that is due no later than one day after
/// `now` is urgent at `now`.
pub proof fn lemma_near_deadline_is_urgent(task: Task, now: Timestamp)
    requires
        task@.priority == Priority::Low || task@.priority == Priority::Normal,
        task@.due matches Some(t) && within_a_day(t, now),
    ensures
        task.urgent_at(now),
{
}

/// A task of normal priority with no deadline is urgent at no instant.
pub proof fn lemma_normal_without_deadline_is_not_urgent(task: Task, now: Timestamp)
    requires
        task@.priority == Priority::Normal,
        task@.due is None,
    ensures
        !task.urgent_at(now),
{
}

/// A task of low or normal priority that is due later than one day after `now`
/// is not urgent at `now`.
pub proof fn lemma_far_deadline_is_not_urgent(task: Task, now: Timestamp)
    requires
        task@.priority == Priority::Low || task@.priority == Priority::Normal,
        task@.due matches Some(t) && !within_a_day(t, now),
    ensures
        !task.urgent_at(now),
{
}

} // verus!
