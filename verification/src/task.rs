//! Tasks: what a client asks for, which agent it is routed to, and how far it has come.

use vstd::prelude::*;

use crate::external::{fresh_task_id, now_unix_nanos};

verus! {

/// The error an agent reports for a task it could not complete.
#[derive(Debug, Clone)]
pub struct TaskError {
    pub code: String,
    pub message: String,
}

/// Abstract value of a [`TaskError`].
pub struct TaskErrorView {
    pub code: Seq<char>,
    pub message: Seq<char>,
}

impl View for TaskError {
    type V = TaskErrorView;

    open spec fn view(&self) -> TaskErrorView {
        TaskErrorView { code: self.code@, message: self.message@ }
    }
}

/// Where a task stands.
#[derive(Debug, Clone, Copy, PartialEq, Eq, Structural)]
pub enum TaskStatus {
    Pending,
    Accepted,
    Running,
    Completed,
    Failed,
    Cancelled,
}

/// A task: an intent with its JSON input, routed to one agent.
///
/// Times are nanoseconds since the Unix epoch.
#[derive(Debug, Clone)]
pub struct Task {
    pub task_id: String,
    pub intent: String,
    pub input: serde_json::Value,
    pub agent_id: String,
    pub status: TaskStatus,
    pub result: Option<serde_json::Value>,
    pub error: Option<TaskError>,
    pub created_at: i128,
    pub updated_at: i128,
}

/// Abstract value of a [`Task`].
pub struct TaskView {
    pub task_id: Seq<char>,
    pub intent: Seq<char>,
    pub input: serde_json::Value,
    pub agent_id: Seq<char>,
    pub status: TaskStatus,
    pub result: Option<serde_json::Value>,
    pub error: Option<TaskErrorView>,
    pub created_at: int,
    pub updated_at: int,
}

pub open spec fn error_view(error: Option<TaskError>) -> Option<TaskErrorView> {
    match error {
        Some(e) => Some(e@),
        None => None,
    }
}

impl View for Task {
    type V = TaskView;

    open spec fn view(&self) -> TaskView {
        TaskView {
            task_id: self.task_id@,
            intent: self.intent@,
            input: self.input,
            agent_id: self.agent_id@,
            status: self.status,
            result: self.result,
            error: error_view(self.error),
            created_at: self.created_at as int,
            updated_at: self.updated_at as int,
        }
    }
}

/// A new task as it is first made: pending, with no result or error, created and updated `now`.
pub open spec fn new_task_view(
    task_id: Seq<char>,
    now: int,
    intent: Seq<char>,
    input: serde_json::Value,
    agent_id: Seq<char>,
) -> TaskView {
    TaskView {
        task_id,
        intent,
        input,
        agent_id,
        status: TaskStatus::Pending,
        result: None,
        error: None,
        created_at: now,
        updated_at: now,
    }
}

impl TaskError {
    /// A copy with the same code and message.
    pub fn duplicate(&self) -> (copy: TaskError)
        ensures
            copy@ == self@,
    {
        TaskError { code: self.code.clone(), message: self.message.clone() }
    }
}

pub(crate) fn copy_opt_json(value: &Option<serde_json::Value>) -> (copy: Option<
    serde_json::Value,
>)
    ensures
        copy == *value,
{
    match value {
        Some(v) => Some(v.clone()),
        None => None,
    }
}

pub(crate) fn copy_opt_error(error: &Option<TaskError>) -> (copy: Option<TaskError>)
    ensures
        error_view(copy) == error_view(*error),
{
    match error {
        Some(e) => Some(e.duplicate()),
        None => None,
    }
}

impl Task {
    /// A new pending task for `agent_id`, with a fresh random identifier, created now.
    pub fn new(intent: String, input: serde_json::Value, agent_id: String) -> (task: Task)
        ensures
            task@ == new_task_view(task@.task_id, task@.created_at, intent@, input, agent_id@),
            crate::external::is_uuid_v4_text(task@.task_id),
    {
        let task_id = fresh_task_id();
        let now = now_unix_nanos();
        Task::new_at(task_id, now, intent, input, agent_id)
    }

    /// A new pending task with the given identifier, created at `now`.
    pub fn new_at(
        task_id: String,
        now: i128,
        intent: String,
        input: serde_json::Value,
        agent_id: String,
    ) -> (task: Task)
        ensures
            task@ == new_task_view(task_id@, now as int, intent@, input, agent_id@),
    {
        Task {
            task_id,
            intent,
            input,
            agent_id,
            status: TaskStatus::Pending,
            result: None,
            error: None,
            created_at: now,
            updated_at: now,
        }
    }

    /// An equal task, built anew from its fields.
    pub fn duplicate(&self) -> (copy: Task)
        ensures
            copy@ == self@,
    {
        Task {
            task_id: self.task_id.clone(),
            intent: self.intent.clone(),
            input: self.input.clone(),
            agent_id: self.agent_id.clone(),
            status: self.status,
            result: copy_opt_json(&self.result),
            error: copy_opt_error(&self.error),
            created_at: self.created_at,
            updated_at: self.updated_at,
        }
    }
}

} // verus!
