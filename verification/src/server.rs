//! What the hub's HTTP API answers: each request is carried out on the hub and answered
//! with a body or with an HTTP status code.

use vstd::prelude::*;

use crate::agent::Agent;
use crate::external::is_uuid_v4_text;
use crate::agent_registry::{agents_view, has_agent, record_poll, remove_agent, upsert_agent};
use crate::hub::{
    accepted_task_view, assignee, opt_string_view, reported_task, restated_task, Hub,
};
use crate::task::{error_view, Task, TaskError, TaskErrorView, TaskStatus};
use crate::task_store::{accepted_for, has_task, lookup_task, tasks_view, upsert_task};

verus! {

/// The status code of a request that names no known agent for a new task.
pub const BAD_REQUEST: u16 = 400;

/// The status code of a request that names a task or agent that does not exist.
pub const NOT_FOUND: u16 = 404;

/// The body of `POST /tasks`.
pub struct CreateTaskRequest {
    pub intent: String,
    pub input: serde_json::Value,
    pub agent_id: Option<String>,
}

/// The body of `PUT /tasks/{id}/result`.
pub struct UpdateTaskResultRequest {
    pub result: Option<serde_json::Value>,
    pub error_code: Option<String>,
    pub error_message: Option<String>,
}

/// The error a report carries: present only when both its code and its message are given.
pub open spec fn reported_error_view(code: Option<String>, message: Option<String>) -> Option<
    TaskErrorView,
> {
    match (code, message) {
        (Some(c), Some(m)) => Some(TaskErrorView { code: c@, message: m@ }),
        _ => None,
    }
}

/// Builds the error of a report from its optional code and message; `None` unless both are
/// given.
pub fn reported_error(code: Option<String>, message: Option<String>) -> (error: Option<TaskError>)
    ensures
        error_view(error) == reported_error_view(code, message),
{
    match (code, message) {
        (Some(code), Some(message)) => Some(TaskError { code, message }),
        _ => None,
    }
}

/// `POST /tasks`: creates and routes a task and answers with it, or with
/// [`BAD_REQUEST`] when there is no agent to route it to.
pub fn create_task(hub: &mut Hub, req: CreateTaskRequest) -> (r: Result<Task, u16>)
    requires
        old(hub).wf(),
    ensures
        final(hub).wf(),
        final(hub)@.agents == old(hub)@.agents,
        r is Ok <==> assignee(old(hub)@.agents, opt_string_view(req.agent_id), req.intent@) is Some,
        r matches Err(code) ==> code == BAD_REQUEST && final(hub)@.tasks == old(hub)@.tasks,
        r matches Ok(t) ==> t@ == accepted_task_view(
            t@.task_id,
            t@.created_at,
            req.intent@,
            req.input,
            assignee(old(hub)@.agents, opt_string_view(req.agent_id), req.intent@)->0,
        ) && is_uuid_v4_text(t@.task_id) && final(hub)@.tasks == upsert_task(old(hub)@.tasks, t@),
{
    match hub.create_task(req.intent, req.input, req.agent_id) {
        Ok(task) => Ok(task),
        Err(_) => Err(BAD_REQUEST),
    }
}

/// `GET /tasks/{id}`: answers with the task, or with [`NOT_FOUND`].
pub fn get_task(hub: &Hub, task_id: &str) -> (r: Result<Task, u16>)
    requires
        hub.wf(),
    ensures
        r is Ok <==> has_task(hub@.tasks, task_id@),
        r matches Ok(t) ==> lookup_task(hub@.tasks, task_id@) == Some(t@),
        r matches Err(code) ==> code == NOT_FOUND,
{
    match hub.get_task(task_id) {
        Some(task) => Ok(task),
        None => Err(NOT_FOUND),
    }
}

/// `PUT /tasks/{id}/result`: records the reported outcome and answers with the updated task,
/// or with [`NOT_FOUND`]. An error is recorded only when both its code and message are given.
pub fn update_task_result(hub: &mut Hub, task_id: &str, req: UpdateTaskResultRequest) -> (r:
    Result<Task, u16>)
    requires
        old(hub).wf(),
    ensures
        final(hub).wf(),
        final(hub)@.agents == old(hub)@.agents,
        r is Ok <==> has_task(old(hub)@.tasks, task_id@),
        r matches Err(code) ==> code == NOT_FOUND && final(hub)@.tasks == old(hub)@.tasks,
        r matches Ok(t) ==> t@ == reported_task(
            lookup_task(old(hub)@.tasks, task_id@)->0,
            req.result,
            reported_error_view(req.error_code, req.error_message),
            t@.updated_at,
        ) && final(hub)@.tasks == upsert_task(old(hub)@.tasks, t@),
{
    let error = reported_error(req.error_code, req.error_message);
    match hub.update_task_result(task_id, req.result, error) {
        Ok(task) => Ok(task),
        Err(_) => Err(NOT_FOUND),
    }
}

/// `POST /tasks/{id}/cancel`: cancels the task and answers with it, or with [`NOT_FOUND`].
pub fn cancel_task(hub: &mut Hub, task_id: &str) -> (r: Result<Task, u16>)
    requires
        old(hub).wf(),
    ensures
        final(hub).wf(),
        final(hub)@.agents == old(hub)@.agents,
        r is Ok <==> has_task(old(hub)@.tasks, task_id@),
        r matches Err(code) ==> code == NOT_FOUND && final(hub)@.tasks == old(hub)@.tasks,
        r matches Ok(t) ==> t@ == restated_task(
            lookup_task(old(hub)@.tasks, task_id@)->0,
            TaskStatus::Cancelled,
            t@.updated_at,
        ) && final(hub)@.tasks == upsert_task(old(hub)@.tasks, t@),
{
    match hub.cancel_task(task_id) {
        Ok(task) => Ok(task),
        Err(_) => Err(NOT_FOUND),
    }
}

/// `GET /tasks`: answers with all tasks, in store order.
pub fn list_tasks(hub: &Hub) -> (tasks: Vec<Task>)
    ensures
        tasks_view(tasks@) == hub@.tasks,
{
    hub.list_tasks()
}

/// `GET /agents`: answers with all registered agents, in registry order.
pub fn list_agents(hub: &Hub) -> (agents: Vec<Agent>)
    ensures
        agents_view(agents@) == hub@.agents,
{
    hub.list_agents()
}

/// `POST /agents`: registers the agent.
pub fn register_agent(hub: &mut Hub, agent: Agent)
    requires
        old(hub).wf(),
    ensures
        final(hub).wf(),
        final(hub)@.agents == upsert_agent(old(hub)@.agents, agent@),
        final(hub)@.tasks == old(hub)@.tasks,
{
    hub.register_agent(agent)
}

/// `DELETE /agents/{id}`: removes the agent, or answers [`NOT_FOUND`].
pub fn unregister_agent(hub: &mut Hub, agent_id: &str) -> (r: Result<(), u16>)
    requires
        old(hub).wf(),
    ensures
        final(hub).wf(),
        r is Ok <==> has_agent(old(hub)@.agents, agent_id@),
        r matches Err(code) ==> code == NOT_FOUND,
        final(hub)@.agents == remove_agent(old(hub)@.agents, agent_id@),
        final(hub)@.tasks == old(hub)@.tasks,
{
    match hub.unregister_agent(agent_id) {
        Some(_) => Ok(()),
        None => Err(NOT_FOUND),
    }
}

/// `GET /agents/{id}/tasks`: the agent polls; answers with its accepted tasks, or with
/// [`NOT_FOUND`] when no such agent is registered.
pub fn poll_agent_tasks(hub: &mut Hub, agent_id: &str) -> (r: Result<Vec<Task>, u16>)
    requires
        old(hub).wf(),
    ensures
        final(hub).wf(),
        final(hub)@.tasks == old(hub)@.tasks,
        r is Ok <==> has_agent(old(hub)@.agents, agent_id@),
        r matches Err(code) ==> code == NOT_FOUND && final(hub)@.agents == old(hub)@.agents,
        r matches Ok(tasks) ==> tasks_view(tasks@) == accepted_for(old(hub)@.tasks, agent_id@)
            && exists|now: int| final(hub)@.agents == record_poll(old(hub)@.agents, agent_id@, now),
{
    match hub.poll_tasks(agent_id) {
        Ok(tasks) => Ok(tasks),
        Err(_) => Err(NOT_FOUND),
    }
}

} // verus!
