//! The hub: its task store and agent registry, and the operations that clients and agents
//! perform on them.

use vstd::prelude::*;

use crate::agent::{Agent, AgentView};
use crate::agent_registry::{
    agent_ids_distinct, agents_view, first_server, has_agent, has_server, ids_of, live_agents,
    lookup_agent, record_poll, remove_agent, stale_agents, upsert_agent, AgentRegistry,
};
use crate::error::{HubError, HubErrorView};
use crate::external::{fresh_task_id, is_uuid_v4_text, now_unix_nanos};
use crate::task::{error_view, new_task_view, Task, TaskError, TaskErrorView, TaskStatus, TaskView};
use crate::task_store::{
    accepted_for, has_task, lemma_task_index, lookup_task, task_ids_distinct, tasks_view, upsert_task,
    TaskStore,
};

verus! {

/// Abstract value of a [`Hub`]: its tasks in store order and its agents in registry order.
pub struct HubView {
    pub tasks: Seq<TaskView>,
    pub agents: Seq<AgentView>,
}

/// The hub: an in-memory task store and agent registry.
pub struct Hub {
    task_store: TaskStore,
    agents: AgentRegistry,
}

impl View for Hub {
    type V = HubView;

    closed spec fn view(&self) -> HubView {
        HubView { tasks: self.task_store@, agents: self.agents@ }
    }
}

pub open spec fn opt_string_view(s: Option<String>) -> Option<Seq<char>> {
    match s {
        Some(s) => Some(s@),
        None => None,
    }
}

/// The agent a new task goes to: the named agent if it is registered; with no name, the
/// first agent in registry order that serves the intent; `None` if there is no such agent.
pub open spec fn assignee(
    agents: Seq<AgentView>,
    agent_id: Option<Seq<char>>,
    intent: Seq<char>,
) -> Option<Seq<char>> {
    match agent_id {
        Some(id) => if has_agent(agents, id) {
            Some(id)
        } else {
            None
        },
        None => if has_server(agents, intent) {
            Some(agents[first_server(agents, intent)].agent_id)
        } else {
            None
        },
    }
}

/// Why a task cannot be created when there is no assignee.
pub open spec fn assignment_refusal(agent_id: Option<Seq<char>>, intent: Seq<char>) -> HubErrorView {
    match agent_id {
        Some(id) => HubErrorView::AgentNotFound(id),
        None => HubErrorView::NoAgentForIntent(intent),
    }
}

/// A newly created task: accepted for its agent, with no result or error yet.
pub open spec fn accepted_task_view(
    task_id: Seq<char>,
    now: int,
    intent: Seq<char>,
    input: serde_json::Value,
    agent_id: Seq<char>,
) -> TaskView {
    TaskView {
        status: TaskStatus::Accepted,
        ..new_task_view(task_id, now, intent, input, agent_id)
    }
}

/// The status after a report: completed when only a result comes, failed when only an error
/// comes, and otherwise unchanged.
pub open spec fn reported_status(status: TaskStatus, has_result: bool, has_error: bool) -> TaskStatus {
    if has_result && !has_error {
        TaskStatus::Completed
    } else if !has_result && has_error {
        TaskStatus::Failed
    } else {
        status
    }
}

/// The task after a report of `result` and `error` at `now`: both are stored as given.
pub open spec fn reported_task(
    task: TaskView,
    result: Option<serde_json::Value>,
    error: Option<TaskErrorView>,
    now: int,
) -> TaskView {
    TaskView {
        status: reported_status(task.status, result is Some, error is Some),
        result,
        error,
        updated_at: now,
        ..task
    }
}

/// The task moved to `status` at `now`.
pub open spec fn restated_task(task: TaskView, status: TaskStatus, now: int) -> TaskView {
    TaskView { status, updated_at: now, ..task }
}

pub open spec fn opt_task_view(task: Option<Task>) -> Option<TaskView> {
    match task {
        Some(t) => Some(t@),
        None => None,
    }
}

pub open spec fn opt_agent_view(agent: Option<Agent>) -> Option<AgentView> {
    match agent {
        Some(a) => Some(a@),
        None => None,
    }
}

impl Hub {
    /// Identifiers are unique among tasks and among agents.
    pub open spec fn wf(&self) -> bool {
        task_ids_distinct(self@.tasks) && agent_ids_distinct(self@.agents)
    }

    closed spec fn parts_wf(&self) -> bool {
        self.task_store.wf() && self.agents.wf()
    }

    proof fn lemma_wf(&self)
        ensures
            self.wf() <==> self.parts_wf(),
    {
    }

    /// An empty hub: no tasks, no agents.
    pub fn new() -> (hub: Hub)
        ensures
            hub.wf(),
            hub@.tasks == Seq::<TaskView>::empty(),
            hub@.agents == Seq::<AgentView>::empty(),
    {
        let hub = Hub { task_store: TaskStore::new(), agents: AgentRegistry::new() };
        proof {
            hub.lemma_wf();
        }
        hub
    }

    /// Registers `agent`; an agent already registered under its identifier is replaced.
    pub fn register_agent(&mut self, agent: Agent)
        requires
            old(self).wf(),
        ensures
            final(self).wf(),
            final(self)@.agents == upsert_agent(old(self)@.agents, agent@),
            final(self)@.tasks == old(self)@.tasks,
    {
        proof {
            self.lemma_wf();
        }
        self.agents.register(agent);
        proof {
            self.lemma_wf();
        }
    }

    /// Removes the agent registered under `agent_id` and hands it back; `None` if there is none.
    pub fn unregister_agent(&mut self, agent_id: &str) -> (removed: Option<Agent>)
        requires
            old(self).wf(),
        ensures
            final(self).wf(),
            opt_agent_view(removed) == lookup_agent(old(self)@.agents, agent_id@),
            final(self)@.agents == remove_agent(old(self)@.agents, agent_id@),
            final(self)@.tasks == old(self)@.tasks,
    {
        proof {
            self.lemma_wf();
        }
        let removed = self.agents.unregister(agent_id);
        proof {
            self.lemma_wf();
        }
        removed
    }

    /// Creates a task with identifier `task_id` at time `now` and routes it: to the agent
    /// named by `agent_id` if it is registered, or with no name to the first agent that serves
    /// `intent`. The task is stored as accepted and a copy is returned. Refused, with the store
    /// unchanged, when there is no such agent.
    pub fn create_task_at(
        &mut self,
        task_id: String,
        now: i128,
        intent: String,
        input: serde_json::Value,
        agent_id: Option<String>,
    ) -> (r: Result<Task, HubError>)
        requires
            old(self).wf(),
        ensures
            final(self).wf(),
            final(self)@.agents == old(self)@.agents,
            r is Ok <==> assignee(old(self)@.agents, opt_string_view(agent_id), intent@) is Some,
            r matches Err(e) ==> e@ == assignment_refusal(opt_string_view(agent_id), intent@)
                && final(self)@.tasks == old(self)@.tasks,
            r matches Ok(t) ==> t@ == accepted_task_view(
                task_id@,
                now as int,
                intent@,
                input,
                assignee(old(self)@.agents, opt_string_view(agent_id), intent@)->0,
            ) && final(self)@.tasks == upsert_task(old(self)@.tasks, t@),
    {
        proof {
            self.lemma_wf();
        }
        let target: String = match agent_id {
            Some(id) => match self.agents.get(id.as_str()) {
                Some(a) => a.agent_id.clone(),
                None => {
                    return Err(HubError::AgentNotFound(id));
                },
            },
            None => match self.agents.find_for_intent(intent.as_str()) {
                Some(i) => self.agents.at(i).agent_id.clone(),
                None => {
                    return Err(HubError::NoAgentForIntent(intent));
                },
            },
        };
        let mut task = Task::new_at(task_id, now, intent, input, target);
        task.status = TaskStatus::Accepted;
        self.task_store.insert(task.duplicate());
        proof {
            self.lemma_wf();
        }
        Ok(task)
    }

    /// Creates a task with a fresh random identifier, at the current time, and routes it as
    /// [`Hub::create_task_at`] does.
    pub fn create_task(
        &mut self,
        intent: String,
        input: serde_json::Value,
        agent_id: Option<String>,
    ) -> (r: Result<Task, HubError>)
        requires
            old(self).wf(),
        ensures
            final(self).wf(),
            final(self)@.agents == old(self)@.agents,
            r is Ok <==> assignee(old(self)@.agents, opt_string_view(agent_id), intent@) is Some,
            r matches Err(e) ==> e@ == assignment_refusal(opt_string_view(agent_id), intent@)
                && final(self)@.tasks == old(self)@.tasks,
            r matches Ok(t) ==> t@ == accepted_task_view(
                t@.task_id,
                t@.created_at,
                intent@,
                input,
                assignee(old(self)@.agents, opt_string_view(agent_id), intent@)->0,
            ) && is_uuid_v4_text(t@.task_id) && final(self)@.tasks == upsert_task(old(self)@.tasks, t@),
    {
        let task_id = fresh_task_id();
        let now = now_unix_nanos();
        self.create_task_at(task_id, now, intent, input, agent_id)
    }

    /// A copy of the task with identifier `task_id`; `None` if there is none.
    pub fn get_task(&self, task_id: &str) -> (task: Option<Task>)
        requires
            self.wf(),
        ensures
            opt_task_view(task) == lookup_task(self@.tasks, task_id@),
    {
        proof {
            self.lemma_wf();
        }
        match self.task_store.get(task_id) {
            Some(t) => Some(t.duplicate()),
            None => None,
        }
    }

    /// Records the outcome an agent reports for task `task_id` at time `now`: the result and
    /// error are stored as given; the task completes when only a result comes and fails when
    /// only an error comes. Refused, with nothing changed, when there is no such task.
    pub fn update_task_result_at(
        &mut self,
        task_id: &str,
        result: Option<serde_json::Value>,
        error: Option<TaskError>,
        now: i128,
    ) -> (r: Result<Task, HubError>)
        requires
            old(self).wf(),
        ensures
            final(self).wf(),
            final(self)@.agents == old(self)@.agents,
            r is Ok <==> has_task(old(self)@.tasks, task_id@),
            r matches Err(e) ==> e@ == HubErrorView::TaskNotFound(task_id@) && final(self)@.tasks
                == old(self)@.tasks,
            r matches Ok(t) ==> t@ == reported_task(
                lookup_task(old(self)@.tasks, task_id@)->0,
                result,
                error_view(error),
                now as int,
            ) && final(self)@.tasks == upsert_task(old(self)@.tasks, t@),
    {
        proof {
            self.lemma_wf();
        }
        match self.task_store.position(task_id) {
            Some(i) => {
                let mut task = self.task_store.at(i).duplicate();
                task.updated_at = now;
                match (&result, &error) {
                    (Some(_), None) => {
                        task.status = TaskStatus::Completed;
                    },
                    (None, Some(_)) => {
                        task.status = TaskStatus::Failed;
                    },
                    _ => {},
                }
                task.result = result;
                task.error = error;
                let copy = task.duplicate();
                proof {
                    lemma_task_index(self.task_store@, i as int);
                }
                self.task_store.replace_at(i, task);
                proof {
                    self.lemma_wf();
                }
                Ok(copy)
            },
            None => Err(HubError::TaskNotFound(task_id.to_owned())),
        }
    }

    /// Records a reported outcome at the current time, as [`Hub::update_task_result_at`] does.
    pub fn update_task_result(
        &mut self,
        task_id: &str,
        result: Option<serde_json::Value>,
        error: Option<TaskError>,
    ) -> (r: Result<Task, HubError>)
        requires
            old(self).wf(),
        ensures
            final(self).wf(),
            final(self)@.agents == old(self)@.agents,
            r is Ok <==> has_task(old(self)@.tasks, task_id@),
            r matches Err(e) ==> e@ == HubErrorView::TaskNotFound(task_id@) && final(self)@.tasks
                == old(self)@.tasks,
            r matches Ok(t) ==> t@ == reported_task(
                lookup_task(old(self)@.tasks, task_id@)->0,
                result,
                error_view(error),
                t@.updated_at,
            ) && final(self)@.tasks == upsert_task(old(self)@.tasks, t@),
    {
        let now = now_unix_nanos();
        self.update_task_result_at(task_id, result, error, now)
    }

    /// Moves task `task_id` to `status` at time `now`; refused when there is no such task.
    fn restate_at(&mut self, task_id: &str, status: TaskStatus, now: i128) -> (r: Result<
        Task,
        HubError,
    >)
        requires
            old(self).wf(),
        ensures
            final(self).wf(),
            final(self)@.agents == old(self)@.agents,
            r is Ok <==> has_task(old(self)@.tasks, task_id@),
            r matches Err(e) ==> e@ == HubErrorView::TaskNotFound(task_id@) && final(self)@.tasks
                == old(self)@.tasks,
            r matches Ok(t) ==> t@ == restated_task(
                lookup_task(old(self)@.tasks, task_id@)->0,
                status,
                now as int,
            ) && final(self)@.tasks == upsert_task(old(self)@.tasks, t@),
    {
        proof {
            self.lemma_wf();
        }
        match self.task_store.position(task_id) {
            Some(i) => {
                let mut task = self.task_store.at(i).duplicate();
                task.status = status;
                task.updated_at = now;
                let copy = task.duplicate();
                proof {
                    lemma_task_index(self.task_store@, i as int);
                }
                self.task_store.replace_at(i, task);
                proof {
                    self.lemma_wf();
                }
                Ok(copy)
            },
            None => Err(HubError::TaskNotFound(task_id.to_owned())),
        }
    }

    /// Marks task `task_id` as running at time `now`; refused when there is no such task.
    pub fn execute_task_at(&mut self, task_id: &str, now: i128) -> (r: Result<Task, HubError>)
        requires
            old(self).wf(),
        ensures
            final(self).wf(),
            final(self)@.agents == old(self)@.agents,
            r is Ok <==> has_task(old(self)@.tasks, task_id@),
            r matches Err(e) ==> e@ == HubErrorView::TaskNotFound(task_id@) && final(self)@.tasks
                == old(self)@.tasks,
            r matches Ok(t) ==> t@ == restated_task(
                lookup_task(old(self)@.tasks, task_id@)->0,
                TaskStatus::Running,
                now as int,
            ) && final(self)@.tasks == upsert_task(old(self)@.tasks, t@),
    {
        self.restate_at(task_id, TaskStatus::Running, now)
    }

    /// Marks task `task_id` as running at the current time.
    pub fn execute_task(&mut self, task_id: &str) -> (r: Result<Task, HubError>)
        requires
            old(self).wf(),
        ensures
            final(self).wf(),
            final(self)@.agents == old(self)@.agents,
            r is Ok <==> has_task(old(self)@.tasks, task_id@),
            r matches Err(e) ==> e@ == HubErrorView::TaskNotFound(task_id@) && final(self)@.tasks
                == old(self)@.tasks,
            r matches Ok(t) ==> t@ == restated_task(
                lookup_task(old(self)@.tasks, task_id@)->0,
                TaskStatus::Running,
                t@.updated_at,
            ) && final(self)@.tasks == upsert_task(old(self)@.tasks, t@),
    {
        let now = now_unix_nanos();
        self.execute_task_at(task_id, now)
    }

    /// Marks task `task_id` as cancelled at time `now`; refused when there is no such task.
    pub fn cancel_task_at(&mut self, task_id: &str, now: i128) -> (r: Result<Task, HubError>)
        requires
            old(self).wf(),
        ensures
            final(self).wf(),
            final(self)@.agents == old(self)@.agents,
            r is Ok <==> has_task(old(self)@.tasks, task_id@),
            r matches Err(e) ==> e@ == HubErrorView::TaskNotFound(task_id@) && final(self)@.tasks
                == old(self)@.tasks,
            r matches Ok(t) ==> t@ == restated_task(
                lookup_task(old(self)@.tasks, task_id@)->0,
                TaskStatus::Cancelled,
                now as int,
            ) && final(self)@.tasks == upsert_task(old(self)@.tasks, t@),
    {
        self.restate_at(task_id, TaskStatus::Cancelled, now)
    }

    /// Marks task `task_id` as cancelled at the current time.
    pub fn cancel_task(&mut self, task_id: &str) -> (r: Result<Task, HubError>)
        requires
            old(self).wf(),
        ensures
            final(self).wf(),
            final(self)@.agents == old(self)@.agents,
            r is Ok <==> has_task(old(self)@.tasks, task_id@),
            r matches Err(e) ==> e@ == HubErrorView::TaskNotFound(task_id@) && final(self)@.tasks
                == old(self)@.tasks,
            r matches Ok(t) ==> t@ == restated_task(
                lookup_task(old(self)@.tasks, task_id@)->0,
                TaskStatus::Cancelled,
                t@.updated_at,
            ) && final(self)@.tasks == upsert_task(old(self)@.tasks, t@),
    {
        let now = now_unix_nanos();
        self.cancel_task_at(task_id, now)
    }

    /// Copies of all registered agents, in registry order.
    pub fn list_agents(&self) -> (agents: Vec<Agent>)
        ensures
            agents_view(agents@) == self@.agents,
    {
        self.agents.list()
    }

    /// Copies of all tasks, in store order.
    pub fn list_tasks(&self) -> (tasks: Vec<Task>)
        ensures
            tasks_view(tasks@) == self@.tasks,
    {
        self.task_store.list()
    }

    /// Agent `agent_id` polls at time `now`: its poll time is recorded and it receives copies
    /// of the accepted tasks assigned to it, in store order. Refused, with nothing changed,
    /// when no such agent is registered.
    pub fn poll_tasks_at(&mut self, agent_id: &str, now: i128) -> (r: Result<Vec<Task>, HubError>)
        requires
            old(self).wf(),
        ensures
            final(self).wf(),
            final(self)@.tasks == old(self)@.tasks,
            r is Ok <==> has_agent(old(self)@.agents, agent_id@),
            r matches Err(e) ==> e@ == HubErrorView::AgentNotFound(agent_id@)
                && final(self)@.agents == old(self)@.agents,
            r matches Ok(tasks) ==> tasks_view(tasks@) == accepted_for(old(self)@.tasks, agent_id@)
                && final(self)@.agents == record_poll(old(self)@.agents, agent_id@, now as int),
    {
        proof {
            self.lemma_wf();
        }
        match self.agents.update_poll_time(agent_id, now) {
            Ok(()) => {
                proof {
                    self.lemma_wf();
                }
                Ok(self.task_store.accepted_for(agent_id))
            },
            Err(e) => {
                proof {
                    self.lemma_wf();
                }
                Err(e)
            },
        }
    }

    /// Agent `agent_id` polls at the current time, as in [`Hub::poll_tasks_at`].
    pub fn poll_tasks(&mut self, agent_id: &str) -> (r: Result<Vec<Task>, HubError>)
        requires
            old(self).wf(),
        ensures
            final(self).wf(),
            final(self)@.tasks == old(self)@.tasks,
            r is Ok <==> has_agent(old(self)@.agents, agent_id@),
            r matches Err(e) ==> e@ == HubErrorView::AgentNotFound(agent_id@)
                && final(self)@.agents == old(self)@.agents,
            r matches Ok(tasks) ==> tasks_view(tasks@) == accepted_for(old(self)@.tasks, agent_id@)
                && exists|now: int| final(self)@.agents == record_poll(old(self)@.agents, agent_id@, now),
    {
        let now = now_unix_nanos();
        self.poll_tasks_at(agent_id, now)
    }

    /// Removes every agent that counts as stale at time `now` (never polled, or last polled
    /// more than `timeout` nanoseconds before `now`) and returns their identifiers in registry
    /// order.
    pub fn cleanup_stale_agents_at(&mut self, now: i128, timeout: i128) -> (removed: Vec<String>)
        requires
            old(self).wf(),
        ensures
            final(self).wf(),
            final(self)@.tasks == old(self)@.tasks,
            final(self)@.agents == live_agents(old(self)@.agents, now as int, timeout as int),
            removed@.map_values(|s: String| s@) == ids_of(
                stale_agents(old(self)@.agents, now as int, timeout as int),
            ),
    {
        proof {
            self.lemma_wf();
        }
        let removed = self.agents.cleanup_stale_agents(now, timeout);
        proof {
            self.lemma_wf();
        }
        removed
    }

    /// Removes the agents that count as stale at the current time, as in
    /// [`Hub::cleanup_stale_agents_at`].
    pub fn cleanup_stale_agents(&mut self, timeout: i128) -> (removed: Vec<String>)
        requires
            old(self).wf(),
        ensures
            final(self).wf(),
            final(self)@.tasks == old(self)@.tasks,
            exists|now: int|
                final(self)@.agents == live_agents(old(self)@.agents, now, timeout as int)
                    && removed@.map_values(|s: String| s@) == ids_of(
                    stale_agents(old(self)@.agents, now, timeout as int),
                ),
    {
        let now = now_unix_nanos();
        self.cleanup_stale_agents_at(now, timeout)
    }
}

impl Default for Hub {
    /// An empty hub, as [`Hub::new`].
    fn default() -> (hub: Hub)
        ensures
            hub.wf(),
            hub@.tasks == Seq::<TaskView>::empty(),
            hub@.agents == Seq::<AgentView>::empty(),
    {
        Hub::new()
    }
}

} // verus!
