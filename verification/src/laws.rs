//! Properties of the hub that relate its operations to one another.

use vstd::prelude::*;

use crate::agent::{is_stale, serves, AgentView};
use crate::agent_registry::{
    agent_ids_distinct, agent_index, first_server, has_agent, has_server, is_first_server,
    lemma_agent_index, live_agents, lookup_agent, record_poll, remove_agent, stale_agents,
    upsert_agent,
};
use crate::cli::{
    tool_catalogue_spec, tool_named, tool_request_spec, McpTool, ToolArguments, ToolRefusal,
    ToolRequest,
};
use crate::hub::{assignee, reported_task};
use crate::server::reported_error_view;
use crate::task::{TaskErrorView, TaskStatus, TaskView};
use crate::task_store::{
    accepted_for, awaits_agent, has_task, lemma_task_index, lookup_task, task_ids_distinct,
    task_index, upsert_task,
};

verus! {

/// A stored task is what a later lookup of its identifier gives back, and storing it leaves
/// every other identifier's task as it was.
pub proof fn law_task_read_after_write(tasks: Seq<TaskView>, task: TaskView, other: Seq<char>)
    requires
        task_ids_distinct(tasks),
    ensures
        lookup_task(upsert_task(tasks, task), task.task_id) == Some(task),
        other != task.task_id ==> lookup_task(upsert_task(tasks, task), other) == lookup_task(
            tasks,
            other,
        ),
{
    crate::task_store::lemma_upsert_task_distinct(tasks, task);
    let s = upsert_task(tasks, task);
    let k = if has_task(tasks, task.task_id) {
        task_index(tasks, task.task_id)
    } else {
        tasks.len() as int
    };
    assert(s[k] == task);
    lemma_task_index(s, k);
    if other != task.task_id {
        if has_task(tasks, other) {
            let j = task_index(tasks, other);
            assert(s[j] == tasks[j]);
            lemma_task_index(s, j);
        } else {
            assert forall|i: int| 0 <= i < s.len() implies s[i].task_id != other by {
                if i != k {
                    assert(s[i] == tasks[i]);
                }
            }
        }
    }
}

/// Storing a task under a new identifier adds exactly one task; storing it under an
/// identifier already in use keeps the number of tasks.
pub proof fn law_task_count(tasks: Seq<TaskView>, task: TaskView)
    ensures
        has_task(tasks, task.task_id) ==> upsert_task(tasks, task).len() == tasks.len(),
        !has_task(tasks, task.task_id) ==> upsert_task(tasks, task).len() == tasks.len() + 1,
{
}

/// A registered agent is what a later lookup of its identifier gives back; once removed, a
/// lookup of its identifier finds nothing; other identifiers are not affected by either.
pub proof fn law_agent_read_after_write(
    agents: Seq<AgentView>,
    agent: AgentView,
    id: Seq<char>,
    other: Seq<char>,
)
    requires
        agent_ids_distinct(agents),
    ensures
        lookup_agent(upsert_agent(agents, agent), agent.agent_id) == Some(agent),
        lookup_agent(remove_agent(agents, id), id) is None,
        other != agent.agent_id ==> lookup_agent(upsert_agent(agents, agent), other)
            == lookup_agent(agents, other),
        other != id ==> lookup_agent(remove_agent(agents, id), other) == lookup_agent(
            agents,
            other,
        ),
{
    crate::agent_registry::lemma_upsert_agent_distinct(agents, agent);
    crate::agent_registry::lemma_remove_agent_distinct(agents, id);
    let s = upsert_agent(agents, agent);
    let k = if has_agent(agents, agent.agent_id) {
        agent_index(agents, agent.agent_id)
    } else {
        agents.len() as int
    };
    assert(s[k] == agent);
    lemma_agent_index(s, k);
    if other != agent.agent_id {
        if has_agent(agents, other) {
            let j = agent_index(agents, other);
            assert(s[j] == agents[j]);
            lemma_agent_index(s, j);
        } else {
            assert forall|i: int| 0 <= i < s.len() implies s[i].agent_id != other by {
                if i != k {
                    assert(s[i] == agents[i]);
                }
            }
        }
    }
    let r = remove_agent(agents, id);
    if has_agent(agents, id) {
        let m = agent_index(agents, id);
        assert forall|i: int| 0 <= i < r.len() implies r[i].agent_id != id by {
            let i0 = if i < m { i } else { i + 1 };
            assert(r[i] == agents[i0]);
        }
        if other != id && has_agent(agents, other) {
            let j = agent_index(agents, other);
            let j1 = if j < m { j } else { j - 1 };
            assert(r[j1] == agents[j]);
            lemma_agent_index(r, j1);
        } else if other != id {
            assert forall|i: int| 0 <= i < r.len() implies r[i].agent_id != other by {
                let i0 = if i < m { i } else { i + 1 };
                assert(r[i] == agents[i0]);
            }
        }
    }
}

/// Routing: a task for a named agent goes to that agent exactly when an agent with that
/// identifier is registered. A task without a name goes to an agent exactly when some
/// registered agent lists the intent verbatim among its capabilities, and then to the first
/// such agent in registry order.
pub proof fn law_routing(agents: Seq<AgentView>, agent_id: Option<Seq<char>>, intent: Seq<char>)
    ensures
        agent_id matches Some(id) ==> {
            &&& (assignee(agents, agent_id, intent) is Some <==> exists|i: int|
                0 <= i < agents.len() && (#[trigger] agents[i]).agent_id == id)
            &&& assignee(agents, agent_id, intent) is Some ==> assignee(agents, agent_id, intent)->0
                == id
        },
        agent_id is None ==> {
            &&& (assignee(agents, agent_id, intent) is Some <==> exists|i: int|
                0 <= i < agents.len() && (#[trigger] agents[i]).capabilities.contains(intent))
            &&& assignee(agents, agent_id, intent) is Some ==> exists|i: int|
                0 <= i < agents.len() && (#[trigger] agents[i]).agent_id == assignee(
                    agents,
                    agent_id,
                    intent,
                )->0 && agents[i].capabilities.contains(intent) && forall|j: int|
                    0 <= j < i ==> !(#[trigger] agents[j]).capabilities.contains(intent)
        },
{
    if agent_id is None {
        if has_server(agents, intent) {
            let w = choose|i: int| 0 <= i < agents.len() && serves(#[trigger] agents[i], intent);
            lemma_least_server(agents, intent, w);
            let i = first_server(agents, intent);
            assert(is_first_server(agents, intent, i));
            assert(agents[i].agent_id == assignee(agents, agent_id, intent)->0);
            assert forall|j: int| 0 <= j < i implies !(#[trigger] agents[j]).capabilities.contains(
                intent,
            ) by {
                assert(!serves(agents[j], intent));
            }
        } else {
            assert forall|i: int| 0 <= i < agents.len() implies !(
            #[trigger] agents[i]).capabilities.contains(intent) by {
                assert(!serves(agents[i], intent));
            }
        }
    }
}

/// If some agent at or before position `w` serves `intent`, a first such agent exists.
proof fn lemma_least_server(agents: Seq<AgentView>, intent: Seq<char>, w: int)
    requires
        0 <= w < agents.len(),
        serves(agents[w], intent),
    ensures
        exists|i: int| is_first_server(agents, intent, i),
    decreases w,
{
    if exists|j: int| 0 <= j < w && serves(#[trigger] agents[j], intent) {
        let j = choose|j: int| 0 <= j < w && serves(#[trigger] agents[j], intent);
        lemma_least_server(agents, intent, j);
    } else {
        assert(is_first_server(agents, intent, w));
    }
}

/// The tasks an agent receives when it polls are exactly the accepted tasks assigned to that
/// very agent: each one handed out is in the store, is accepted and carries exactly the
/// polling agent's identifier, and each such task in the store is handed out.
pub proof fn law_poll_hands_out_exactly_accepted(tasks: Seq<TaskView>, agent_id: Seq<char>)
    ensures
        forall|i: int|
            0 <= i < accepted_for(tasks, agent_id).len() ==> {
                &&& (#[trigger] accepted_for(tasks, agent_id)[i]).agent_id == agent_id
                &&& accepted_for(tasks, agent_id)[i].status == TaskStatus::Accepted
                &&& tasks.contains(accepted_for(tasks, agent_id)[i])
            },
        forall|i: int|
            0 <= i < tasks.len() && (#[trigger] tasks[i]).agent_id == agent_id && tasks[i].status
                == TaskStatus::Accepted ==> accepted_for(tasks, agent_id).contains(tasks[i]),
{
    let pred = |t: TaskView| awaits_agent(t, agent_id);
    tasks.filter_lemma(pred);
    assert forall|i: int|
        0 <= i < accepted_for(tasks, agent_id).len() implies tasks.contains(
        #[trigger] accepted_for(tasks, agent_id)[i],
    ) by {
        tasks.lemma_filter_contains_rev(pred, accepted_for(tasks, agent_id)[i]);
    }
    assert forall|i: int|
        0 <= i < tasks.len() && (#[trigger] tasks[i]).agent_id == agent_id && tasks[i].status
            == TaskStatus::Accepted implies accepted_for(tasks, agent_id).contains(tasks[i]) by {
        tasks.lemma_filter_contains(pred, i);
    }
}

/// A task newly created for an agent is handed to that agent at its next poll, after the
/// accepted tasks it already had.
pub proof fn law_created_task_reaches_its_agent(tasks: Seq<TaskView>, task: TaskView)
    requires
        !has_task(tasks, task.task_id),
        task.status == TaskStatus::Accepted,
    ensures
        accepted_for(upsert_task(tasks, task), task.agent_id) == accepted_for(
            tasks,
            task.agent_id,
        ).push(task),
{
    reveal_with_fuel(Seq::<_>::filter, 1);
    let s = tasks.push(task);
    assert(s.drop_last() =~= tasks);
}

/// A poll changes only the polling agent's poll time: every agent keeps its identifier,
/// name, capabilities and endpoint, and every other agent is untouched.
pub proof fn law_poll_touches_only_the_poller(agents: Seq<AgentView>, id: Seq<char>, now: int)
    requires
        agent_ids_distinct(agents),
        has_agent(agents, id),
    ensures
        record_poll(agents, id, now).len() == agents.len(),
        lookup_agent(record_poll(agents, id, now), id) == Some(
            AgentView { last_poll: Some(now), ..lookup_agent(agents, id)->0 },
        ),
        forall|i: int|
            0 <= i < agents.len() && agents[i].agent_id != id ==> #[trigger] record_poll(
                agents,
                id,
                now,
            )[i] == agents[i],
{
    let k = agent_index(agents, id);
    let s = record_poll(agents, id, now);
    assert forall|x: int, y: int|
        0 <= x < s.len() && 0 <= y < s.len() && x != y implies s[x].agent_id != s[y].agent_id by {
        assert(s[x].agent_id == agents[x].agent_id);
        assert(s[y].agent_id == agents[y].agent_id);
    }
    lemma_agent_index(s, k);
}

/// Cleanup splits the registry in two: the agents that remain are exactly the agents that
/// are not stale and the agents removed are exactly the stale ones, so no agent is lost
/// or kept twice; an agent that has never polled is always removed.
pub proof fn law_cleanup_partitions(agents: Seq<AgentView>, now: int, timeout: int)
    ensures
        live_agents(agents, now, timeout).len() + stale_agents(agents, now, timeout).len()
            == agents.len(),
        forall|i: int|
            0 <= i < live_agents(agents, now, timeout).len() ==> !is_stale(
                #[trigger] live_agents(agents, now, timeout)[i],
                now,
                timeout,
            ),
        forall|i: int|
            0 <= i < stale_agents(agents, now, timeout).len() ==> is_stale(
                #[trigger] stale_agents(agents, now, timeout)[i],
                now,
                timeout,
            ),
        forall|i: int|
            0 <= i < agents.len() && (#[trigger] agents[i]).last_poll is None ==> stale_agents(
                agents,
                now,
                timeout,
            ).contains(agents[i]) && !live_agents(agents, now, timeout).contains(agents[i]),
    decreases agents.len(),
{
    let sp = |a: AgentView| is_stale(a, now, timeout);
    let lp = |a: AgentView| !is_stale(a, now, timeout);
    agents.filter_lemma(sp);
    agents.filter_lemma(lp);
    reveal_with_fuel(Seq::<_>::filter, 1);
    if agents.len() > 0 {
        law_cleanup_partitions(agents.drop_last(), now, timeout);
    }
    assert forall|i: int|
        0 <= i < agents.len() && (#[trigger] agents[i]).last_poll is None implies stale_agents(
        agents,
        now,
        timeout,
    ).contains(agents[i]) && !live_agents(agents, now, timeout).contains(agents[i]) by {
        agents.lemma_filter_contains(sp, i);
        if live_agents(agents, now, timeout).contains(agents[i]) {
            let j = choose|j: int|
                0 <= j < live_agents(agents, now, timeout).len() && live_agents(
                    agents,
                    now,
                    timeout,
                )[j] == agents[i];
            assert(lp(live_agents(agents, now, timeout)[j]));
        }
    }
}

/// A task that is stored again with a status other than accepted (completed, failed, running
/// or cancelled) is no longer handed out by any agent's poll.
pub proof fn law_settled_task_leaves_the_queue(
    tasks: Seq<TaskView>,
    task: TaskView,
    agent_id: Seq<char>,
)
    requires
        task_ids_distinct(tasks),
        has_task(tasks, task.task_id),
        task.status != TaskStatus::Accepted,
    ensures
        forall|i: int|
            0 <= i < accepted_for(upsert_task(tasks, task), agent_id).len() ==> (#[trigger] accepted_for(
                upsert_task(tasks, task),
                agent_id,
            )[i]).task_id != task.task_id,
{
    let s = upsert_task(tasks, task);
    let k = task_index(tasks, task.task_id);
    let pred = |t: TaskView| awaits_agent(t, agent_id);
    s.filter_lemma(pred);
    assert forall|i: int|
        0 <= i < accepted_for(s, agent_id).len() implies (#[trigger] accepted_for(
        s,
        agent_id,
    )[i]).task_id != task.task_id by {
        let x = accepted_for(s, agent_id)[i];
        s.lemma_filter_contains_rev(pred, x);
        let m = choose|m: int| 0 <= m < s.len() && s[m] == x;
        if m != k {
            assert(s[m] == tasks[m]);
        }
    }
}

/// Every tool the MCP server announces is one that it answers: the catalogue lists the
/// create, get, cancel and list tools, in that order, under the names the dispatch accepts.
pub proof fn law_catalogue_matches_dispatch()
    ensures
        tool_catalogue_spec().len() == 4,
        tool_named(tool_catalogue_spec()[0].name) == Some(McpTool::CreateTask),
        tool_named(tool_catalogue_spec()[1].name) == Some(McpTool::GetTask),
        tool_named(tool_catalogue_spec()[2].name) == Some(McpTool::CancelTask),
        tool_named(tool_catalogue_spec()[3].name) == Some(McpTool::ListAgents),
{
    reveal_strlit("create_task");
    reveal_strlit("get_task");
    reveal_strlit("cancel_task");
    reveal_strlit("list_agents");
    assert("get_task"@ != "create_task"@) by {
        assert("get_task"@[0] != "create_task"@[0]);
    }
    assert("cancel_task"@ != "create_task"@) by {
        assert("cancel_task"@[1] != "create_task"@[1]);
    }
    assert("cancel_task"@ != "get_task"@) by {
        assert("cancel_task"@[0] != "get_task"@[0]);
    }
    assert("list_agents"@ != "create_task"@) by {
        assert("list_agents"@[0] != "create_task"@[0]);
    }
    assert("list_agents"@ != "get_task"@) by {
        assert("list_agents"@[0] != "get_task"@[0]);
    }
    assert("list_agents"@ != "cancel_task"@) by {
        assert("list_agents"@[0] != "cancel_task"@[0]);
    }
}

/// An agent's report settles a task by what it carries, whatever the task's status was: a
/// result alone completes it, an error alone fails it, and a report with both or with neither
/// leaves the status as it was. The result and error are stored as given, the time of the
/// report becomes the update time, and nothing else about the task changes.
pub proof fn law_report_settles_by_what_it_carries(
    task: TaskView,
    result: Option<serde_json::Value>,
    error: Option<TaskErrorView>,
    now: int,
)
    ensures
        result is Some && error is None ==> reported_task(task, result, error, now).status
            == TaskStatus::Completed,
        result is None && error is Some ==> reported_task(task, result, error, now).status
            == TaskStatus::Failed,
        (result is Some) == (error is Some) ==> reported_task(task, result, error, now).status
            == task.status,
        reported_task(task, result, error, now).result == result,
        reported_task(task, result, error, now).error == error,
        reported_task(task, result, error, now).updated_at == now,
        reported_task(task, result, error, now).task_id == task.task_id,
        reported_task(task, result, error, now).intent == task.intent,
        reported_task(task, result, error, now).input == task.input,
        reported_task(task, result, error, now).agent_id == task.agent_id,
        reported_task(task, result, error, now).created_at == task.created_at,
{
}

/// A report over HTTP carries an error exactly when it gives both an error code and an error
/// message, and then the error holds that code and that message. So a report that gives only
/// one of the two, and no result, leaves the task's status as it was.
pub proof fn law_report_error_needs_code_and_message(
    code: Option<String>,
    message: Option<String>,
    task: TaskView,
    now: int,
)
    ensures
        reported_error_view(code, message) is Some <==> (code is Some && message is Some),
        reported_error_view(code, message) matches Some(e) ==> e.code == code->0@ && e.message
            == message->0@,
        (code is None || message is None) ==> reported_task(
            task,
            None,
            reported_error_view(code, message),
            now,
        ).status == task.status,
{
}

/// Each tool call asks for what its tool is named after. `get_task` with an identifier reads
/// that task and `cancel_task` with an identifier cancels that task; without one both are
/// refused. `create_task` with an intent and an input creates a task from them and the
/// optional agent; without the intent, or then without the input, it is refused.
/// `list_agents` lists agents. Each kind of request comes only from the tool of that name, and
/// any other name is refused as unknown.
pub proof fn law_tool_calls_do_what_they_are_named(name: Seq<char>, args: ToolArguments)
    ensures
        args.task_id matches Some(t) ==> tool_request_spec("get_task"@, args) == Ok::<
            ToolRequest,
            ToolRefusal,
        >(ToolRequest::GetTask { task_id: t }),
        args.task_id matches Some(t) ==> tool_request_spec("cancel_task"@, args) == Ok::<
            ToolRequest,
            ToolRefusal,
        >(ToolRequest::CancelTask { task_id: t }),
        args.task_id is None ==> tool_request_spec("get_task"@, args) == Err::<
            ToolRequest,
            ToolRefusal,
        >(ToolRefusal::MissingTaskId),
        args.task_id is None ==> tool_request_spec("cancel_task"@, args) == Err::<
            ToolRequest,
            ToolRefusal,
        >(ToolRefusal::MissingTaskId),
        args.intent is Some && args.input is Some ==> tool_request_spec("create_task"@, args)
            == Ok::<ToolRequest, ToolRefusal>(
            ToolRequest::CreateTask {
                intent: args.intent->0,
                input: args.input->0,
                agent_id: args.agent_id,
            },
        ),
        args.intent is None ==> tool_request_spec("create_task"@, args) == Err::<
            ToolRequest,
            ToolRefusal,
        >(ToolRefusal::MissingIntent),
        args.intent is Some && args.input is None ==> tool_request_spec("create_task"@, args)
            == Err::<ToolRequest, ToolRefusal>(ToolRefusal::MissingInput),
        tool_request_spec("list_agents"@, args) == Ok::<ToolRequest, ToolRefusal>(
            ToolRequest::ListAgents,
        ),
        tool_request_spec(name, args) matches Ok(ToolRequest::GetTask { .. }) ==> name
            == "get_task"@,
        tool_request_spec(name, args) matches Ok(ToolRequest::CancelTask { .. }) ==> name
            == "cancel_task"@,
        tool_request_spec(name, args) matches Ok(ToolRequest::CreateTask { .. }) ==> name
            == "create_task"@,
        tool_request_spec(name, args) matches Ok(ToolRequest::ListAgents) ==> name
            == "list_agents"@,
        name != "create_task"@ && name != "get_task"@ && name != "cancel_task"@ && name
            != "list_agents"@ ==> tool_request_spec(name, args) == Err::<ToolRequest, ToolRefusal>(
            ToolRefusal::UnknownTool,
        ),
{
    reveal_strlit("create_task");
    reveal_strlit("get_task");
    reveal_strlit("cancel_task");
    reveal_strlit("list_agents");
    assert("get_task"@ != "create_task"@) by {
        assert("get_task"@[0] != "create_task"@[0]);
    }
    assert("cancel_task"@ != "create_task"@) by {
        assert("cancel_task"@[1] != "create_task"@[1]);
    }
    assert("cancel_task"@ != "get_task"@) by {
        assert("cancel_task"@[0] != "get_task"@[0]);
    }
    assert("list_agents"@ != "create_task"@) by {
        assert("list_agents"@[0] != "create_task"@[0]);
    }
    assert("list_agents"@ != "get_task"@) by {
        assert("list_agents"@[0] != "get_task"@[0]);
    }
    assert("list_agents"@ != "cancel_task"@) by {
        assert("list_agents"@[0] != "cancel_task"@[0]);
    }
}

} // verus!
