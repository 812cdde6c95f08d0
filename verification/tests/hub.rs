use hub_core::{Agent, Hub, HubError, TaskError, TaskStatus};

fn json(text: &str) -> serde_json::Value {
    serde_json::from_str(text).unwrap()
}

fn agent(id: &str, name: &str, caps: &[&str], last_poll: Option<i128>) -> Agent {
    Agent {
        agent_id: id.to_string(),
        display_name: name.to_string(),
        capabilities: caps.iter().map(|c| c.to_string()).collect(),
        endpoint: "http://localhost:8000".to_string(),
        last_poll,
    }
}

fn now_nanos() -> i128 {
    time::OffsetDateTime::now_utc().unix_timestamp_nanos()
}

#[test]
fn test_hub_new() {
    let hub = Hub::new();
    assert_eq!(hub.list_agents().len(), 0);
    assert_eq!(hub.list_tasks().len(), 0);
}

#[test]
fn test_register_agent() {
    let mut hub = Hub::new();
    hub.register_agent(agent("test-agent", "Test Agent", &["test.capability"], None));
    let agents = hub.list_agents();
    assert_eq!(agents.len(), 1);
    assert_eq!(agents[0].agent_id, "test-agent");
}

#[test]
fn test_unregister_agent() {
    let mut hub = Hub::new();
    hub.register_agent(agent("test-agent", "Test Agent", &["test.capability"], None));
    assert_eq!(hub.list_agents().len(), 1);

    let removed = hub.unregister_agent("test-agent");
    assert!(removed.is_some());
    assert_eq!(removed.unwrap().agent_id, "test-agent");
    assert_eq!(hub.list_agents().len(), 0);

    let removed_again = hub.unregister_agent("test-agent");
    assert!(removed_again.is_none());
}

#[test]
fn test_create_task_with_agent_id() {
    let mut hub = Hub::new();
    hub.register_agent(agent(
        "test-agent",
        "Test Agent",
        &["test.capability", "test.intent"],
        None,
    ));

    let task = hub
        .create_task(
            "test.intent".to_string(),
            json(r#"{"key": "value"}"#),
            Some("test-agent".to_string()),
        )
        .unwrap();

    assert_eq!(task.intent, "test.intent");
    assert_eq!(task.agent_id, "test-agent");
    assert_eq!(task.status, TaskStatus::Accepted);
}

#[test]
fn test_create_task_auto_select_agent() {
    let mut hub = Hub::new();
    hub.register_agent(agent("test-agent", "Test Agent", &["test.capability"], None));

    let task = hub
        .create_task("test.capability".to_string(), json(r#"{"key": "value"}"#), None)
        .unwrap();

    assert_eq!(task.agent_id, "test-agent");
}

#[test]
fn test_create_task_agent_not_found() {
    let mut hub = Hub::new();
    let result = hub.create_task(
        "test.intent".to_string(),
        json(r#"{"key": "value"}"#),
        Some("non-existent".to_string()),
    );

    assert!(result.is_err());
}

#[test]
fn test_get_task() {
    let mut hub = Hub::new();
    hub.register_agent(agent(
        "test-agent",
        "Test Agent",
        &["test.capability", "test.intent"],
        None,
    ));

    let task = hub
        .create_task("test.intent".to_string(), json(r#"{"key": "value"}"#), None)
        .unwrap();

    let retrieved = hub.get_task(&task.task_id);
    assert!(retrieved.is_some());
    assert_eq!(retrieved.unwrap().task_id, task.task_id);

    let not_found = hub.get_task("non-existent");
    assert!(not_found.is_none());
}

#[test]
fn test_update_task_result() {
    let mut hub = Hub::new();
    hub.register_agent(agent(
        "test-agent",
        "Test Agent",
        &["test.capability", "test.intent"],
        None,
    ));

    let task = hub
        .create_task("test.intent".to_string(), json(r#"{"key": "value"}"#), None)
        .unwrap();

    // Update with result
    let updated = hub
        .update_task_result(&task.task_id, Some(json(r#"{"result": "success"}"#)), None)
        .unwrap();

    assert_eq!(updated.status, TaskStatus::Completed);
    assert_eq!(updated.result, Some(json(r#"{"result": "success"}"#)));

    // Update with error
    let error = TaskError {
        code: "test.error".to_string(),
        message: "Test error message".to_string(),
    };

    let task2 = hub
        .create_task("test.capability".to_string(), json("{}"), None)
        .unwrap();

    let updated = hub.update_task_result(&task2.task_id, None, Some(error)).unwrap();

    assert_eq!(updated.status, TaskStatus::Failed);
    assert!(updated.error.is_some());
}

#[test]
fn test_cancel_task() {
    let mut hub = Hub::new();
    hub.register_agent(agent(
        "test-agent",
        "Test Agent",
        &["test.capability", "test.intent"],
        None,
    ));

    let task = hub
        .create_task("test.intent".to_string(), json("{}"), None)
        .unwrap();

    let cancelled = hub.cancel_task(&task.task_id).unwrap();
    assert_eq!(cancelled.status, TaskStatus::Cancelled);

    let retrieved = hub.get_task(&task.task_id).unwrap();
    assert_eq!(retrieved.status, TaskStatus::Cancelled);
}

#[test]
fn test_execute_task() {
    let mut hub = Hub::new();
    hub.register_agent(agent(
        "test-agent",
        "Test Agent",
        &["test.capability", "test.intent"],
        None,
    ));

    let task = hub
        .create_task("test.intent".to_string(), json("{}"), None)
        .unwrap();

    let executed = hub.execute_task(&task.task_id).unwrap();
    assert_eq!(executed.status, TaskStatus::Running);
}

#[test]
fn test_list_tasks() {
    let mut hub = Hub::new();
    hub.register_agent(agent(
        "test-agent",
        "Test Agent",
        &["test.capability", "test.intent1", "test.intent2"],
        None,
    ));

    hub.create_task("test.intent1".to_string(), json("{}"), None).unwrap();
    hub.create_task("test.intent2".to_string(), json("{}"), None).unwrap();

    let tasks = hub.list_tasks();
    assert_eq!(tasks.len(), 2);
}

#[test]
fn test_poll_tasks_empty() {
    let mut hub = Hub::new();
    hub.register_agent(agent("test-agent", "Test Agent", &["test.intent"], None));

    // Poll with no tasks
    let tasks = hub.poll_tasks("test-agent").unwrap();
    assert_eq!(tasks.len(), 0);

    // last_poll should be updated
    let agents = hub.list_agents();
    assert!(agents[0].last_poll.is_some());
}

#[test]
fn test_poll_tasks_with_pending() {
    let mut hub = Hub::new();
    hub.register_agent(agent("test-agent", "Test Agent", &["test.intent"], None));

    hub.create_task("test.intent".to_string(), json(r#"{"data": "test1"}"#), None)
        .unwrap();
    hub.create_task("test.intent".to_string(), json(r#"{"data": "test2"}"#), None)
        .unwrap();

    let tasks = hub.poll_tasks("test-agent").unwrap();
    assert_eq!(tasks.len(), 2);
    assert_eq!(tasks[0].status, TaskStatus::Accepted);
    assert_eq!(tasks[1].status, TaskStatus::Accepted);
}

#[test]
fn test_poll_tasks_only_returns_accepted() {
    let mut hub = Hub::new();
    hub.register_agent(agent("test-agent", "Test Agent", &["test.intent"], None));

    let task1 = hub.create_task("test.intent".to_string(), json("{}"), None).unwrap();
    hub.update_task_result(&task1.task_id, Some(json(r#"{"done": true}"#)), None)
        .unwrap();

    hub.create_task("test.intent".to_string(), json("{}"), None).unwrap();

    let tasks = hub.poll_tasks("test-agent").unwrap();
    assert_eq!(tasks.len(), 1);
    assert_eq!(tasks[0].status, TaskStatus::Accepted);
}

#[test]
fn test_cleanup_stale_agents() {
    let mut hub = Hub::new();
    let now = time::OffsetDateTime::now_utc();
    let long_ago = now - time::Duration::seconds(400);

    hub.register_agent(agent(
        "active-agent",
        "Active Agent",
        &["test.intent"],
        Some(now.unix_timestamp_nanos()),
    ));
    hub.register_agent(agent(
        "stale-agent",
        "Stale Agent",
        &["test.intent"],
        Some(long_ago.unix_timestamp_nanos()),
    ));

    // Cleanup agents that haven't polled in 5 minutes
    let timeout = time::Duration::seconds(300).whole_nanoseconds();
    let stale_agents = hub.cleanup_stale_agents(timeout);

    assert_eq!(stale_agents.len(), 1);
    assert_eq!(stale_agents[0], "stale-agent");

    let agents = hub.list_agents();
    assert_eq!(agents.len(), 1);
    assert_eq!(agents[0].agent_id, "active-agent");
}

#[test]
fn lib_test_poll_nonexistent_agent() {
    let mut hub = Hub::new();
    let result = hub.poll_tasks("nonexistent");
    assert!(result.is_err());
}

// Further cases of the library's own.

#[test]
fn create_task_without_any_agent_names_the_intent() {
    let mut hub = Hub::new();
    let result = hub.create_task("unknown.intent".to_string(), json("{}"), None);
    let err = result.unwrap_err();
    assert_eq!(err, HubError::NoAgentForIntent("unknown.intent".to_string()));
    assert_eq!(err.message(), "No agent found for intent: unknown.intent");
    assert_eq!(hub.list_tasks().len(), 0);
}

#[test]
fn create_task_with_unknown_agent_names_the_agent() {
    let mut hub = Hub::new();
    hub.register_agent(agent("a", "A", &["x"], None));
    let err = hub
        .create_task("x".to_string(), json("{}"), Some("b".to_string()))
        .unwrap_err();
    assert_eq!(err, HubError::AgentNotFound("b".to_string()));
    assert_eq!(err.message(), "Agent not found: b");
}

#[test]
fn create_task_with_named_agent_ignores_capabilities() {
    let mut hub = Hub::new();
    hub.register_agent(agent("my-agent", "My Agent", &["other.capability"], None));
    let task = hub
        .create_task("any.intent".to_string(), json("{}"), Some("my-agent".to_string()))
        .unwrap();
    assert_eq!(task.agent_id, "my-agent");
}

#[test]
fn routing_by_intent_takes_the_first_registered_server() {
    let mut hub = Hub::new();
    hub.register_agent(agent("first", "F", &["other"], None));
    hub.register_agent(agent("second", "S", &["x", "y"], None));
    hub.register_agent(agent("third", "T", &["y"], None));
    let task = hub.create_task("y".to_string(), json("{}"), None).unwrap();
    assert_eq!(task.agent_id, "second");
}

#[test]
fn created_task_is_stored_as_returned() {
    let mut hub = Hub::new();
    hub.register_agent(agent("a", "A", &["x"], None));
    let before = now_nanos();
    let task = hub.create_task("x".to_string(), json(r#"{"k": 1}"#), None).unwrap();
    let after = now_nanos();
    assert_eq!(task.task_id.chars().count(), 36);
    assert_eq!(task.input, json(r#"{"k": 1}"#));
    assert_eq!(task.result, None);
    assert!(task.error.is_none());
    assert_eq!(task.created_at, task.updated_at);
    assert!(before <= task.created_at && task.created_at <= after);
    let stored = hub.get_task(&task.task_id).unwrap();
    assert_eq!(stored.task_id, task.task_id);
    assert_eq!(stored.status, TaskStatus::Accepted);
    assert_eq!(stored.input, task.input);
}

#[test]
fn create_task_at_uses_the_given_id_and_time() {
    let mut hub = Hub::new();
    hub.register_agent(agent("a", "A", &["x"], None));
    let task = hub
        .create_task_at("t-1".to_string(), 42, "x".to_string(), json("{}"), None)
        .unwrap();
    assert_eq!(task.task_id, "t-1");
    assert_eq!(task.created_at, 42);
    assert_eq!(task.updated_at, 42);
    assert_eq!(task.status, TaskStatus::Accepted);
    // The same identifier again replaces the stored task in place.
    let again = hub
        .create_task_at("t-1".to_string(), 50, "x".to_string(), json("[1]"), None)
        .unwrap();
    assert_eq!(again.created_at, 50);
    let tasks = hub.list_tasks();
    assert_eq!(tasks.len(), 1);
    assert_eq!(tasks[0].input, json("[1]"));
}

#[test]
fn report_with_both_result_and_error_keeps_status() {
    let mut hub = Hub::new();
    hub.register_agent(agent("a", "A", &["x"], None));
    hub.create_task_at("t".to_string(), 1, "x".to_string(), json("{}"), None)
        .unwrap();
    let err = TaskError { code: "c".to_string(), message: "m".to_string() };
    let t = hub
        .update_task_result_at("t", Some(json("1")), Some(err), 7)
        .unwrap();
    assert_eq!(t.status, TaskStatus::Accepted);
    assert_eq!(t.result, Some(json("1")));
    assert_eq!(t.error.as_ref().unwrap().code, "c");
    assert_eq!(t.updated_at, 7);
    assert_eq!(t.created_at, 1);
    let t = hub.update_task_result_at("t", None, None, 9).unwrap();
    assert_eq!(t.status, TaskStatus::Accepted);
    assert_eq!(t.result, None);
    assert!(t.error.is_none());
}

#[test]
fn operations_on_missing_task_are_refused() {
    let mut hub = Hub::new();
    let missing = HubError::TaskNotFound("nope".to_string());
    assert_eq!(hub.update_task_result("nope", None, None).unwrap_err(), missing);
    assert_eq!(hub.execute_task("nope").unwrap_err(), missing);
    assert_eq!(hub.cancel_task("nope").unwrap_err(), missing);
    assert_eq!(missing.message(), "Task not found: nope");
}

#[test]
fn execute_and_cancel_set_time() {
    let mut hub = Hub::new();
    hub.register_agent(agent("a", "A", &["x"], None));
    hub.create_task_at("t".to_string(), 1, "x".to_string(), json("{}"), None)
        .unwrap();
    let t = hub.execute_task_at("t", 5).unwrap();
    assert_eq!((t.status, t.updated_at, t.created_at), (TaskStatus::Running, 5, 1));
    let t = hub.cancel_task_at("t", 6).unwrap();
    assert_eq!((t.status, t.updated_at), (TaskStatus::Cancelled, 6));
}

#[test]
fn created_task_reaches_its_agent_at_next_poll() {
    let mut hub = Hub::new();
    hub.register_agent(agent("a", "A", &["x"], None));
    hub.register_agent(agent("b", "B", &["y"], None));
    hub.create_task_at("t1".to_string(), 1, "x".to_string(), json("{}"), None)
        .unwrap();
    hub.create_task_at("t2".to_string(), 2, "y".to_string(), json("{}"), None)
        .unwrap();
    hub.create_task_at("t3".to_string(), 3, "x".to_string(), json("{}"), None)
        .unwrap();
    let polled = hub.poll_tasks_at("a", 10).unwrap();
    let ids: Vec<&str> = polled.iter().map(|t| t.task_id.as_str()).collect();
    assert_eq!(ids, vec!["t1", "t3"]);
    let agents = hub.list_agents();
    assert_eq!(agents[0].last_poll, Some(10));
    assert_eq!(agents[1].last_poll, None);
}

#[test]
fn register_replaces_same_id_in_place() {
    let mut hub = Hub::new();
    hub.register_agent(agent("a", "First", &["x"], None));
    hub.register_agent(agent("b", "B", &["x"], None));
    hub.register_agent(agent("a", "Second", &["z"], None));
    let agents = hub.list_agents();
    assert_eq!(agents.len(), 2);
    assert_eq!(agents[0].display_name, "Second");
    assert_eq!(agents[1].agent_id, "b");
}

#[test]
fn cleanup_removes_never_polled_agents_and_boundary() {
    let mut hub = Hub::new();
    hub.register_agent(agent("never", "N", &[], None));
    hub.register_agent(agent("exact", "E", &[], Some(700)));
    hub.register_agent(agent("over", "O", &[], Some(699)));
    hub.register_agent(agent("future", "F", &[], Some(2000)));
    let removed = hub.cleanup_stale_agents_at(1000, 300);
    assert_eq!(removed, vec!["never".to_string(), "over".to_string()]);
    let left: Vec<String> = hub.list_agents().into_iter().map(|a| a.agent_id).collect();
    assert_eq!(left, vec!["exact".to_string(), "future".to_string()]);
}

#[test]
fn staleness_is_exact_at_the_extremes_of_i128() {
    let far_past = agent("p", "P", &[], Some(i128::MIN));
    let far_future = agent("f", "F", &[], Some(i128::MAX));
    assert!(far_past.is_stale_at(i128::MAX, i128::MAX - 1));
    assert!(!far_future.is_stale_at(i128::MIN, i128::MIN));
    assert!(far_past.is_stale_at(i128::MAX, i128::MAX));
    let recent = agent("r", "R", &[], Some(0));
    assert!(!recent.is_stale_at(10, 10));
    assert!(recent.is_stale_at(11, 10));
}

#[test]
fn settled_tasks_leave_the_poll_queue() {
    let mut hub = Hub::new();
    hub.register_agent(agent("a", "A", &["x"], None));
    for id in ["t1", "t2", "t3", "t4"] {
        hub.create_task_at(id.to_string(), 1, "x".to_string(), json("{}"), None)
            .unwrap();
    }
    hub.cancel_task_at("t1", 2).unwrap();
    hub.execute_task_at("t2", 2).unwrap();
    let err = TaskError { code: "c".to_string(), message: "m".to_string() };
    hub.update_task_result_at("t3", None, Some(err), 2).unwrap();
    let polled = hub.poll_tasks_at("a", 3).unwrap();
    let ids: Vec<&str> = polled.iter().map(|t| t.task_id.as_str()).collect();
    assert_eq!(ids, vec!["t4"]);
    assert_eq!(hub.list_tasks().len(), 4);
}

#[test]
fn task_ids_are_hyphenated_lowercase_v4_uuids() {
    let mut hub = Hub::new();
    hub.register_agent(agent("a", "A", &["x"], None));
    for _ in 0..20 {
        let id: Vec<char> = hub
            .create_task("x".to_string(), json("{}"), None)
            .unwrap()
            .task_id
            .chars()
            .collect();
        assert_eq!(id.len(), 36);
        for (i, c) in id.iter().enumerate() {
            if [8, 13, 18, 23].contains(&i) {
                assert_eq!(*c, '-');
            } else {
                assert!(c.is_ascii_digit() || ('a'..='f').contains(c));
            }
        }
        assert_eq!(id[14], '4');
        assert!(['8', '9', 'a', 'b'].contains(&id[19]));
    }
}
