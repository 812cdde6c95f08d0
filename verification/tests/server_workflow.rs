//! The hub's HTTP workflows, driven through the library's request handling.

use hub_core::server::{self, CreateTaskRequest, UpdateTaskResultRequest, NOT_FOUND};
use hub_core::{Agent, Hub, TaskStatus};

fn json(text: &str) -> serde_json::Value {
    serde_json::from_str(text).unwrap()
}

fn test_agent(capability: &str) -> Agent {
    Agent {
        agent_id: "test-agent".to_string(),
        display_name: "Test Agent".to_string(),
        capabilities: vec![capability.to_string()],
        endpoint: "http://localhost:8000".to_string(),
        last_poll: None,
    }
}

fn create(hub: &mut Hub, intent: &str, input: &str) -> Result<hub_core::Task, u16> {
    server::create_task(
        hub,
        CreateTaskRequest { intent: intent.to_string(), input: json(input), agent_id: None },
    )
}

#[test]
fn agent_register_list_via_http() {
    let mut hub = Hub::new();
    server::register_agent(&mut hub, test_agent("test.cap"));
    let agents = server::list_agents(&hub);
    assert_eq!(agents.len(), 1);
    assert_eq!(agents[0].agent_id, "test-agent");
}

#[test]
fn agent_register_remove() {
    let mut hub = Hub::new();
    server::register_agent(&mut hub, test_agent("test.cap"));
    assert_eq!(server::unregister_agent(&mut hub, "test-agent"), Ok(()));
    assert_eq!(server::list_agents(&hub).len(), 0);
}

#[test]
fn task_create_and_get() {
    let mut hub = Hub::new();
    server::register_agent(&mut hub, test_agent("test.cap"));
    let task = create(&mut hub, "test.cap", r#"{"key": "value"}"#).unwrap();
    let task_id = task.task_id.clone();
    let retrieved = server::get_task(&hub, &task_id).unwrap();
    assert_eq!(retrieved.task_id, task_id);
}

#[test]
fn task_complete_workflow() {
    let mut hub = Hub::new();
    server::register_agent(&mut hub, test_agent("test.cap"));
    let task = create(&mut hub, "test.cap", "{}").unwrap();
    let updated = server::update_task_result(
        &mut hub,
        &task.task_id,
        UpdateTaskResultRequest {
            result: Some(json(r#"{"response": "Done!"}"#)),
            error_code: None,
            error_message: None,
        },
    )
    .unwrap();
    assert_eq!(format!("{:?}", updated.status), "Completed");
}

#[test]
fn task_cancel_workflow() {
    let mut hub = Hub::new();
    server::register_agent(&mut hub, test_agent("test.cap"));
    let task = create(&mut hub, "test.cap", "{}").unwrap();
    let cancelled = server::cancel_task(&mut hub, &task.task_id).unwrap();
    assert_eq!(format!("{:?}", cancelled.status), "Cancelled");
}

#[test]
fn test_agent_poll_empty() {
    let mut hub = Hub::new();
    server::register_agent(&mut hub, test_agent("test.intent"));
    let tasks = server::poll_agent_tasks(&mut hub, "test-agent").unwrap();
    assert_eq!(tasks.len(), 0);
}

#[test]
fn test_agent_poll_with_tasks() {
    let mut hub = Hub::new();
    server::register_agent(&mut hub, test_agent("test.intent"));
    create(&mut hub, "test.intent", r#"{"data": "test1"}"#).unwrap();
    create(&mut hub, "test.intent", r#"{"data": "test2"}"#).unwrap();
    let tasks = server::poll_agent_tasks(&mut hub, "test-agent").unwrap();
    assert_eq!(tasks.len(), 2);
    assert_eq!(tasks[0].status, TaskStatus::Accepted);
    assert_eq!(tasks[1].status, TaskStatus::Accepted);
}

#[test]
fn test_poll_updates_last_poll_timestamp() {
    let mut hub = Hub::new();
    server::register_agent(&mut hub, test_agent("test.intent"));
    let agents = server::list_agents(&hub);
    assert_eq!(agents.len(), 1);
    assert!(agents[0].last_poll.is_none());

    server::poll_agent_tasks(&mut hub, "test-agent").unwrap();

    let agents = server::list_agents(&hub);
    assert_eq!(agents.len(), 1);
    assert!(agents[0].last_poll.is_some());
}

#[test]
fn poll_workflow_test_poll_nonexistent_agent() {
    let mut hub = Hub::new();
    assert_eq!(server::poll_agent_tasks(&mut hub, "nonexistent").unwrap_err(), 404);
    assert_eq!(NOT_FOUND, 404);
}
