use hub_core::cli::{
    cancelled_task_reply, created_task_reply, parse_capabilities, tool_for_name, tool_request,
    white_space, McpTool, ToolRefusal, ToolRequest,
};
use hub_core::client::{is_success, task_reply_outcome, ReplyOutcome};
use hub_core::server::{
    self, CreateTaskRequest, UpdateTaskResultRequest, BAD_REQUEST, NOT_FOUND,
};
use hub_core::{Agent, Hub, TaskStatus};

fn json(text: &str) -> serde_json::Value {
    serde_json::from_str(text).unwrap()
}

fn hub_with_agent() -> Hub {
    let mut hub = Hub::new();
    server::register_agent(
        &mut hub,
        Agent {
            agent_id: "test-agent".to_string(),
            display_name: "Test Agent".to_string(),
            capabilities: vec!["test.cap".to_string()],
            endpoint: "http://localhost:8000".to_string(),
            last_poll: None,
        },
    );
    hub
}

#[test]
fn server_create_without_agent_is_bad_request() {
    let mut hub = Hub::new();
    let r = server::create_task(
        &mut hub,
        CreateTaskRequest { intent: "unknown.intent".to_string(), input: json("{}"), agent_id: None },
    );
    assert_eq!(r.unwrap_err(), BAD_REQUEST);
}

#[test]
fn server_error_needs_code_and_message() {
    let mut hub = hub_with_agent();
    let task = server::create_task(
        &mut hub,
        CreateTaskRequest { intent: "test.cap".to_string(), input: json("{}"), agent_id: None },
    )
    .unwrap();
    let only_code = server::update_task_result(
        &mut hub,
        &task.task_id,
        UpdateTaskResultRequest { result: None, error_code: Some("e".to_string()), error_message: None },
    )
    .unwrap();
    assert!(only_code.error.is_none());
    assert_eq!(only_code.status, TaskStatus::Accepted);
    let both = server::update_task_result(
        &mut hub,
        &task.task_id,
        UpdateTaskResultRequest {
            result: None,
            error_code: Some("e".to_string()),
            error_message: Some("boom".to_string()),
        },
    )
    .unwrap();
    assert_eq!(both.status, TaskStatus::Failed);
    assert_eq!(both.error.unwrap().message, "boom");
    let missing = server::update_task_result(
        &mut hub,
        "missing",
        UpdateTaskResultRequest { result: None, error_code: None, error_message: None },
    );
    assert_eq!(missing.unwrap_err(), NOT_FOUND);
}

#[test]
fn server_unregister_and_poll() {
    let mut hub = hub_with_agent();
    assert_eq!(server::poll_agent_tasks(&mut hub, "test-agent").unwrap().len(), 0);
    assert_eq!(server::poll_agent_tasks(&mut hub, "nonexistent").unwrap_err(), NOT_FOUND);
    assert!(server::unregister_agent(&mut hub, "test-agent").is_ok());
    assert_eq!(server::unregister_agent(&mut hub, "test-agent").unwrap_err(), NOT_FOUND);
    assert_eq!(hub.list_agents().len(), 0);
}

#[test]
fn client_reads_status_codes() {
    assert!(is_success(200));
    assert!(is_success(299));
    assert!(!is_success(199));
    assert!(!is_success(300));
    assert_eq!(task_reply_outcome(200), ReplyOutcome::Success);
    assert_eq!(task_reply_outcome(404), ReplyOutcome::NotFound);
    assert_eq!(task_reply_outcome(500), ReplyOutcome::Invalid);
    assert_eq!(task_reply_outcome(400), ReplyOutcome::Invalid);
}

#[test]
fn capabilities_are_split_and_trimmed() {
    assert_eq!(
        parse_capabilities("chat.general,code.review"),
        vec!["chat.general".to_string(), "code.review".to_string()]
    );
    assert_eq!(
        parse_capabilities("  a ,\tb c , "),
        vec!["a".to_string(), "b c".to_string(), "".to_string()]
    );
    assert_eq!(parse_capabilities(""), vec!["".to_string()]);
    assert_eq!(parse_capabilities(",,"), vec!["".to_string(), "".to_string(), "".to_string()]);
    assert_eq!(parse_capabilities("\u{3000}x\u{a0}"), vec!["x".to_string()]);
}

#[test]
fn capabilities_match_split_and_trim_of_std() {
    for s in ["chat.general", " a, b ,c ", "x,\n y\u{2028}", "é , ü", ", ,"] {
        let expected: Vec<String> = s.split(',').map(|p| p.trim().to_string()).collect();
        assert_eq!(parse_capabilities(s), expected);
    }
}

#[test]
fn white_space_agrees_with_std_on_every_char() {
    for u in 0u32..=0x10FFFF {
        if let Some(c) = char::from_u32(u) {
            assert_eq!(white_space(c), c.is_whitespace(), "U+{:04X}", u);
        }
    }
}

#[test]
fn tools_are_found_by_name() {
    assert_eq!(tool_for_name("create_task"), Some(McpTool::CreateTask));
    assert_eq!(tool_for_name("get_task"), Some(McpTool::GetTask));
    assert_eq!(tool_for_name("cancel_task"), Some(McpTool::CancelTask));
    assert_eq!(tool_for_name("list_agents"), Some(McpTool::ListAgents));
    assert_eq!(tool_for_name("delete_everything"), None);
}

#[test]
fn tool_replies() {
    assert_eq!(
        created_task_reply("abc", TaskStatus::Accepted),
        "{\"taskId\":\"abc\",\"status\":\"Accepted\"}"
    );
    assert_eq!(cancelled_task_reply("abc"), "{\"cancelled\":\"abc\"}");
    for s in [
        TaskStatus::Pending,
        TaskStatus::Accepted,
        TaskStatus::Running,
        TaskStatus::Completed,
        TaskStatus::Failed,
        TaskStatus::Cancelled,
    ] {
        assert_eq!(s.name(), format!("{:?}", s));
    }
}

fn args(
    intent: Option<&str>,
    input: Option<&str>,
    agent_id: Option<&str>,
    task_id: Option<&str>,
) -> hub_core::cli::ToolArguments {
    hub_core::cli::ToolArguments {
        intent: intent.map(|s| s.to_string()),
        input: input.map(json),
        agent_id: agent_id.map(|s| s.to_string()),
        task_id: task_id.map(|s| s.to_string()),
    }
}

#[test]
fn tool_calls_need_their_arguments() {
    match tool_request("create_task", args(Some("chat"), Some("{}"), Some("a"), None)) {
        Ok(ToolRequest::CreateTask { intent, input, agent_id }) => {
            assert_eq!(intent, "chat");
            assert_eq!(input, json("{}"));
            assert_eq!(agent_id.as_deref(), Some("a"));
        }
        _ => panic!("expected a create request"),
    }
    assert_eq!(
        tool_request("create_task", args(None, Some("{}"), None, None)).err(),
        Some(ToolRefusal::MissingIntent)
    );
    assert_eq!(
        tool_request("create_task", args(Some("chat"), None, None, None)).err(),
        Some(ToolRefusal::MissingInput)
    );
    assert_eq!(
        tool_request("get_task", args(None, None, None, None)).err(),
        Some(ToolRefusal::MissingTaskId)
    );
    assert!(matches!(
        tool_request("cancel_task", args(None, None, None, Some("t"))),
        Ok(ToolRequest::CancelTask { ref task_id }) if task_id == "t"
    ));
    assert!(matches!(tool_request("list_agents", args(None, None, None, None)), Ok(ToolRequest::ListAgents)));
    assert_eq!(
        tool_request("nope", args(None, None, None, None)).err(),
        Some(ToolRefusal::UnknownTool)
    );
    assert_eq!(ToolRefusal::MissingIntent.message(), "Missing intent");
    assert_eq!(ToolRefusal::MissingTaskId.message(), "Missing taskId");
}

#[test]
fn tool_catalogue_lists_the_four_tools() {
    let tools = hub_core::cli::tool_catalogue();
    let names: Vec<&str> = tools.iter().map(|t| t.name.as_str()).collect();
    assert_eq!(names, vec!["create_task", "get_task", "cancel_task", "list_agents"]);
    for t in &tools {
        assert!(tool_for_name(&t.name).is_some());
    }
    let create = &tools[0];
    assert_eq!(create.description, "Create a new task in the hub");
    let props: Vec<(&str, &str)> =
        create.properties.iter().map(|p| (p.name.as_str(), p.kind.as_str())).collect();
    assert_eq!(props, vec![("intent", "string"), ("input", "object"), ("agentId", "string")]);
    assert_eq!(create.required, vec!["intent".to_string(), "input".to_string()]);
    assert_eq!(tools[1].required, vec!["taskId".to_string()]);
    assert_eq!(tools[2].properties[0].description, "The ID of the task to cancel");
    assert!(tools[3].properties.is_empty() && tools[3].required.is_empty());
}
