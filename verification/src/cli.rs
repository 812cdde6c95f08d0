//! The logic of the command-line tool and its MCP tools: reading a comma-separated list of
//! capabilities, naming the tools, and the replies the tools give.

use vstd::prelude::*;
use vstd::string::*;

use crate::task::TaskStatus;

verus! {

/// The character has the Unicode `White_Space` property (as listed in the Unicode Character
/// Database, `PropList.txt`), the property that `str::trim` strips.
pub open spec fn is_white_space(c: char) -> bool {
    let u = c as u32;
    ||| 0x9 <= u <= 0xD
    ||| u == 0x20
    ||| u == 0x85
    ||| u == 0xA0
    ||| u == 0x1680
    ||| 0x2000 <= u <= 0x200A
    ||| u == 0x2028
    ||| u == 0x2029
    ||| u == 0x202F
    ||| u == 0x205F
    ||| u == 0x3000
}

/// Whether `c` is Unicode white space.
pub fn white_space(c: char) -> (b: bool)
    ensures
        b == is_white_space(c),
{
    let u = c as u32;
    (0x9 <= u && u <= 0xD) || u == 0x20 || u == 0x85 || u == 0xA0 || u == 0x1680 || (0x2000 <= u
        && u <= 0x200A) || u == 0x2028 || u == 0x2029 || u == 0x202F || u == 0x205F || u == 0x3000
}

/// The pieces of `s` between commas, as `str::split(',')` yields them: always at least one,
/// possibly empty.
pub open spec fn split_commas(s: Seq<char>) -> Seq<Seq<char>>
    decreases s.len(),
{
    if s.len() == 0 {
        seq![Seq::<char>::empty()]
    } else {
        let prev = split_commas(s.drop_last());
        if s.last() == ',' {
            prev.push(Seq::<char>::empty())
        } else {
            prev.update(prev.len() - 1, prev.last().push(s.last()))
        }
    }
}

/// `a` is where `seg` starts once its leading white space is stripped.
pub open spec fn trim_start_at(seg: Seq<char>, a: int) -> bool {
    &&& 0 <= a <= seg.len()
    &&& forall|j: int| 0 <= j < a ==> is_white_space(#[trigger] seg[j])
    &&& a < seg.len() ==> !is_white_space(seg[a])
}

/// `b` is where `seg` ends once its trailing white space is stripped, given that it starts at `a`.
pub open spec fn trim_end_at(seg: Seq<char>, a: int, b: int) -> bool {
    &&& a <= b <= seg.len()
    &&& forall|j: int| b <= j < seg.len() ==> is_white_space(#[trigger] seg[j])
    &&& a < b ==> !is_white_space(seg[b - 1])
}

/// `seg` with leading and trailing white space stripped, as `str::trim` does.
pub open spec fn trim(seg: Seq<char>) -> Seq<char> {
    let a = choose|a: int| trim_start_at(seg, a);
    let b = choose|b: int| trim_end_at(seg, a, b);
    seg.subrange(a, b)
}

/// The capabilities written in `s`: the pieces between commas, each trimmed.
pub open spec fn capabilities_in(s: Seq<char>) -> Seq<Seq<char>> {
    split_commas(s).map_values(|seg: Seq<char>| trim(seg))
}

proof fn lemma_trim_bounds(seg: Seq<char>, a: int, b: int)
    requires
        trim_start_at(seg, a),
        trim_end_at(seg, a, b),
    ensures
        trim(seg) == seg.subrange(a, b),
{
    let a1 = choose|a: int| trim_start_at(seg, a);
    assert(trim_start_at(seg, a1));
    if a1 < a {
        assert(is_white_space(seg[a1]));
    }
    if a < a1 {
        assert(is_white_space(seg[a]));
    }
    let b1 = choose|b: int| trim_end_at(seg, a1, b);
    assert(trim_end_at(seg, a1, b1));
    if b1 < b {
        assert(is_white_space(seg[b - 1]));
    }
    if b < b1 {
        assert(is_white_space(seg[b1 - 1]));
    }
}

/// The piece of `s` from character `from` to character `to`, trimmed.
fn trimmed_piece(s: &str, from: usize, to: usize) -> (piece: String)
    requires
        from <= to <= s@.len(),
    ensures
        piece@ == trim(s@.subrange(from as int, to as int)),
{
    let ghost seg = s@.subrange(from as int, to as int);
    let mut a = from;
    while a < to && white_space(s.get_char(a))
        invariant
            from <= a <= to,
            to <= s@.len(),
            seg == s@.subrange(from as int, to as int),
            forall|j: int| 0 <= j < a - from ==> is_white_space(#[trigger] seg[j]),
        decreases to - a,
    {
        a = a + 1;
    }
    let mut b = to;
    while b > a && white_space(s.get_char(b - 1))
        invariant
            from <= a <= b <= to,
            to <= s@.len(),
            seg == s@.subrange(from as int, to as int),
            forall|j: int| b - from <= j < to - from ==> is_white_space(#[trigger] seg[j]),
        decreases b,
    {
        b = b - 1;
    }
    proof {
        assert(trim_start_at(seg, a - from));
        assert(trim_end_at(seg, a - from, b - from));
        lemma_trim_bounds(seg, a - from, b - from);
        assert(seg.subrange(a - from, b - from) =~= s@.subrange(a as int, b as int));
    }
    String::from_str(s.substring_char(a, b))
}

/// Reads a comma-separated list of capabilities such as `"chat.general, code.review"`:
/// the pieces between commas, each with surrounding white space stripped.
pub fn parse_capabilities(s: &str) -> (caps: Vec<String>)
    ensures
        caps@.map_values(|c: String| c@) == capabilities_in(s@),
{
    let n = s.unicode_len();
    let mut caps: Vec<String> = Vec::new();
    let ghost mut done: Seq<Seq<char>> = Seq::empty();
    let mut start: usize = 0;
    let mut i: usize = 0;
    proof {
        assert(s@.take(0) =~= Seq::<char>::empty());
        assert(s@.subrange(0, 0) =~= Seq::<char>::empty());
        assert(done.push(Seq::<char>::empty()) =~= seq![Seq::<char>::empty()]);
    }
    while i < n
        invariant
            n == s@.len(),
            start <= i <= n,
            split_commas(s@.take(i as int)) == done.push(s@.subrange(start as int, i as int)),
            caps@.map_values(|c: String| c@) == done.map_values(|seg: Seq<char>| trim(seg)),
        decreases n - i,
    {
        let c = s.get_char(i);
        proof {
            assert(s@.take(i + 1).drop_last() =~= s@.take(i as int));
            assert(s@.take(i + 1).last() == c);
        }
        if c == ',' {
            let piece = trimmed_piece(s, start, i);
            let ghost before = caps@;
            caps.push(piece);
            proof {
                let seg = s@.subrange(start as int, i as int);
                assert(caps@.map_values(|c: String| c@) =~= before.map_values(|c: String| c@).push(
                    trim(seg),
                ));
                done = done.push(seg);
                assert(done.map_values(|seg: Seq<char>| trim(seg)) =~= done.drop_last().map_values(
                    |seg: Seq<char>| trim(seg),
                ).push(trim(seg)));
                assert(s@.subrange(i + 1, i + 1) =~= Seq::<char>::empty());
                assert(split_commas(s@.take(i + 1)) =~= done.push(s@.subrange(i + 1, i + 1)));
            }
            start = i + 1;
        } else {
            proof {
                let prev = done.push(s@.subrange(start as int, i as int));
                assert(s@.subrange(start as int, i + 1) =~= s@.subrange(start as int, i as int).push(c));
                assert(split_commas(s@.take(i + 1)) =~= done.push(s@.subrange(start as int, i + 1)));
            }
        }
        i = i + 1;
    }
    let piece = trimmed_piece(s, start, n);
    let ghost before = caps@;
    caps.push(piece);
    proof {
        assert(s@.take(n as int) =~= s@);
        let seg = s@.subrange(start as int, n as int);
        assert(caps@.map_values(|c: String| c@) =~= before.map_values(|c: String| c@).push(
            trim(seg),
        ));
        assert(capabilities_in(s@) =~= done.map_values(|seg: Seq<char>| trim(seg)).push(trim(seg)));
    }
    caps
}

/// The tools that the MCP server offers.
#[derive(Debug, Clone, Copy, PartialEq, Eq, Structural)]
pub enum McpTool {
    CreateTask,
    GetTask,
    CancelTask,
    ListAgents,
}

/// The tool a name calls for, if any.
pub open spec fn tool_named(name: Seq<char>) -> Option<McpTool> {
    if name == "create_task"@ {
        Some(McpTool::CreateTask)
    } else if name == "get_task"@ {
        Some(McpTool::GetTask)
    } else if name == "cancel_task"@ {
        Some(McpTool::CancelTask)
    } else if name == "list_agents"@ {
        Some(McpTool::ListAgents)
    } else {
        None
    }
}

/// The tool that `name` calls for; `None` for an unknown name.
pub fn tool_for_name(name: &str) -> (tool: Option<McpTool>)
    ensures
        tool == tool_named(name@),
{
    let name = name.to_owned();
    if name == String::from_str("create_task") {
        Some(McpTool::CreateTask)
    } else if name == String::from_str("get_task") {
        Some(McpTool::GetTask)
    } else if name == String::from_str("cancel_task") {
        Some(McpTool::CancelTask)
    } else if name == String::from_str("list_agents") {
        Some(McpTool::ListAgents)
    } else {
        None
    }
}

/// An argument that a tool declares: its name, its JSON type and what it is for.
pub struct ToolProperty {
    pub name: String,
    pub kind: String,
    pub description: String,
}

/// Abstract value of a [`ToolProperty`].
pub struct ToolPropertyView {
    pub name: Seq<char>,
    pub kind: Seq<char>,
    pub description: Seq<char>,
}

impl View for ToolProperty {
    type V = ToolPropertyView;

    open spec fn view(&self) -> ToolPropertyView {
        ToolPropertyView { name: self.name@, kind: self.kind@, description: self.description@ }
    }
}

/// A tool as the MCP server announces it: its name, description, arguments, and which of
/// them are required.
pub struct ToolSpec {
    pub name: String,
    pub description: String,
    pub properties: Vec<ToolProperty>,
    pub required: Vec<String>,
}

/// Abstract value of a [`ToolSpec`].
pub struct ToolSpecView {
    pub name: Seq<char>,
    pub description: Seq<char>,
    pub properties: Seq<ToolPropertyView>,
    pub required: Seq<Seq<char>>,
}

impl View for ToolSpec {
    type V = ToolSpecView;

    open spec fn view(&self) -> ToolSpecView {
        ToolSpecView {
            name: self.name@,
            description: self.description@,
            properties: self.properties@.map_values(|p: ToolProperty| p@),
            required: self.required@.map_values(|r: String| r@),
        }
    }
}

pub open spec fn property_view(name: Seq<char>, kind: Seq<char>, description: Seq<char>) -> ToolPropertyView {
    ToolPropertyView { name, kind, description }
}

/// The tools the MCP server offers, in the order in which it lists them.
pub open spec fn tool_catalogue_spec() -> Seq<ToolSpecView> {
    seq![
        ToolSpecView {
            name: "create_task"@,
            description: "Create a new task in the hub"@,
            properties: seq![
                property_view("intent"@, "string"@, "The intent of the task (e.g., code.review, chat.general)"@),
                property_view("input"@, "object"@, "Input data for the task"@),
                property_view("agentId"@, "string"@, "Optional agent ID to route the task to"@),
            ],
            required: seq!["intent"@, "input"@],
        },
        ToolSpecView {
            name: "get_task"@,
            description: "Get the status and result of a task"@,
            properties: seq![
                property_view("taskId"@, "string"@, "The ID of the task to retrieve"@),
            ],
            required: seq!["taskId"@],
        },
        ToolSpecView {
            name: "cancel_task"@,
            description: "Cancel a running task"@,
            properties: seq![
                property_view("taskId"@, "string"@, "The ID of the task to cancel"@),
            ],
            required: seq!["taskId"@],
        },
        ToolSpecView {
            name: "list_agents"@,
            description: "List all available agents and their capabilities"@,
            properties: Seq::<ToolPropertyView>::empty(),
            required: Seq::<Seq<char>>::empty(),
        },
    ]
}

fn property(name: &str, kind: &str, description: &str) -> (p: ToolProperty)
    ensures
        p@ == property_view(name@, kind@, description@),
{
    ToolProperty {
        name: String::from_str(name),
        kind: String::from_str(kind),
        description: String::from_str(description),
    }
}

/// The tools the MCP server offers: for each, its name, description, arguments and required
/// arguments.
pub fn tool_catalogue() -> (tools: Vec<ToolSpec>)
    ensures
        tools@.map_values(|t: ToolSpec| t@) == tool_catalogue_spec(),
{
    let mut create_props: Vec<ToolProperty> = Vec::new();
    create_props.push(property("intent", "string", "The intent of the task (e.g., code.review, chat.general)"));
    create_props.push(property("input", "object", "Input data for the task"));
    create_props.push(property("agentId", "string", "Optional agent ID to route the task to"));
    let mut create_required: Vec<String> = Vec::new();
    create_required.push(String::from_str("intent"));
    create_required.push(String::from_str("input"));
    let create = ToolSpec {
        name: String::from_str("create_task"),
        description: String::from_str("Create a new task in the hub"),
        properties: create_props,
        required: create_required,
    };
    assert(create@.properties =~= tool_catalogue_spec()[0].properties);
    assert(create@.required =~= tool_catalogue_spec()[0].required);
    assert(create@ == tool_catalogue_spec()[0]);

    let mut get_props: Vec<ToolProperty> = Vec::new();
    get_props.push(property("taskId", "string", "The ID of the task to retrieve"));
    let mut get_required: Vec<String> = Vec::new();
    get_required.push(String::from_str("taskId"));
    let get = ToolSpec {
        name: String::from_str("get_task"),
        description: String::from_str("Get the status and result of a task"),
        properties: get_props,
        required: get_required,
    };
    assert(get@.properties =~= tool_catalogue_spec()[1].properties);
    assert(get@.required =~= tool_catalogue_spec()[1].required);
    assert(get@ == tool_catalogue_spec()[1]);

    let mut cancel_props: Vec<ToolProperty> = Vec::new();
    cancel_props.push(property("taskId", "string", "The ID of the task to cancel"));
    let mut cancel_required: Vec<String> = Vec::new();
    cancel_required.push(String::from_str("taskId"));
    let cancel = ToolSpec {
        name: String::from_str("cancel_task"),
        description: String::from_str("Cancel a running task"),
        properties: cancel_props,
        required: cancel_required,
    };
    assert(cancel@.properties =~= tool_catalogue_spec()[2].properties);
    assert(cancel@.required =~= tool_catalogue_spec()[2].required);
    assert(cancel@ == tool_catalogue_spec()[2]);

    let list = ToolSpec {
        name: String::from_str("list_agents"),
        description: String::from_str("List all available agents and their capabilities"),
        properties: Vec::new(),
        required: Vec::new(),
    };
    assert(list@.properties =~= tool_catalogue_spec()[3].properties);
    assert(list@.required =~= tool_catalogue_spec()[3].required);
    assert(list@ == tool_catalogue_spec()[3]);

    let mut tools: Vec<ToolSpec> = Vec::new();
    tools.push(create);
    tools.push(get);
    tools.push(cancel);
    tools.push(list);
    assert(tools@.map_values(|t: ToolSpec| t@) =~= tool_catalogue_spec());
    tools
}

/// The arguments of a tool call that the tools read, each present or not.
pub struct ToolArguments {
    pub intent: Option<String>,
    pub input: Option<serde_json::Value>,
    pub agent_id: Option<String>,
    pub task_id: Option<String>,
}

/// A tool call with the arguments it needs.
pub enum ToolRequest {
    CreateTask { intent: String, input: serde_json::Value, agent_id: Option<String> },
    GetTask { task_id: String },
    CancelTask { task_id: String },
    ListAgents,
}

/// Why a tool call is refused before it reaches the hub.
#[derive(Debug, Clone, Copy, PartialEq, Eq, Structural)]
pub enum ToolRefusal {
    UnknownTool,
    MissingIntent,
    MissingInput,
    MissingTaskId,
}

/// The outcome of a call of tool `name`: the request it makes, or why it is refused. Creating
/// a task needs an intent and an input, the agent being optional; getting or cancelling a
/// task needs its identifier; listing agents needs nothing.
pub open spec fn tool_request_spec(name: Seq<char>, args: ToolArguments) -> Result<
    ToolRequest,
    ToolRefusal,
> {
    match tool_named(name) {
        None => Err(ToolRefusal::UnknownTool),
        Some(McpTool::CreateTask) => match (args.intent, args.input) {
            (None, _) => Err(ToolRefusal::MissingIntent),
            (Some(_), None) => Err(ToolRefusal::MissingInput),
            (Some(intent), Some(input)) => Ok(
                ToolRequest::CreateTask { intent, input, agent_id: args.agent_id },
            ),
        },
        Some(McpTool::GetTask) => match args.task_id {
            None => Err(ToolRefusal::MissingTaskId),
            Some(task_id) => Ok(ToolRequest::GetTask { task_id }),
        },
        Some(McpTool::CancelTask) => match args.task_id {
            None => Err(ToolRefusal::MissingTaskId),
            Some(task_id) => Ok(ToolRequest::CancelTask { task_id }),
        },
        Some(McpTool::ListAgents) => Ok(ToolRequest::ListAgents),
    }
}

/// Reads a call of tool `name` with the given arguments.
pub fn tool_request(name: &str, args: ToolArguments) -> (r: Result<ToolRequest, ToolRefusal>)
    ensures
        r == tool_request_spec(name@, args),
{
    match tool_for_name(name) {
        None => Err(ToolRefusal::UnknownTool),
        Some(McpTool::CreateTask) => match (args.intent, args.input) {
            (None, _) => Err(ToolRefusal::MissingIntent),
            (Some(_), None) => Err(ToolRefusal::MissingInput),
            (Some(intent), Some(input)) => Ok(
                ToolRequest::CreateTask { intent, input, agent_id: args.agent_id },
            ),
        },
        Some(McpTool::GetTask) => match args.task_id {
            None => Err(ToolRefusal::MissingTaskId),
            Some(task_id) => Ok(ToolRequest::GetTask { task_id }),
        },
        Some(McpTool::CancelTask) => match args.task_id {
            None => Err(ToolRefusal::MissingTaskId),
            Some(task_id) => Ok(ToolRequest::CancelTask { task_id }),
        },
        Some(McpTool::ListAgents) => Ok(ToolRequest::ListAgents),
    }
}

/// The text of a refusal as the tools report it.
pub open spec fn refusal_message(refusal: ToolRefusal) -> Seq<char> {
    match refusal {
        ToolRefusal::UnknownTool => "Unknown tool"@,
        ToolRefusal::MissingIntent => "Missing intent"@,
        ToolRefusal::MissingInput => "Missing input"@,
        ToolRefusal::MissingTaskId => "Missing taskId"@,
    }
}

impl ToolRefusal {
    /// The text of this refusal, such as `Missing intent`.
    pub fn message(&self) -> (text: String)
        ensures
            text@ == refusal_message(*self),
    {
        match self {
            ToolRefusal::UnknownTool => String::from_str("Unknown tool"),
            ToolRefusal::MissingIntent => String::from_str("Missing intent"),
            ToolRefusal::MissingInput => String::from_str("Missing input"),
            ToolRefusal::MissingTaskId => String::from_str("Missing taskId"),
        }
    }
}

/// The name under which a status is shown, as its `Debug` form writes it.
pub open spec fn status_name(status: TaskStatus) -> Seq<char> {
    match status {
        TaskStatus::Pending => "Pending"@,
        TaskStatus::Accepted => "Accepted"@,
        TaskStatus::Running => "Running"@,
        TaskStatus::Completed => "Completed"@,
        TaskStatus::Failed => "Failed"@,
        TaskStatus::Cancelled => "Cancelled"@,
    }
}

impl TaskStatus {
    /// The name of this status, such as `Accepted`.
    pub fn name(&self) -> (name: String)
        ensures
            name@ == status_name(*self),
    {
        match self {
            TaskStatus::Pending => String::from_str("Pending"),
            TaskStatus::Accepted => String::from_str("Accepted"),
            TaskStatus::Running => String::from_str("Running"),
            TaskStatus::Completed => String::from_str("Completed"),
            TaskStatus::Failed => String::from_str("Failed"),
            TaskStatus::Cancelled => String::from_str("Cancelled"),
        }
    }
}

/// The reply of the `create_task` tool: `{"taskId":"<id>","status":"<status>"}`.
pub fn created_task_reply(task_id: &str, status: TaskStatus) -> (reply: String)
    ensures
        reply@ == "{\"taskId\":\""@ + task_id@ + "\",\"status\":\""@ + status_name(status)
            + "\"}"@,
{
    let name = status.name();
    String::from_str("{\"taskId\":\"").concat(task_id).concat("\",\"status\":\"").concat(
        name.as_str(),
    ).concat("\"}")
}

/// The reply of the `cancel_task` tool: `{"cancelled":"<id>"}`.
pub fn cancelled_task_reply(task_id: &str) -> (reply: String)
    ensures
        reply@ == "{\"cancelled\":\""@ + task_id@ + "\"}"@,
{
    String::from_str("{\"cancelled\":\"").concat(task_id).concat("\"}")
}

} // verus!
