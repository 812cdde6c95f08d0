//! Why a hub operation was refused.

use vstd::prelude::*;
use vstd::string::*;

verus! {

/// The reasons for which the hub refuses an operation.
#[derive(Debug, Clone, PartialEq, Eq)]
pub enum HubError {
    /// No agent is registered under this identifier.
    AgentNotFound(String),
    /// No registered agent serves this intent.
    NoAgentForIntent(String),
    /// No task has this identifier.
    TaskNotFound(String),
}

/// Abstract value of a [`HubError`]: which refusal, and the identifier or intent it names.
pub enum HubErrorView {
    AgentNotFound(Seq<char>),
    NoAgentForIntent(Seq<char>),
    TaskNotFound(Seq<char>),
}

impl View for HubError {
    type V = HubErrorView;

    open spec fn view(&self) -> HubErrorView {
        match self {
            HubError::AgentNotFound(id) => HubErrorView::AgentNotFound(id@),
            HubError::NoAgentForIntent(intent) => HubErrorView::NoAgentForIntent(intent@),
            HubError::TaskNotFound(id) => HubErrorView::TaskNotFound(id@),
        }
    }
}

/// The human-readable text of a refusal.
pub open spec fn error_message(error: HubErrorView) -> Seq<char> {
    match error {
        HubErrorView::AgentNotFound(id) => "Agent not found: "@ + id,
        HubErrorView::NoAgentForIntent(intent) => "No agent found for intent: "@ + intent,
        HubErrorView::TaskNotFound(id) => "Task not found: "@ + id,
    }
}

impl HubError {
    /// The human-readable text of this refusal, such as `Task not found: <id>`.
    pub fn message(&self) -> (text: String)
        ensures
            text@ == error_message(self@),
    {
        match self {
            HubError::AgentNotFound(id) => String::from_str("Agent not found: ").concat(
                id.as_str(),
            ),
            HubError::NoAgentForIntent(intent) => String::from_str(
                "No agent found for intent: ",
            ).concat(intent.as_str()),
            HubError::TaskNotFound(id) => String::from_str("Task not found: ").concat(
                id.as_str(),
            ),
        }
    }
}

} // verus!
