//! Core of a small agent-to-agent task hub: agents register with the capabilities
//! they serve, clients create tasks that the hub routes to an agent, agents poll
//! for their accepted tasks and report results.

pub mod agent;
pub mod agent_registry;
pub mod cli;
pub mod client;
pub mod error;
pub mod external;
pub mod hub;
pub mod laws;
pub mod server;
pub mod task;
pub mod task_store;

pub use agent::{Agent, AgentView};
pub use error::HubError;
pub use hub::{Hub, HubView};
pub use task::{Task, TaskError, TaskErrorView, TaskStatus, TaskView};
