use vstd::prelude::*;
use crate::agent::{status_token, error_message, AgentError, AgentEvent, AgentEventView};

verus! {

/// The body of a request to spawn an agent.
#[derive(Debug, Clone)]
pub struct SpawnAgentRequest {
    pub name: String,
    pub command: String,
    pub args: Vec<String>,
}

/// The body of a request to send input to an agent.
#[derive(Debug, Clone)]
pub struct SendInputRequest {
    pub input: String,
}

/// A message from a WebSocket client.
#[derive(Debug, Clone)]
pub enum WsClientMessage {
    /// Send text input to a running agent.
    SendInput { agent_id: String, input: String },
}

/// A message to a WebSocket client.
#[derive(Debug, Clone)]
pub enum WsServerMessage {
    /// An agent produced a line of output.
    AgentOutput { agent_id: String, line: String },
    /// An agent's status changed; `status` is its lowercase token.
    AgentStatus { agent_id: String, status: String },
    /// An error to report to the client.
    Error { message: String },
}

/// The message that relays `e` to a client: output and status events are
/// relayed, input events are not.
pub open spec fn relays(e: AgentEventView, m: Option<WsServerMessage>) -> bool {
    match e {
        AgentEventView::Output { agent_id, line } => m matches Some(
            WsServerMessage::AgentOutput { agent_id: a, line: l },
        ) && a@ == agent_id && l@ == line,
        AgentEventView::StatusChanged { agent_id, status } => m matches Some(
            WsServerMessage::AgentStatus { agent_id: a, status: t },
        ) && a@ == agent_id && t@ == status_token(status),
        AgentEventView::Input { .. } => m is None,
    }
}

impl WsServerMessage {
    /// The message that relays an event to clients, if it is relayed.
    pub fn from_event(event: AgentEvent) -> (r: Option<WsServerMessage>)
        ensures
            relays(event@, r),
    {
        match event {
            AgentEvent::Output { agent_id, line } => Some(
                WsServerMessage::AgentOutput { agent_id, line },
            ),
            AgentEvent::StatusChanged { agent_id, status } => Some(
                WsServerMessage::AgentStatus { agent_id, status: status.as_str() },
            ),
            AgentEvent::Input { .. } => None,
        }
    }

    /// The message that reports an error of the manager to a client.
    pub fn from_error(e: &AgentError) -> (r: WsServerMessage)
        ensures
            r matches WsServerMessage::Error { message } && message@ == error_message(*e),
    {
        WsServerMessage::Error { message: e.message() }
    }
}

} // verus!
