//! The attributes every agent carries: its role, objective, private runtime
//! state and the append-only transcript of the messages it exchanged.

use vstd::prelude::*;

use crate::llm::Message;

verus! {

/// The runtime state of one agent, monotonic within one run. The transition
/// set is agent-specific and private to the agent.
#[derive(Debug, Clone, Copy, PartialEq, Eq, Structural)]
pub enum AgentState {
    Discovery,
    Working,
    UnitTesting,
    Finished,
}

/// The introspectable attributes of one agent.
#[derive(Debug)]
pub struct BasicAgent {
    pub objective: String,
    pub position: String,
    pub state: AgentState,
    pub memory: Vec<Message>,
}

} // verus!
