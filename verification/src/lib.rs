//! Orchestration of a fixed roster of specialized agents that build a shared
//! project fact sheet by prompting a language-model completion endpoint.
//!
//! The library is organised around a deterministic core: every interaction
//! with the completion endpoint is modelled as a queue of transport outcomes
//! that the caller has already gathered, so prompting, retrying, decoding and
//! agent sequencing are all ordinary verified functions over plain values.

pub mod agent_traits;
pub mod agents;
pub mod ai_functions;
pub mod basic_agent;
pub mod code_template;
pub mod command_line;
pub mod decode;
pub mod general;
pub mod llm;
pub mod managing_agent;
pub mod transport;
