//! The shared project state the agents build, and the error an agent step
//! surfaces to the orchestrator.

use vstd::prelude::*;

verus! {

/// One decoded HTTP endpoint of the generated backend. `is_route_dynamic`
/// is decoded strictly from the literal strings "true" and "false"; the
/// opaque structured `request_body` and `response` values are carried as
/// their JSON text.
#[derive(Debug, Clone, PartialEq)]
pub struct RouteObject {
    pub is_route_dynamic: bool,
    pub method: String,
    pub request_body: String,
    pub response: String,
    pub route: String,
}

/// The scope flags the architecture step decides for the project.
#[derive(Debug, Clone, Copy, PartialEq, Eq, Structural)]
pub struct ProjectScope {
    pub is_crud_required: bool,
    pub is_user_login_required: bool,
    pub is_external_urls_required: bool,
}

/// The shared, mutable project-state aggregate threaded through every agent
/// step. `project_description` is set once, before any agent runs; each
/// agent mutates only the fields it owns.
#[derive(Debug, Clone, PartialEq)]
pub struct FactSheet {
    pub project_description: String,
    pub project_scope: Option<ProjectScope>,
    pub external_urls: Option<Vec<String>>,
    pub backend_code: Option<String>,
    pub api_endpoint_schema: Option<Vec<RouteObject>>,
}

/// A fatal failure of one agent step, surfaced to the orchestrator: a
/// transport failure that survived the single retry, or model output that
/// did not decode into the expected shape (never retried).
#[derive(Debug, Clone, Copy, PartialEq, Eq, Structural)]
pub enum AgentStepError {
    Transport,
    Decode,
}

} // verus!
