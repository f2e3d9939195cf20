//! The named instruction templates handed to the completion endpoint.
//!
//! Each template maps an agent's task to a fixed instruction string that
//! describes, in the style of a function signature, exactly what the model
//! must print. Passing a closed set of named templates keeps prompt
//! construction a total operation over plain values.

use vstd::prelude::*;

verus! {

/// The closed set of instruction templates the agents use.
#[derive(Debug, Clone, Copy, PartialEq, Eq, Structural)]
pub enum AiFunction {
    /// Turns the raw user request into a concise project description.
    ConvertUserInputToGoal,
    /// Prints the project scope flags as a JSON object of three booleans.
    PrintProjectScope,
    /// Prints the external URLs the project needs as a JSON array of strings.
    PrintSiteUrls,
    /// Prints a complete backend web server for the given specification.
    PrintBackendWebserverCode,
    /// Prints the REST API endpoints of the given code as a JSON array.
    PrintRestApiEndpoints,
}

impl AiFunction {
    /// The fixed instruction text of this template.
    pub open spec fn spec_render(self) -> Seq<char> {
        match self {
            AiFunction::ConvertUserInputToGoal => "fn convert_user_input_to_goal(user_request: &str) -> String: Converts the user request into a short summarised goal for a website build."@,
            AiFunction::PrintProjectScope => "fn print_project_scope(project_description: &str) -> String: Returns only a JSON object with the boolean fields is_crud_required, is_user_login_required and is_external_urls_required."@,
            AiFunction::PrintSiteUrls => "fn print_site_urls(project_description: &str) -> String: Returns only a JSON array of the external URL strings the project must call."@,
            AiFunction::PrintBackendWebserverCode => "fn print_backend_webserver_code(project_context: &str) -> String: Returns only the full Rust code of the backend web server described by the context, following the supplied code template."@,
            AiFunction::PrintRestApiEndpoints => "fn print_rest_api_endpoints(backend_code: &str) -> String: Returns only a JSON array of route objects with the fields is_route_dynamic, method, request_body, response and route, where is_route_dynamic is the string true or false."@,
        }
    }

    /// The fixed instruction text of this template.
    pub fn render(&self) -> (r: &'static str)
        ensures
            r@ == self.spec_render(),
    {
        match self {
            AiFunction::ConvertUserInputToGoal => "fn convert_user_input_to_goal(user_request: &str) -> String: Converts the user request into a short summarised goal for a website build.",
            AiFunction::PrintProjectScope => "fn print_project_scope(project_description: &str) -> String: Returns only a JSON object with the boolean fields is_crud_required, is_user_login_required and is_external_urls_required.",
            AiFunction::PrintSiteUrls => "fn print_site_urls(project_description: &str) -> String: Returns only a JSON array of the external URL strings the project must call.",
            AiFunction::PrintBackendWebserverCode => "fn print_backend_webserver_code(project_context: &str) -> String: Returns only the full Rust code of the backend web server described by the context, following the supplied code template.",
            AiFunction::PrintRestApiEndpoints => "fn print_rest_api_endpoints(backend_code: &str) -> String: Returns only a JSON array of route objects with the fields is_route_dynamic, method, request_body, response and route, where is_route_dynamic is the string true or false.",
        }
    }
}

} // verus!
