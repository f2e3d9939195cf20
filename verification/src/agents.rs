//! The concrete agents of the roster and the capability they share.
//!
//! Each agent runs a private workflow over the shared fact sheet, mutating
//! only the fields it owns and leaving every other field untouched. The
//! roster holds them behind `AgentVariant`, the closed union the
//! orchestrator drives through `get_attributes_from_agent` and `execute`.

use vstd::prelude::*;

use crate::agent_traits::{AgentStepError, FactSheet, ProjectScope, RouteObject};
use crate::ai_functions::AiFunction;
use crate::basic_agent::{AgentState, BasicAgent};
use crate::general::{
    ai_task_request, ai_task_request_routes, ai_task_request_scope, ai_task_request_urls,
    decoded_routes_result, decoded_scope_result, decoded_urls_result, extend_ai_function,
};
use crate::transport::{request_consumed, request_result, CompletionFeed, TransportOutcome};

verus! {

/// The view of an optional text field as its characters.
pub open spec fn text_view(o: Option<String>) -> Option<Seq<char>> {
    match o {
        Some(s) => Some(s@),
        None => None,
    }
}

/// The view of the optional URL list as its characters.
pub open spec fn urls_view(o: Option<Vec<String>>) -> Option<Seq<Seq<char>>> {
    match o {
        Some(v) => Some(v@.map_values(|s: String| s@)),
        None => None,
    }
}

/// A boolean as the literal string it renders to.
pub open spec fn bool_text(b: bool) -> Seq<char> {
    if b {
        "true"@
    } else {
        "false"@
    }
}

/// Renders a boolean as its literal string.
pub fn render_bool(b: bool) -> (r: &'static str)
    ensures
        r@ == bool_text(b),
{
    if b {
        "true"
    } else {
        "false"
    }
}

/// The scope flags rendered for a prompt, empty when no scope is set yet.
pub open spec fn scope_line(scope: Option<ProjectScope>) -> Seq<char> {
    match scope {
        None => ""@,
        Some(s) => "is_crud_required: "@ + bool_text(s.is_crud_required)
            + ", is_user_login_required: "@ + bool_text(s.is_user_login_required)
            + ", is_external_urls_required: "@ + bool_text(s.is_external_urls_required),
    }
}

/// Renders the scope flags for a prompt.
pub fn render_scope_line(scope: &Option<ProjectScope>) -> (r: String)
    ensures
        r@ == scope_line(*scope),
{
    match scope {
        None => {
            let r = String::new();
            proof {
                reveal_strlit("");
                assert(r@ =~= ""@);
            }
            r
        },
        Some(s) => {
            let mut r = String::from_str("is_crud_required: ");
            r.append(render_bool(s.is_crud_required));
            r.append(", is_user_login_required: ");
            r.append(render_bool(s.is_user_login_required));
            r.append(", is_external_urls_required: ");
            r.append(render_bool(s.is_external_urls_required));
            r
        },
    }
}

/// The view of the optional endpoint schema as a sequence.
pub open spec fn schema_view(o: Option<Vec<RouteObject>>) -> Option<Seq<RouteObject>> {
    match o {
        Some(v) => Some(v@),
        None => None,
    }
}

/// The fact sheet as plain spec values: each field by its view.
pub struct FactSheetView {
    pub project_description: Seq<char>,
    pub project_scope: Option<ProjectScope>,
    pub external_urls: Option<Seq<Seq<char>>>,
    pub backend_code: Option<Seq<char>>,
    pub api_endpoint_schema: Option<Seq<RouteObject>>,
}

/// The view of a fact sheet.
pub open spec fn fs_view(fs: FactSheet) -> FactSheetView {
    FactSheetView {
        project_description: fs.project_description@,
        project_scope: fs.project_scope,
        external_urls: urls_view(fs.external_urls),
        backend_code: text_view(fs.backend_code),
        api_endpoint_schema: schema_view(fs.api_endpoint_schema),
    }
}

/// The two kinds of agent the roster can hold. What a step consumes,
/// returns and commits depends only on the kind and the recorded outcomes.
#[derive(Debug, Clone, Copy, PartialEq, Eq, Structural)]
pub enum AgentKind {
    Architect,
    Backend,
}

/// The kind of a roster agent.
pub open spec fn kind_of(a: AgentVariant) -> AgentKind {
    match a {
        AgentVariant::Architect(_) => AgentKind::Architect,
        AgentVariant::Backend(_) => AgentKind::Backend,
    }
}

/// The result one agent step yields from the outcomes at the front of
/// `rem`: the architect's scope request then, when the scope asks for them,
/// its URL request; the backend's code request then its routes request.
/// The first fatal request error is the step's error.
pub open spec fn step_result(kind: AgentKind, rem: Seq<TransportOutcome>) -> Result<
    (),
    AgentStepError,
> {
    match kind {
        AgentKind::Architect => match decoded_scope_result(rem) {
            Err(e) => Err(e),
            Ok(scope) => if scope.is_external_urls_required {
                match decoded_urls_result(rem.skip(request_consumed(rem))) {
                    Err(e) => Err(e),
                    Ok(_) => Ok(()),
                }
            } else {
                Ok(())
            },
        },
        AgentKind::Backend => match request_result(rem) {
            None => Err(AgentStepError::Transport),
            Some(_) => match decoded_routes_result(rem.skip(request_consumed(rem))) {
                Err(e) => Err(e),
                Ok(_) => Ok(()),
            },
        },
    }
}

/// The outcomes left after one agent step over `rem`.
pub open spec fn step_remaining(kind: AgentKind, rem: Seq<TransportOutcome>) -> Seq<
    TransportOutcome,
> {
    let rem1 = rem.skip(request_consumed(rem));
    match kind {
        AgentKind::Architect => match decoded_scope_result(rem) {
            Err(_) => rem1,
            Ok(scope) => if scope.is_external_urls_required {
                rem1.skip(request_consumed(rem1))
            } else {
                rem1
            },
        },
        AgentKind::Backend => match request_result(rem) {
            None => rem1,
            Some(_) => rem1.skip(request_consumed(rem1)),
        },
    }
}

/// The fact sheet after one agent step over `rem`: each decoded value is
/// committed as soon as its request succeeds, with no rollback when a later
/// request of the same step fails.
pub open spec fn step_fs(kind: AgentKind, v: FactSheetView, rem: Seq<TransportOutcome>) -> FactSheetView {
    match kind {
        AgentKind::Architect => match decoded_scope_result(rem) {
            Err(_) => v,
            Ok(scope) => {
                let v1 = FactSheetView { project_scope: Some(scope), ..v };
                if scope.is_external_urls_required {
                    match decoded_urls_result(rem.skip(request_consumed(rem))) {
                        Err(_) => v1,
                        Ok(urls) => FactSheetView { external_urls: Some(urls), ..v1 },
                    }
                } else {
                    v1
                }
            },
        },
        AgentKind::Backend => match request_result(rem) {
            None => v,
            Some(code) => {
                let v1 = FactSheetView { backend_code: Some(code), ..v };
                match decoded_routes_result(rem.skip(request_consumed(rem))) {
                    Err(_) => v1,
                    Ok(routes) => FactSheetView { api_endpoint_schema: Some(routes), ..v1 },
                }
            },
        },
    }
}

/// The context handed to the backend-code prompt: the reference code
/// template, the project description and the scope flags.
pub open spec fn backend_context(
    template: Seq<char>,
    description: Seq<char>,
    scope: Seq<char>,
) -> Seq<char> {
    "CODE_TEMPLATE: "@ + template + " PROJECT_DESCRIPTION: "@ + description
        + " PROJECT_SCOPE: "@ + scope
}

/// Renders the context handed to the backend-code prompt.
pub fn render_backend_context(
    template: &str,
    description: &str,
    scope: &Option<ProjectScope>,
) -> (r: String)
    ensures
        r@ == backend_context(template@, description@, scope_line(*scope)),
{
    let mut c = String::from_str("CODE_TEMPLATE: ");
    c.append(template);
    c.append(" PROJECT_DESCRIPTION: ");
    c.append(description);
    c.append(" PROJECT_SCOPE: ");
    let line = render_scope_line(scope);
    c.append(line.as_str());
    c
}

/// The agent that decides the architecture: it derives the scope flags from
/// the project description, and gathers the external URLs when the scope
/// asks for them. It owns `project_scope` and `external_urls`.
#[derive(Debug)]
pub struct AgentSolutionArchitect {
    pub attributes: BasicAgent,
}

impl AgentSolutionArchitect {
    pub fn new() -> (r: Self)
        ensures
            r.attributes.state == AgentState::Discovery,
            r.attributes.position@ == "Solutions Architect"@,
            r.attributes.objective@
                == "Gathers information and designs solutions for website development"@,
            r.attributes.memory@ == Seq::<crate::llm::Message>::empty(),
    {
        let attributes = BasicAgent {
            objective: String::from_str(
                "Gathers information and designs solutions for website development",
            ),
            position: String::from_str("Solutions Architect"),
            state: AgentState::Discovery,
            memory: Vec::new(),
        };
        AgentSolutionArchitect { attributes }
    }

    /// Runs the architecture workflow on the fact sheet: decode the scope,
    /// then the external URLs when the scope requires them. The first fatal
    /// request error halts the workflow; fields already committed stay.
    pub fn execute(&mut self, factsheet: &mut FactSheet, feed: &mut CompletionFeed) -> (r:
        Result<(), AgentStepError>)
        requires
            old(feed).wf(),
        ensures
            final(feed).wf(),
            final(self).attributes.position == old(self).attributes.position,
            final(self).attributes.objective == old(self).attributes.objective,
            old(self).attributes.memory@.is_prefix_of(final(self).attributes.memory@),
            final(factsheet).project_description == old(factsheet).project_description,
            final(factsheet).backend_code == old(factsheet).backend_code,
            final(factsheet).api_endpoint_schema == old(factsheet).api_endpoint_schema,
            r is Ok ==> final(self).attributes.state == AgentState::Finished,
            r is Ok ==> final(factsheet).project_scope is Some,
            r == step_result(AgentKind::Architect, old(feed).remaining()),
            final(feed).remaining() == step_remaining(
                AgentKind::Architect,
                old(feed).remaining(),
            ),
            fs_view(*final(factsheet)) == step_fs(
                AgentKind::Architect,
                fs_view(*old(factsheet)),
                old(feed).remaining(),
            ),
            ({
                let rem0 = old(feed).remaining();
                match decoded_scope_result(rem0) {
                    Err(e) => {
                        &&& r == Err::<(), AgentStepError>(e)
                        &&& *final(factsheet) == *old(factsheet)
                        &&& final(feed).remaining() == rem0.skip(request_consumed(rem0))
                    },
                    Ok(scope) => {
                        &&& final(factsheet).project_scope == Some(scope)
                        &&& ({
                            let rem1 = rem0.skip(request_consumed(rem0));
                            if scope.is_external_urls_required {
                                match decoded_urls_result(rem1) {
                                    Err(e) => {
                                        &&& r == Err::<(), AgentStepError>(e)
                                        &&& final(factsheet).external_urls == old(factsheet).external_urls
                                        &&& final(feed).remaining() == rem1.skip(
                                            request_consumed(rem1),
                                        )
                                    },
                                    Ok(urls) => {
                                        &&& r == Ok::<(), AgentStepError>(())
                                        &&& urls_view(final(factsheet).external_urls)
                                            == Some(urls)
                                        &&& final(feed).remaining() == rem1.skip(
                                            request_consumed(rem1),
                                        )
                                    },
                                }
                            } else {
                                &&& r == Ok::<(), AgentStepError>(())
                                &&& final(factsheet).external_urls == old(factsheet).external_urls
                                &&& final(feed).remaining() == rem1
                            }
                        })
                    },
                }
            }),
    {
        self.attributes.memory.push(
            extend_ai_function(
                AiFunction::PrintProjectScope,
                factsheet.project_description.as_str(),
            ),
        );
        let scope = match ai_task_request_scope(
            feed,
            factsheet.project_description.clone(),
            "Solutions Architect",
            "Defining project scope",
            AiFunction::PrintProjectScope,
        ) {
            Ok(scope) => scope,
            Err(e) => {
                return Err(e);
            },
        };
        factsheet.project_scope = Some(scope);
        self.attributes.state = AgentState::Working;
        if scope.is_external_urls_required {
            self.attributes.memory.push(
                extend_ai_function(
                    AiFunction::PrintSiteUrls,
                    factsheet.project_description.as_str(),
                ),
            );
            let urls = match ai_task_request_urls(
                feed,
                factsheet.project_description.clone(),
                "Solutions Architect",
                "Gathering external URLs",
                AiFunction::PrintSiteUrls,
            ) {
                Ok(urls) => urls,
                Err(e) => {
                    return Err(e);
                },
            };
            factsheet.external_urls = Some(urls);
        }
        self.attributes.state = AgentState::Finished;
        Ok(())
    }
}

/// The agent that writes the backend: it generates the backend code from
/// the description, the scope flags and the reference code template, then
/// extracts the endpoint schema from that code. It owns `backend_code` and
/// `api_endpoint_schema`.
#[derive(Debug)]
pub struct AgentBackendDeveloper {
    pub attributes: BasicAgent,
    pub code_template: String,
}

impl AgentBackendDeveloper {
    pub fn new(code_template: String) -> (r: Self)
        ensures
            r.attributes.state == AgentState::Discovery,
            r.attributes.position@ == "Backend Developer"@,
            r.attributes.objective@
                == "Develops backend code for webserver and json database"@,
            r.attributes.memory@ == Seq::<crate::llm::Message>::empty(),
            r.code_template == code_template,
    {
        let attributes = BasicAgent {
            objective: String::from_str(
                "Develops backend code for webserver and json database",
            ),
            position: String::from_str("Backend Developer"),
            state: AgentState::Discovery,
            memory: Vec::new(),
        };
        AgentBackendDeveloper { attributes, code_template }
    }

    /// The context this agent's code prompt carries.
    fn build_context(&self, factsheet: &FactSheet) -> (r: String)
        ensures
            r@ == backend_context(
                self.code_template@,
                factsheet.project_description@,
                scope_line(factsheet.project_scope),
            ),
    {
        render_backend_context(
            self.code_template.as_str(),
            factsheet.project_description.as_str(),
            &factsheet.project_scope,
        )
    }

    /// Runs the backend workflow on the fact sheet: generate the backend
    /// code, then decode the endpoint schema out of it. The first fatal
    /// request error halts the workflow; fields already committed stay.
    pub fn execute(&mut self, factsheet: &mut FactSheet, feed: &mut CompletionFeed) -> (r:
        Result<(), AgentStepError>)
        requires
            old(feed).wf(),
        ensures
            final(feed).wf(),
            final(self).attributes.position == old(self).attributes.position,
            final(self).attributes.objective == old(self).attributes.objective,
            final(self).code_template == old(self).code_template,
            old(self).attributes.memory@.is_prefix_of(final(self).attributes.memory@),
            final(factsheet).project_description == old(factsheet).project_description,
            final(factsheet).project_scope == old(factsheet).project_scope,
            final(factsheet).external_urls == old(factsheet).external_urls,
            r is Ok ==> final(self).attributes.state == AgentState::Finished,
            r is Ok ==> final(factsheet).backend_code is Some && final(factsheet).api_endpoint_schema is Some,
            r == step_result(AgentKind::Backend, old(feed).remaining()),
            final(feed).remaining() == step_remaining(
                AgentKind::Backend,
                old(feed).remaining(),
            ),
            fs_view(*final(factsheet)) == step_fs(
                AgentKind::Backend,
                fs_view(*old(factsheet)),
                old(feed).remaining(),
            ),
            ({
                let rem0 = old(feed).remaining();
                match request_result(rem0) {
                    None => {
                        &&& r == Err::<(), AgentStepError>(AgentStepError::Transport)
                        &&& *final(factsheet) == *old(factsheet)
                        &&& final(feed).remaining() == rem0.skip(request_consumed(rem0))
                    },
                    Some(code_text) => {
                        &&& text_view(final(factsheet).backend_code) == Some(code_text)
                        &&& ({
                            let rem1 = rem0.skip(request_consumed(rem0));
                            match decoded_routes_result(rem1) {
                                Err(e) => {
                                    &&& r == Err::<(), AgentStepError>(e)
                                    &&& final(factsheet).api_endpoint_schema == old(factsheet).api_endpoint_schema
                                    &&& final(feed).remaining() == rem1.skip(
                                        request_consumed(rem1),
                                    )
                                },
                                Ok(routes) => {
                                    &&& r == Ok::<(), AgentStepError>(())
                                    &&& final(factsheet).api_endpoint_schema is Some
                                    &&& final(factsheet).api_endpoint_schema.unwrap()@ == routes
                                    &&& final(feed).remaining() == rem1.skip(
                                        request_consumed(rem1),
                                    )
                                },
                            }
                        })
                    },
                }
            }),
    {
        let context = self.build_context(factsheet);
        self.attributes.memory.push(
            extend_ai_function(AiFunction::PrintBackendWebserverCode, context.as_str()),
        );
        let code = match ai_task_request(
            feed,
            context,
            "Backend Developer",
            "Writing backend code",
            AiFunction::PrintBackendWebserverCode,
        ) {
            Ok(code) => code,
            Err(_) => {
                return Err(AgentStepError::Transport);
            },
        };
        self.attributes.state = AgentState::Working;
        let routes_context = code.clone();
        factsheet.backend_code = Some(code);
        self.attributes.state = AgentState::UnitTesting;
        self.attributes.memory.push(
            extend_ai_function(AiFunction::PrintRestApiEndpoints, routes_context.as_str()),
        );
        let routes = match ai_task_request_routes(
            feed,
            routes_context,
            "Backend Developer",
            "Defining API endpoints",
            AiFunction::PrintRestApiEndpoints,
        ) {
            Ok(routes) => routes,
            Err(e) => {
                return Err(e);
            },
        };
        factsheet.api_endpoint_schema = Some(routes);
        self.attributes.state = AgentState::Finished;
        Ok(())
    }
}

/// The closed union of the roster's agent variants: the capability the
/// orchestrator drives. Every variant exposes its attributes read-only and
/// an exclusive-access step over the shared fact sheet.
#[derive(Debug)]
pub enum AgentVariant {
    Architect(AgentSolutionArchitect),
    Backend(AgentBackendDeveloper),
}

impl AgentVariant {
    /// Which variant this agent is.
    pub open spec fn is_architect(self) -> bool {
        self is Architect
    }

    /// The agent's introspectable attributes.
    pub open spec fn spec_attributes(self) -> BasicAgent {
        match self {
            AgentVariant::Architect(a) => a.attributes,
            AgentVariant::Backend(b) => b.attributes,
        }
    }

    /// The agent's runtime state.
    pub open spec fn state(self) -> AgentState {
        self.spec_attributes().state
    }

    /// The fact-sheet fields this agent owes once its step succeeds.
    pub open spec fn success_marks(self, factsheet: FactSheet) -> bool {
        match self {
            AgentVariant::Architect(_) => factsheet.project_scope is Some,
            AgentVariant::Backend(_) => factsheet.backend_code is Some
                && factsheet.api_endpoint_schema is Some,
        }
    }

    /// Read-only introspection of the agent's attributes.
    pub fn get_attributes_from_agent(&self) -> (r: &BasicAgent)
        ensures
            *r == self.spec_attributes(),
    {
        match self {
            AgentVariant::Architect(a) => &a.attributes,
            AgentVariant::Backend(b) => &b.attributes,
        }
    }

    /// Runs this agent's step with exclusive mutable access to the fact
    /// sheet. On success the agent finishes and its owned fields are set;
    /// whatever the result, the fields of the other variant and the project
    /// description are untouched.
    pub fn execute(&mut self, factsheet: &mut FactSheet, feed: &mut CompletionFeed) -> (r:
        Result<(), AgentStepError>)
        requires
            old(feed).wf(),
        ensures
            final(feed).wf(),
            final(self).is_architect() == old(self).is_architect(),
            kind_of(*final(self)) == kind_of(*old(self)),
            final(factsheet).project_description == old(factsheet).project_description,
            r == step_result(kind_of(*old(self)), old(feed).remaining()),
            final(feed).remaining() == step_remaining(
                kind_of(*old(self)),
                old(feed).remaining(),
            ),
            fs_view(*final(factsheet)) == step_fs(
                kind_of(*old(self)),
                fs_view(*old(factsheet)),
                old(feed).remaining(),
            ),
            r is Ok ==> final(self).state() == AgentState::Finished,
            r is Ok ==> final(self).success_marks(*final(factsheet)),
            old(self).is_architect() ==> final(factsheet).backend_code == old(factsheet).backend_code && final(factsheet).api_endpoint_schema == old(factsheet).api_endpoint_schema,
            !old(self).is_architect() ==> final(factsheet).project_scope == old(factsheet).project_scope && final(factsheet).external_urls == old(factsheet).external_urls,
    {
        match self {
            AgentVariant::Architect(a) => a.execute(factsheet, feed),
            AgentVariant::Backend(b) => b.execute(factsheet, feed),
        }
    }
}

} // verus!
