use agent_forge::agent_traits::{AgentStepError, FactSheet, ProjectScope};
use agent_forge::agents::{AgentBackendDeveloper, AgentSolutionArchitect, AgentVariant};
use agent_forge::basic_agent::AgentState;
use agent_forge::managing_agent::{run_roster, ManagingAgent, OrchestratorPhase};
use agent_forge::transport::{CompletionFeed, TransportOutcome};

fn text(s: &str) -> TransportOutcome {
    TransportOutcome::Text(String::from(s))
}

fn scope_json(crud: bool, login: bool, urls: bool) -> String {
    let mut s = String::from("{\"is_crud_required\": ");
    s.push_str(if crud { "true" } else { "false" });
    s.push_str(", \"is_user_login_required\": ");
    s.push_str(if login { "true" } else { "false" });
    s.push_str(", \"is_external_urls_required\": ");
    s.push_str(if urls { "true" } else { "false" });
    s.push_str("}");
    s
}

fn empty_factsheet(description: &str) -> FactSheet {
    FactSheet {
        project_description: String::from(description),
        project_scope: None,
        external_urls: None,
        backend_code: None,
        api_endpoint_schema: None,
    }
}

#[test]
fn tests_managing_agent() {
    let usr_req: &str = "give me the code for a full stack app that fetches and tracks my fitness progress. Needs to include Timezone";
    let mut feed = CompletionFeed::new(vec![
        text("A full stack fitness tracking app with timezone support"),
        text(&scope_json(true, true, false)),
        text("fn main() { run_fitness_backend(); }"),
        text("[]"),
    ]);
    let mut managing_agent: ManagingAgent = ManagingAgent::new(
        String::from(usr_req),
        String::from("reference template"),
        &mut feed,
    )
    .expect("Error creating ManagingAgent");

    managing_agent
        .execute_project(&mut feed)
        .expect("project should complete");

    assert_eq!(managing_agent.phase, OrchestratorPhase::Completed);
}

#[test]
fn description_is_set_once_and_never_overwritten() {
    let mut feed = CompletionFeed::new(vec![
        text("A to-do list API"),
        text(&scope_json(true, false, false)),
        text("fn main() {}"),
        text("[]"),
    ]);
    let ma = ManagingAgent::new(
        String::from("Build me a to-do list API"),
        String::from("template"),
        &mut feed,
    )
    .expect("init should succeed");
    // set before the first agent executes: the roster is still empty here
    assert_eq!(ma.agents.len(), 0);
    let description_before = ma.factsheet.project_description.clone();
    assert_eq!(description_before, String::from("A to-do list API"));

    let mut ma = ma;
    ma.execute_project(&mut feed).expect("run should complete");
    assert_eq!(ma.factsheet.project_description, description_before);
}

#[test]
fn initialization_fails_on_double_transport_failure() {
    let mut feed = CompletionFeed::new(vec![TransportOutcome::Failed, TransportOutcome::Failed]);
    let r = ManagingAgent::new(
        String::from("anything"),
        String::from("template"),
        &mut feed,
    );
    assert!(r.is_err());
}

#[test]
fn roster_halts_at_first_failing_agent_and_spy_is_never_invoked() {
    // roster: [always-succeed, always-fail, spy]
    let mut agents = vec![
        AgentVariant::Architect(AgentSolutionArchitect::new()),
        AgentVariant::Architect(AgentSolutionArchitect::new()),
        AgentVariant::Backend(AgentBackendDeveloper::new(String::from("template"))),
    ];
    let mut factsheet = empty_factsheet("a to-do API");
    // first architect succeeds; the second hits two transport failures
    let mut feed = CompletionFeed::new(vec![
        text(&scope_json(true, false, false)),
        TransportOutcome::Failed,
        TransportOutcome::Failed,
        text("an outcome reserved for the spy"),
    ]);

    let r = run_roster(&mut agents, &mut factsheet, &mut feed);
    assert_eq!(r, Err(AgentStepError::Transport));
    // the spy never ran: its state never left Discovery, its fields were
    // never written, and the outcome reserved for it was never consumed
    assert_eq!(agents[2].get_attributes_from_agent().state, AgentState::Discovery);
    assert_eq!(factsheet.backend_code, None);
    assert_eq!(factsheet.api_endpoint_schema, None);
    assert_eq!(feed.remaining_count(), 1);
    // the first agent did finish and committed its field
    assert_eq!(agents[0].get_attributes_from_agent().state, AgentState::Finished);
    assert!(factsheet.project_scope.is_some());
}

#[test]
fn architect_gathers_urls_when_scope_requires_them() {
    let mut architect = AgentSolutionArchitect::new();
    let mut factsheet = empty_factsheet("a weather dashboard");
    let mut feed = CompletionFeed::new(vec![
        text(&scope_json(false, false, true)),
        text("[\"https://weather.example.com\"]"),
    ]);
    architect
        .execute(&mut factsheet, &mut feed)
        .expect("architect should finish");
    assert_eq!(
        factsheet.external_urls,
        Some(vec![String::from("https://weather.example.com")])
    );
    assert_eq!(architect.attributes.state, AgentState::Finished);
}

#[test]
fn scope_line_renders_flags_exactly() {
    let line = agent_forge::agents::render_scope_line(&Some(ProjectScope {
        is_crud_required: true,
        is_user_login_required: false,
        is_external_urls_required: true,
    }));
    assert_eq!(
        line,
        String::from(
            "is_crud_required: true, is_user_login_required: false, is_external_urls_required: true"
        )
    );
    assert_eq!(agent_forge::agents::render_scope_line(&None), String::new());
}

#[test]
fn end_to_end_todo_list_api() {
    let routes_json = "[{\"is_route_dynamic\": \"false\", \"method\": \"post\", \
                       \"request_body\": {\"name\": \"string\"}, \"response\": {}, \"route\": \"/task\"}]";
    let mut feed = CompletionFeed::new(vec![
        text("A to-do list API with CRUD task management"),
        text(&scope_json(true, false, false)),
        text("fn main() { run_todo_backend(); }"),
        text(routes_json),
    ]);
    let mut ma = ManagingAgent::new(
        String::from("Build me a to-do list API"),
        String::from("reference template"),
        &mut feed,
    )
    .expect("Initializing should succeed");
    // Initializing yields a non-empty project description
    assert!(!ma.factsheet.project_description.is_empty());

    ma.execute_project(&mut feed).expect("run should complete");

    // roster = [Architect, BackendDeveloper]
    assert_eq!(ma.agents.len(), 2);
    assert_eq!(
        ma.agents[0].get_attributes_from_agent().position,
        String::from("Solutions Architect")
    );
    assert_eq!(
        ma.agents[1].get_attributes_from_agent().position,
        String::from("Backend Developer")
    );
    // the architect committed exactly the decoded scope
    assert_eq!(
        ma.factsheet.project_scope,
        Some(ProjectScope {
            is_crud_required: true,
            is_user_login_required: false,
            is_external_urls_required: false,
        })
    );
    // the backend developer read the scope and produced non-empty code
    let code = ma.factsheet.backend_code.clone().expect("backend code set");
    assert!(!code.is_empty());
    let schema = ma.factsheet.api_endpoint_schema.clone().expect("schema set");
    assert_eq!(schema.len(), 1);
    assert_eq!(schema[0].method, String::from("post"));
    // final state: Completed
    assert_eq!(ma.phase, OrchestratorPhase::Completed);
}

#[test]
fn backend_decode_failure_is_fatal_but_keeps_committed_code() {
    let mut backend = AgentBackendDeveloper::new(String::from("template"));
    let mut factsheet = empty_factsheet("an API");
    factsheet.project_scope = Some(ProjectScope {
        is_crud_required: true,
        is_user_login_required: false,
        is_external_urls_required: false,
    });
    let mut feed = CompletionFeed::new(vec![
        text("fn main() {}"),
        text("this is not a routes array"),
    ]);
    let r = backend.execute(&mut factsheet, &mut feed);
    assert_eq!(r, Err(AgentStepError::Decode));
    // no rollback: the code already committed stays
    assert_eq!(factsheet.backend_code, Some(String::from("fn main() {}")));
    assert_eq!(factsheet.api_endpoint_schema, None);
}
