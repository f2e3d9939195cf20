use agent_forge::agent_traits::AgentStepError;
use agent_forge::ai_functions::AiFunction;
use agent_forge::general::{
    ai_task_request, ai_task_request_routes, ai_task_request_scope, ai_task_request_urls,
    extend_ai_function,
};
use agent_forge::llm::{APIChoice, APIMessage, APIResponse, first_choice_content};
use agent_forge::transport::{CompletionFeed, TransportOutcome};

fn feed_of(outcomes: Vec<TransportOutcome>) -> CompletionFeed {
    CompletionFeed::new(outcomes)
}

#[test]
fn tests_extending_ai_func() {
    let extended_msg = extend_ai_function(AiFunction::ConvertUserInputToGoal, "something something");
    assert_eq!(extended_msg.role, String::from("system"));
}

#[test]
fn tests_ai_task_request() {
    let ai_func_param: String = String::from("Make me a webserver for a streaming website");
    let mut feed = feed_of(vec![TransportOutcome::Text(String::from(
        "Build a streaming site backend with user accounts",
    ))]);
    let result = ai_task_request(
        &mut feed,
        ai_func_param,
        "Managing Agent",
        "Defining user requirements",
        AiFunction::ConvertUserInputToGoal,
    );

    assert!(result.expect("request should succeed").len() > 20);
}

#[test]
fn prompt_content_is_exactly_the_formula() {
    let msg = extend_ai_function(AiFunction::ConvertUserInputToGoal, "a to-do app");
    let expected = format!(
        "FUNCTION: {}
    INSTRUCTION: You are a function printer. You ONLY print the results of functions.
    Nothing else. No commentary. Here is the input to the function: {}",
        AiFunction::ConvertUserInputToGoal.render(),
        "a to-do app",
    );
    assert_eq!(msg.content, expected);
}

#[test]
fn request_on_empty_feed_is_a_transport_failure() {
    let mut feed = feed_of(Vec::new());
    let r = ai_task_request(
        &mut feed,
        String::from("ctx"),
        "role",
        "op",
        AiFunction::ConvertUserInputToGoal,
    );
    assert!(r.is_err());
}

#[test]
fn prompt_contains_template_and_input() {
    let msg = extend_ai_function(AiFunction::PrintProjectScope, "a crud api");
    assert!(msg.content.contains("print_project_scope"));
    assert!(msg.content.contains("a crud api"));
    assert!(msg.content.contains("function printer"));
}

#[test]
fn request_uses_first_success() {
    let mut feed = feed_of(vec![
        TransportOutcome::Text(String::from("first")),
        TransportOutcome::Text(String::from("second")),
    ]);
    let r = ai_task_request(
        &mut feed,
        String::from("ctx"),
        "role",
        "op",
        AiFunction::ConvertUserInputToGoal,
    );
    assert_eq!(r.expect("should succeed"), String::from("first"));
    assert_eq!(feed.remaining_count(), 1);
}

#[test]
fn request_retries_once_then_succeeds() {
    let mut feed = feed_of(vec![
        TransportOutcome::Failed,
        TransportOutcome::Text(String::from("recovered")),
        TransportOutcome::Text(String::from("spare")),
    ]);
    let r = ai_task_request(
        &mut feed,
        String::from("ctx"),
        "role",
        "op",
        AiFunction::ConvertUserInputToGoal,
    );
    assert_eq!(r.expect("retry should succeed"), String::from("recovered"));
    // at most two attempts: the third recorded outcome was never touched
    assert_eq!(feed.remaining_count(), 1);
}

#[test]
fn request_fails_after_two_failures() {
    let mut feed = feed_of(vec![
        TransportOutcome::Failed,
        TransportOutcome::Failed,
        TransportOutcome::Text(String::from("never reached")),
    ]);
    let r = ai_task_request(
        &mut feed,
        String::from("ctx"),
        "role",
        "op",
        AiFunction::ConvertUserInputToGoal,
    );
    assert!(r.is_err());
    assert_eq!(feed.remaining_count(), 1);
}

#[test]
fn decoded_request_never_defaults_on_malformed_text() {
    let mut feed = feed_of(vec![TransportOutcome::Text(String::from("not json at all"))]);
    let r = ai_task_request_scope(
        &mut feed,
        String::from("ctx"),
        "role",
        "op",
        AiFunction::PrintProjectScope,
    );
    assert_eq!(r, Err(AgentStepError::Decode));

    let mut feed = feed_of(vec![TransportOutcome::Text(String::from("still not json"))]);
    let r = ai_task_request_urls(
        &mut feed,
        String::from("ctx"),
        "role",
        "op",
        AiFunction::PrintSiteUrls,
    );
    assert_eq!(r, Err(AgentStepError::Decode));

    let mut feed = feed_of(vec![TransportOutcome::Text(String::from("{}"))]);
    let r = ai_task_request_routes(
        &mut feed,
        String::from("ctx"),
        "role",
        "op",
        AiFunction::PrintRestApiEndpoints,
    );
    assert_eq!(r, Err(AgentStepError::Decode));
}

#[test]
fn decoded_request_transport_error_after_retry() {
    let mut feed = feed_of(vec![TransportOutcome::Failed, TransportOutcome::Failed]);
    let r = ai_task_request_scope(
        &mut feed,
        String::from("ctx"),
        "role",
        "op",
        AiFunction::PrintProjectScope,
    );
    assert_eq!(r, Err(AgentStepError::Transport));
}

#[test]
fn decoded_scope_request_reads_real_json() {
    let scope_json = String::from(
        "{\"is_crud_required\": true, \"is_user_login_required\": false, \"is_external_urls_required\": true}",
    );
    let mut feed = feed_of(vec![TransportOutcome::Text(scope_json)]);
    let scope = ai_task_request_scope(
        &mut feed,
        String::from("ctx"),
        "role",
        "op",
        AiFunction::PrintProjectScope,
    )
    .expect("scope should decode");
    assert!(scope.is_crud_required);
    assert!(!scope.is_user_login_required);
    assert!(scope.is_external_urls_required);
}

#[test]
fn decoded_urls_request_reads_real_json() {
    let urls_json = String::from("[\"https://api.example.com\", \"https://time.example.org\"]");
    let mut feed = feed_of(vec![TransportOutcome::Text(urls_json)]);
    let urls = ai_task_request_urls(
        &mut feed,
        String::from("ctx"),
        "role",
        "op",
        AiFunction::PrintSiteUrls,
    )
    .expect("urls should decode");
    assert_eq!(
        urls,
        vec![
            String::from("https://api.example.com"),
            String::from("https://time.example.org"),
        ]
    );
}

#[test]
fn first_choice_content_reads_first_choice() {
    let response = APIResponse {
        choices: vec![
            APIChoice { message: APIMessage { content: String::from("alpha") } },
            APIChoice { message: APIMessage { content: String::from("beta") } },
        ],
    };
    assert_eq!(first_choice_content(&response), Some(String::from("alpha")));
    let empty = APIResponse { choices: Vec::new() };
    assert_eq!(first_choice_content(&empty), None);
}
