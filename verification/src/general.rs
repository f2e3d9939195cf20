//! Prompt construction and the retrying task requester.
//!
//! `extend_ai_function` turns a named instruction template plus free text
//! into the single system-role message a task request sends.
//! `ai_task_request` performs one task request over a `CompletionFeed`:
//! it uses the first recorded outcome, retries exactly once after a failure,
//! and surfaces a `TransportError` when the retry fails too.

use vstd::prelude::*;

use crate::agent_traits::{AgentStepError, ProjectScope, RouteObject};
use crate::ai_functions::AiFunction;
use crate::decode::{
    decode_project_scope, decode_routes, decode_string_list, routes_decoded, scope_json_of,
    string_list_of,
};
use crate::llm::Message;
use crate::transport::{
    request_consumed, request_result, CompletionFeed, TransportError, TransportOutcome,
};

verus! {

/// Whether two string slices hold the same characters.
pub fn str_eq(a: &str, b: &str) -> (r: bool)
    ensures
        r == (a@ == b@),
{
    let a_owned: String = a.to_owned();
    let b_owned: String = b.to_owned();
    a_owned == b_owned
}

/// The full content of the prompt built from a template and its input: the
/// rendered template, the instruction that pins the model to printing only
/// the function's result, then the literal input.
pub open spec fn prompt_content(ai_func: AiFunction, func_input: Seq<char>) -> Seq<char> {
    "FUNCTION: "@ + ai_func.spec_render()
        + "\n    INSTRUCTION: You are a function printer. You ONLY print the results of functions.\n    Nothing else. No commentary. Here is the input to the function: "@
        + func_input
}

/// Builds the one system-role message of a task request: the rendered
/// template, an instruction to print only the function's result, and the
/// literal input.
pub fn extend_ai_function(ai_func: AiFunction, func_input: &str) -> (msg: Message)
    ensures
        msg.role@ == "system"@,
        msg.content@ == prompt_content(ai_func, func_input@),
{
    let mut content: String = String::from_str("FUNCTION: ");
    content.append(ai_func.render());
    content.append(
        "\n    INSTRUCTION: You are a function printer. You ONLY print the results of functions.\n    Nothing else. No commentary. Here is the input to the function: ",
    );
    content.append(func_input);
    Message { role: String::from_str("system"), content }
}

/// The prompt embeds both the rendered template and the literal input: the
/// template starts right after the leading tag, and the input is the
/// prompt's final segment.
pub proof fn lemma_prompt_embeds(ai_func: AiFunction, func_input: Seq<char>)
    ensures
        ({
            let c = prompt_content(ai_func, func_input);
            let start = "FUNCTION: "@.len() as int;
            c.subrange(start, start + ai_func.spec_render().len() as int) == ai_func.spec_render()
        }),
        ({
            let c = prompt_content(ai_func, func_input);
            c.subrange(c.len() - func_input.len(), c.len() as int) == func_input
        }),
{
    let c = prompt_content(ai_func, func_input);
    let start = "FUNCTION: "@.len() as int;
    assert(c.subrange(start, start + ai_func.spec_render().len() as int)
        =~= ai_func.spec_render());
    assert(c.subrange(c.len() - func_input.len(), c.len() as int) =~= func_input);
}

/// Performs one task request over the feed: builds the conversation from the
/// template and the context, takes the first recorded outcome, retries
/// exactly once after a transport failure, and fails with `TransportError`
/// when the second attempt fails too. At most two outcomes are consumed.
/// One status line (`agent_role` plus `agent_operation`) belongs on the
/// caller's console before the send.
pub fn ai_task_request(
    feed: &mut CompletionFeed,
    msg_context: String,
    agent_role: &str,
    agent_operation: &str,
    passed_function: AiFunction,
) -> (r: Result<String, TransportError>)
    requires
        old(feed).wf(),
    ensures
        final(feed).wf(),
        final(feed).remaining() == old(feed).remaining().skip(
            request_consumed(old(feed).remaining()),
        ),
        final(feed).consumed() == old(feed).consumed() + request_consumed(
            old(feed).remaining(),
        ),
        request_consumed(old(feed).remaining()) <= 2,
        match r {
            Ok(t) => request_result(old(feed).remaining()) == Some(t@),
            Err(_) => request_result(old(feed).remaining()) is None,
        },
{
    // the conversation this request stands for: the caller sent it to the
    // endpoint, under the status line named by `agent_role` and
    // `agent_operation`, and recorded the outcomes the feed now holds
    let extended_msg: Message = extend_ai_function(passed_function, msg_context.as_str());
    let _conversation: Vec<Message> = vec![extended_msg];
    let first = feed.take();
    proof {
        if old(feed).remaining().len() > 0 {
            assert(feed.remaining() =~= old(feed).remaining().skip(1));
        } else {
            assert(feed.remaining() =~= old(feed).remaining().skip(0));
        }
    }
    match first {
        Some(TransportOutcome::Text(t)) => Ok(t),
        Some(TransportOutcome::Failed) => {
            let ghost rem1 = feed.remaining();
            let second = feed.take();
            proof {
                if rem1.len() > 0 {
                    assert(feed.remaining() =~= old(feed).remaining().skip(2));
                }
            }
            match second {
                Some(TransportOutcome::Text(t)) => Ok(t),
                _ => Err(TransportError {}),
            }
        },
        None => Err(TransportError {}),
    }
}

/// What a scope-decoding task request yields from the front of `rem`:
/// a transport failure once both attempts fail, a decode failure when the
/// reply text is not a scope object (never retried), else the scope.
pub open spec fn decoded_scope_result(rem: Seq<TransportOutcome>) -> Result<
    ProjectScope,
    AgentStepError,
> {
    match request_result(rem) {
        None => Err(AgentStepError::Transport),
        Some(t) => match scope_json_of(t) {
            None => Err(AgentStepError::Decode),
            Some(scope) => Ok(scope),
        },
    }
}

/// A task request whose reply is decoded as the project scope. Decode
/// failure is immediately fatal and never retried: it signals a template
/// defect, not transient noise, and no default value is ever substituted.
pub fn ai_task_request_scope(
    feed: &mut CompletionFeed,
    msg_context: String,
    agent_role: &str,
    agent_operation: &str,
    passed_function: AiFunction,
) -> (r: Result<ProjectScope, AgentStepError>)
    requires
        old(feed).wf(),
    ensures
        final(feed).wf(),
        final(feed).remaining() == old(feed).remaining().skip(
            request_consumed(old(feed).remaining()),
        ),
        r == decoded_scope_result(old(feed).remaining()),
{
    match ai_task_request(feed, msg_context, agent_role, agent_operation, passed_function) {
        Err(_) => Err(AgentStepError::Transport),
        Ok(t) => match decode_project_scope(t.as_str()) {
            None => Err(AgentStepError::Decode),
            Some(scope) => Ok(scope),
        },
    }
}

/// What a URL-list-decoding task request yields from the front of `rem`.
pub open spec fn decoded_urls_result(rem: Seq<TransportOutcome>) -> Result<
    Seq<Seq<char>>,
    AgentStepError,
> {
    match request_result(rem) {
        None => Err(AgentStepError::Transport),
        Some(t) => match string_list_of(t) {
            None => Err(AgentStepError::Decode),
            Some(urls) => Ok(urls),
        },
    }
}

/// A task request whose reply is decoded as a JSON array of URL strings.
/// Decode failure is immediately fatal and never retried.
pub fn ai_task_request_urls(
    feed: &mut CompletionFeed,
    msg_context: String,
    agent_role: &str,
    agent_operation: &str,
    passed_function: AiFunction,
) -> (r: Result<Vec<String>, AgentStepError>)
    requires
        old(feed).wf(),
    ensures
        final(feed).wf(),
        final(feed).remaining() == old(feed).remaining().skip(
            request_consumed(old(feed).remaining()),
        ),
        match r {
            Ok(urls) => decoded_urls_result(old(feed).remaining()) == Ok::<
                Seq<Seq<char>>,
                AgentStepError,
            >(urls@.map_values(|s: String| s@)),
            Err(e) => decoded_urls_result(old(feed).remaining()) == Err::<
                Seq<Seq<char>>,
                AgentStepError,
            >(e),
        },
{
    match ai_task_request(feed, msg_context, agent_role, agent_operation, passed_function) {
        Err(_) => Err(AgentStepError::Transport),
        Ok(t) => match decode_string_list(t.as_str()) {
            None => Err(AgentStepError::Decode),
            Some(urls) => Ok(urls),
        },
    }
}

/// What a route-decoding task request yields from the front of `rem`.
pub open spec fn decoded_routes_result(rem: Seq<TransportOutcome>) -> Result<
    Seq<RouteObject>,
    AgentStepError,
> {
    match request_result(rem) {
        None => Err(AgentStepError::Transport),
        Some(t) => match routes_decoded(t) {
            None => Err(AgentStepError::Decode),
            Some(routes) => Ok(routes),
        },
    }
}

/// A task request whose reply is decoded as the endpoint schema. Decode
/// failure is immediately fatal and never retried.
pub fn ai_task_request_routes(
    feed: &mut CompletionFeed,
    msg_context: String,
    agent_role: &str,
    agent_operation: &str,
    passed_function: AiFunction,
) -> (r: Result<Vec<RouteObject>, AgentStepError>)
    requires
        old(feed).wf(),
    ensures
        final(feed).wf(),
        final(feed).remaining() == old(feed).remaining().skip(
            request_consumed(old(feed).remaining()),
        ),
        match r {
            Ok(routes) => decoded_routes_result(old(feed).remaining()) == Ok::<
                Seq<RouteObject>,
                AgentStepError,
            >(routes@),
            Err(e) => decoded_routes_result(old(feed).remaining()) == Err::<
                Seq<RouteObject>,
                AgentStepError,
            >(e),
        },
{
    match ai_task_request(feed, msg_context, agent_role, agent_operation, passed_function) {
        Err(_) => Err(AgentStepError::Transport),
        Ok(t) => match decode_routes(t.as_str()) {
            None => Err(AgentStepError::Decode),
            Some(routes) => Ok(routes),
        },
    }
}

} // verus!
