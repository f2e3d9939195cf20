//! Conversation messages and the wire shapes of the completion endpoint's
//! reply, together with the extraction of the reply text.

use vstd::prelude::*;

verus! {

/// One conversation turn: a role tag ("system", "user" or "assistant") and
/// the turn's text. Order within a conversation is meaningful and preserved.
#[derive(Debug, Clone)]
pub struct Message {
    pub role: String,
    pub content: String,
}

/// The message part of one choice in the endpoint's reply.
#[derive(Debug)]
pub struct APIMessage {
    pub content: String,
}

/// One choice in the endpoint's reply.
#[derive(Debug)]
pub struct APIChoice {
    pub message: APIMessage,
}

/// The endpoint's reply: an ordered list of choices.
#[derive(Debug)]
pub struct APIResponse {
    pub choices: Vec<APIChoice>,
}

/// The text of the first choice of a reply, or `None` when the reply holds
/// no choice at all.
pub fn first_choice_content(response: &APIResponse) -> (r: Option<String>)
    ensures
        match r {
            Some(s) => response.choices@.len() > 0 && s@ == response.choices@[0].message.content@,
            None => response.choices@.len() == 0,
        },
{
    if response.choices.len() > 0 {
        Some(response.choices[0].message.content.clone())
    } else {
        None
    }
}

} // verus!
