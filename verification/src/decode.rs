//! Structured decoding of model output.
//!
//! The JSON reading itself is serde_json's work, reached through trusted
//! wrappers whose results carry uninterpreted names; everything the library
//! decides about the decoded values - above all the strict "true"/"false"
//! rule for `is_route_dynamic` - is verified here.

use vstd::prelude::*;

use crate::agent_traits::{ProjectScope, RouteObject};
use crate::general::str_eq;

verus! {

/// The strict boolean rule for route objects: exactly the literal "true"
/// and the literal "false" decode; every other string is a decode failure.
pub open spec fn bool_literal(s: Seq<char>) -> Option<bool> {
    if s == "true"@ {
        Some(true)
    } else if s == "false"@ {
        Some(false)
    } else {
        None
    }
}

/// Decodes a boolean from its literal string form, by the strict rule.
pub fn parse_bool_literal(s: &str) -> (r: Option<bool>)
    ensures
        r == bool_literal(s@),
{
    if str_eq(s, "true") {
        Some(true)
    } else if str_eq(s, "false") {
        Some(false)
    } else {
        None
    }
}

/// What serde_json reads out of a scope reply: the three boolean fields,
/// or nothing when the text is not such an object.
pub uninterp spec fn scope_json_of(s: Seq<char>) -> Option<ProjectScope>;

/// Relies on serde_json::from_str and serde_json::Value's `get`/`as_bool`
/// accessors: reads a JSON object carrying the three scope flags as JSON
/// booleans. The result depends on the text alone.
#[verifier::external_body]
fn parse_scope_json(text: &str) -> (r: Option<ProjectScope>)
    ensures
        r == scope_json_of(text@),
{
    let v: serde_json::Value = match serde_json::from_str(text) {
        Ok(v) => v,
        Err(_) => return None,
    };
    Some(ProjectScope {
        is_crud_required: v.get("is_crud_required")?.as_bool()?,
        is_user_login_required: v.get("is_user_login_required")?.as_bool()?,
        is_external_urls_required: v.get("is_external_urls_required")?.as_bool()?,
    })
}

/// Decodes the project scope from a model reply.
pub fn decode_project_scope(text: &str) -> (r: Option<ProjectScope>)
    ensures
        r == scope_json_of(text@),
{
    parse_scope_json(text)
}

/// What serde_json reads out of a JSON array of strings, or nothing when
/// the text is not such an array.
pub uninterp spec fn string_list_of(s: Seq<char>) -> Option<Seq<Seq<char>>>;

/// Relies on serde_json::from_str::<Vec<String>>: reads a JSON array of
/// strings. The result depends on the text alone.
#[verifier::external_body]
fn parse_string_list(text: &str) -> (r: Option<Vec<String>>)
    ensures
        match r {
            Some(items) => string_list_of(text@) == Some(
                items@.map_values(|s: String| s@),
            ),
            None => string_list_of(text@) is None,
        },
{
    serde_json::from_str::<Vec<String>>(text).ok()
}

/// Decodes a list of URL strings from a model reply.
pub fn decode_string_list(text: &str) -> (r: Option<Vec<String>>)
    ensures
        match r {
            Some(items) => string_list_of(text@) == Some(
                items@.map_values(|s: String| s@),
            ),
            None => string_list_of(text@) is None,
        },
{
    parse_string_list(text)
}

/// The raw parts of one route object as the JSON holds them:
/// `is_route_dynamic` still the literal string it carried, the opaque
/// `request_body` and `response` values as their JSON text.
#[derive(Debug)]
pub struct RouteParts {
    pub is_route_dynamic: String,
    pub method: String,
    pub request_body: String,
    pub response: String,
    pub route: String,
}

/// What serde_json splits a JSON array into: the JSON text of each element
/// in order, or nothing when the text is not an array.
pub uninterp spec fn json_array_items_of(s: Seq<char>) -> Option<Seq<Seq<char>>>;

/// Relies on serde_json::from_str::<Vec<serde_json::Value>> and
/// serde_json::Value::to_string: splits a JSON array into the JSON text of
/// its elements, in order. The result depends on the text alone.
#[verifier::external_body]
fn parse_json_array(text: &str) -> (r: Option<Vec<String>>)
    ensures
        match r {
            Some(items) => json_array_items_of(text@) == Some(
                items@.map_values(|s: String| s@),
            ),
            None => json_array_items_of(text@) is None,
        },
{
    match serde_json::from_str::<Vec<serde_json::Value>>(text) {
        Ok(values) => Some(values.iter().map(|v| v.to_string()).collect()),
        Err(_) => None,
    }
}

/// What serde_json reads out of one route object's JSON text, or nothing
/// when the text is not an object with the five route fields, with
/// `is_route_dynamic` and the texts as strings.
pub uninterp spec fn route_parts_of(s: Seq<char>) -> Option<RouteParts>;

/// Relies on serde_json::from_str and serde_json::Value's accessors: reads
/// one route object, keeping `is_route_dynamic` as the literal string it
/// held and the opaque values as their JSON text. The result depends on the
/// text alone.
#[verifier::external_body]
fn parse_route_parts(text: &str) -> (r: Option<RouteParts>)
    ensures
        r == route_parts_of(text@),
{
    let v: serde_json::Value = match serde_json::from_str(text) {
        Ok(v) => v,
        Err(_) => return None,
    };
    Some(RouteParts {
        is_route_dynamic: v.get("is_route_dynamic")?.as_str()?.to_string(),
        method: v.get("method")?.as_str()?.to_string(),
        request_body: v.get("request_body")?.to_string(),
        response: v.get("response")?.to_string(),
        route: v.get("route")?.as_str()?.to_string(),
    })
}

/// One route object decoded from its JSON text: the raw parts, with the
/// strict boolean rule applied to `is_route_dynamic`.
pub open spec fn route_decoded(item: Seq<char>) -> Option<RouteObject> {
    match route_parts_of(item) {
        None => None,
        Some(parts) => match bool_literal(parts.is_route_dynamic@) {
            None => None,
            Some(dynamic) => Some(
                RouteObject {
                    is_route_dynamic: dynamic,
                    method: parts.method,
                    request_body: parts.request_body,
                    response: parts.response,
                    route: parts.route,
                },
            ),
        },
    }
}

/// Decodes one route object from its JSON text.
pub fn decode_route(item: &str) -> (r: Option<RouteObject>)
    ensures
        r == route_decoded(item@),
{
    match parse_route_parts(item) {
        None => None,
        Some(parts) => match parse_bool_literal(parts.is_route_dynamic.as_str()) {
            None => None,
            Some(dynamic) => Some(
                RouteObject {
                    is_route_dynamic: dynamic,
                    method: parts.method,
                    request_body: parts.request_body,
                    response: parts.response,
                    route: parts.route,
                },
            ),
        },
    }
}

/// The whole endpoint schema decoded from a model reply: every element of
/// the JSON array decoded as a route object, or nothing as soon as the
/// array or any one element fails to decode.
pub open spec fn routes_decoded(s: Seq<char>) -> Option<Seq<RouteObject>> {
    match json_array_items_of(s) {
        None => None,
        Some(items) => if forall|j: int|
            0 <= j < items.len() ==> route_decoded(items[j]) is Some {
            Some(Seq::new(items.len(), |j: int| route_decoded(items[j]).unwrap()))
        } else {
            None
        },
    }
}

/// Decodes the endpoint schema from a model reply.
pub fn decode_routes(text: &str) -> (r: Option<Vec<RouteObject>>)
    ensures
        match r {
            Some(routes) => routes_decoded(text@) == Some(routes@),
            None => routes_decoded(text@) is None,
        },
{
    let items: Vec<String> = match parse_json_array(text) {
        Some(items) => items,
        None => {
            return None;
        },
    };
    let ghost sitems = items@.map_values(|s: String| s@);
    let mut routes: Vec<RouteObject> = Vec::new();
    let mut i: usize = 0;
    while i < items.len()
        invariant
            i <= items.len(),
            json_array_items_of(text@) == Some(sitems),
            sitems == items@.map_values(|s: String| s@),
            routes@.len() == i,
            forall|j: int| 0 <= j < i ==> route_decoded(sitems[j]) == Some(routes@[j]),
        decreases items.len() - i,
    {
        match decode_route(items[i].as_str()) {
            Some(route) => {
                routes.push(route);
            },
            None => {
                proof {
                    assert(route_decoded(sitems[i as int]) is None);
                }
                return None;
            },
        }
        i = i + 1;
    }
    proof {
        assert(Seq::new(sitems.len(), |j: int| route_decoded(sitems[j]).unwrap())
            =~= routes@);
    }
    Some(routes)
}

} // verus!
