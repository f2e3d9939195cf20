use agent_forge::command_line::{confirmation_choice, PrintCommand, StatementColor};
use agent_forge::decode::{
    decode_project_scope, decode_route, decode_routes, decode_string_list, parse_bool_literal,
};

#[test]
fn bool_literal_true_false_strict() {
    assert_eq!(parse_bool_literal("true"), Some(true));
    assert_eq!(parse_bool_literal("false"), Some(false));
    assert_eq!(parse_bool_literal("1"), None);
    assert_eq!(parse_bool_literal("True"), None);
    assert_eq!(parse_bool_literal(""), None);
}

#[test]
fn scope_decodes_from_json_object() {
    let text = "{\"is_crud_required\": true, \"is_user_login_required\": true, \"is_external_urls_required\": false}";
    let scope = decode_project_scope(text).expect("should decode");
    assert!(scope.is_crud_required);
    assert!(scope.is_user_login_required);
    assert!(!scope.is_external_urls_required);
    assert_eq!(decode_project_scope("[1, 2]"), None);
    assert_eq!(decode_project_scope("{\"is_crud_required\": true}"), None);
}

#[test]
fn string_list_decodes_from_json_array() {
    let items = decode_string_list("[\"a\", \"b\"]").expect("should decode");
    assert_eq!(items, vec![String::from("a"), String::from("b")]);
    assert_eq!(decode_string_list("{\"a\": 1}"), None);
}

#[test]
fn route_decodes_with_strict_boolean() {
    let text = "{\"is_route_dynamic\": \"true\", \"method\": \"get\", \
                \"request_body\": \"None\", \"response\": {\"id\": \"number\"}, \"route\": \"/task/{id}\"}";
    let route = decode_route(text).expect("should decode");
    assert!(route.is_route_dynamic);
    assert_eq!(route.method, String::from("get"));
    assert_eq!(route.route, String::from("/task/{id}"));
    assert!(route.response.contains("number"));

    let with_false = "{\"is_route_dynamic\": \"false\", \"method\": \"post\", \
                      \"request_body\": {}, \"response\": {}, \"route\": \"/task\"}";
    let route = decode_route(with_false).expect("should decode");
    assert!(!route.is_route_dynamic);

    // any literal besides "true"/"false" is a decode failure
    let with_one = "{\"is_route_dynamic\": \"1\", \"method\": \"post\", \
                    \"request_body\": {}, \"response\": {}, \"route\": \"/task\"}";
    assert_eq!(decode_route(with_one), None);
}

#[test]
fn routes_decode_as_whole_array() {
    let text = "[{\"is_route_dynamic\": \"false\", \"method\": \"post\", \
                \"request_body\": {\"name\": \"string\"}, \"response\": {}, \"route\": \"/task\"}, \
                {\"is_route_dynamic\": \"true\", \"method\": \"delete\", \
                \"request_body\": \"None\", \"response\": \"None\", \"route\": \"/task/{id}\"}]";
    let routes = decode_routes(text).expect("should decode");
    assert_eq!(routes.len(), 2);
    assert!(!routes[0].is_route_dynamic);
    assert!(routes[1].is_route_dynamic);
    assert_eq!(routes[1].method, String::from("delete"));

    // one bad literal poisons the whole schema
    let bad = "[{\"is_route_dynamic\": \"yes\", \"method\": \"get\", \
               \"request_body\": {}, \"response\": {}, \"route\": \"/task\"}]";
    assert_eq!(decode_routes(bad), None);
    // a non-array is a decode failure, an empty array is fine
    assert_eq!(decode_routes("{}"), None);
    assert_eq!(decode_routes("[]").expect("empty schema decodes").len(), 0);
}

#[test]
fn statement_colors_by_command() {
    assert_eq!(PrintCommand::AICall.statement_color(), StatementColor::Cyan);
    assert_eq!(PrintCommand::UnitTest.statement_color(), StatementColor::Magenta);
    assert_eq!(PrintCommand::Issue.statement_color(), StatementColor::Red);
}

#[test]
fn confirmation_answers() {
    assert_eq!(confirmation_choice("1"), Some(true));
    assert_eq!(confirmation_choice("ok"), Some(true));
    assert_eq!(confirmation_choice("y"), Some(true));
    assert_eq!(confirmation_choice("2"), Some(false));
    assert_eq!(confirmation_choice("no"), Some(false));
    assert_eq!(confirmation_choice("n"), Some(false));
    assert_eq!(confirmation_choice("maybe"), None);
    assert_eq!(confirmation_choice(""), None);
}
