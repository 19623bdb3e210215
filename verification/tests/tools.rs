use agent_core::encoding::percent_encode;
use agent_core::errors::AppError;
use agent_core::models::{
    CliToolConfig, CypherToolConfig, HttpToolConfig, ToolDefinition, ToolType,
};
use agent_core::tools::{
    decode_graph_request, graph_result, http_result, http_verb, neighborhood_result,
    observation_of, plan_tool_call, resolve_url, verb_for, ArgValue, GraphRequest, HttpVerb,
    TaskOutcome, ToolAction, ToolArg, ToolArgs,
};

fn text_arg(key: &str, value: &str) -> ToolArg {
    ToolArg { key: key.to_string(), value: ArgValue::Text(value.to_string()) }
}

fn other_arg(key: &str, json: &str) -> ToolArg {
    ToolArg { key: key.to_string(), value: ArgValue::Other(json.to_string()) }
}

fn args(entries: Vec<ToolArg>) -> ToolArgs {
    ToolArgs { entries }
}

fn definition(implementation: ToolType) -> ToolDefinition {
    ToolDefinition {
        id: "t".to_string(),
        name: "Tool".to_string(),
        description: "A tool".to_string(),
        input_schema: "{}".to_string(),
        implementation,
    }
}

fn http_tool(method: &str, url: &str, body: Option<&str>) -> ToolDefinition {
    definition(ToolType::Http(HttpToolConfig {
        method: method.to_string(),
        url: url.to_string(),
        headers: None,
        body_template: body.map(|b| b.to_string()),
    }))
}

#[test]
fn http_url_is_filled_with_the_encoded_argument() {
    let a = args(vec![text_arg("city", "San Francisco")]);
    assert_eq!(resolve_url("https://x/{{input.city}}", &a), "https://x/San%20Francisco");
}

#[test]
fn percent_encode_keeps_letters_digits_and_four_marks() {
    assert_eq!(percent_encode("AZaz09*-._"), "AZaz09*-._");
}

#[test]
fn percent_encode_escapes_the_rest() {
    assert_eq!(percent_encode(" "), "%20");
    assert_eq!(percent_encode("+"), "%2B");
    assert_eq!(percent_encode("a b+c"), "a%20b%2Bc");
    assert_eq!(percent_encode("/?&="), "%2F%3F%26%3D");
    assert_eq!(percent_encode("~"), "%7E");
    assert_eq!(percent_encode("é"), "%C3%A9");
    assert_eq!(percent_encode(""), "");
}

#[test]
fn url_without_arguments_is_the_template() {
    assert_eq!(resolve_url("https://x/{{input.city}}", &args(vec![])), "https://x/{{input.city}}");
}

#[test]
fn url_takes_every_occurrence_and_every_argument() {
    let a = args(vec![text_arg("a", "1"), text_arg("b", "x y")]);
    assert_eq!(
        resolve_url("h://{{input.a}}/{{input.b}}?again={{input.a}}", &a),
        "h://1/x%20y?again=1"
    );
}

#[test]
fn url_writes_other_values_as_their_json_text() {
    let a = args(vec![other_arg("n", "42"), other_arg("f", "true"), other_arg("l", "[1,2]")]);
    assert_eq!(
        resolve_url("h://{{input.n}}/{{input.f}}/{{input.l}}", &a),
        "h://42/true/%5B1%2C2%5D"
    );
}

#[test]
fn url_leaves_unknown_placeholders() {
    let a = args(vec![text_arg("a", "1")]);
    assert_eq!(resolve_url("h://{{input.b}}", &a), "h://{{input.b}}");
}

#[test]
fn verb_is_read_from_the_method() {
    assert_eq!(verb_for("POST"), HttpVerb::Post);
    assert_eq!(verb_for("PUT"), HttpVerb::Put);
    assert_eq!(verb_for("GET"), HttpVerb::Get);
    assert_eq!(verb_for("DELETE"), HttpVerb::Get);
    assert_eq!(verb_for(""), HttpVerb::Get);
    assert_eq!(verb_for("post"), HttpVerb::Get);
}

#[test]
fn verb_ignores_the_case_of_the_method() {
    assert_eq!(http_verb("post"), HttpVerb::Post);
    assert_eq!(http_verb("Put"), HttpVerb::Put);
    assert_eq!(http_verb("get"), HttpVerb::Get);
    assert_eq!(http_verb("patch"), HttpVerb::Get);
}

#[test]
fn http_tool_plans_its_request() {
    let t = http_tool("post", "https://x/{{input.city}}", Some("{}"));
    let a = args(vec![text_arg("city", "San Francisco")]);
    match plan_tool_call(&t, false, &a) {
        ToolAction::CallHttp(call) => {
            assert_eq!(call.verb, HttpVerb::Post);
            assert_eq!(call.url, "https://x/San%20Francisco");
            assert!(call.with_body);
        }
        other => panic!("unexpected action {:?}", other),
    }
    let t = http_tool("GET", "https://x/", None);
    match plan_tool_call(&t, true, &a) {
        ToolAction::CallHttp(call) => {
            assert_eq!(call.verb, HttpVerb::Get);
            assert_eq!(call.url, "https://x/");
            assert!(!call.with_body);
        }
        other => panic!("unexpected action {:?}", other),
    }
}

#[test]
fn command_line_tool_is_always_refused() {
    let t = definition(ToolType::Cli(CliToolConfig { command: "ls".to_string() }));
    let inputs = vec![
        args(vec![]),
        args(vec![text_arg("query", "MATCH (n) RETURN n")]),
        args(vec![text_arg("action", "get_schema"), other_arg("x", "1")]),
    ];
    for a in inputs {
        for has_repository in [false, true] {
            match plan_tool_call(&t, has_repository, &a) {
                ToolAction::Refuse(AppError::ConfigError(m)) => {
                    assert_eq!(m, "CLI tools disabled")
                }
                other => panic!("unexpected action {:?}", other),
            }
        }
    }
}

#[test]
fn graph_request_is_read_from_the_arguments() {
    let schema = args(vec![text_arg("action", "get_schema")]);
    assert!(matches!(decode_graph_request(&schema), Some(GraphRequest::GetSchema)));
    let query = args(vec![text_arg("query", "MATCH (n) RETURN n")]);
    match decode_graph_request(&query) {
        Some(GraphRequest::RunQuery(q)) => assert_eq!(q, "MATCH (n) RETURN n"),
        other => panic!("unexpected request {:?}", other),
    }
    let concept = args(vec![text_arg("concept_name", "Ansiedad")]);
    match decode_graph_request(&concept) {
        Some(GraphRequest::GetNeighborhood(c)) => assert_eq!(c, "Ansiedad"),
        other => panic!("unexpected request {:?}", other),
    }
}

#[test]
fn graph_request_prefers_schema_then_query() {
    let all = args(vec![
        text_arg("concept_name", "Ansiedad"),
        text_arg("query", "Q"),
        text_arg("action", "get_schema"),
    ]);
    assert!(matches!(decode_graph_request(&all), Some(GraphRequest::GetSchema)));
    let two = args(vec![text_arg("concept_name", "Ansiedad"), text_arg("query", "Q")]);
    assert!(matches!(decode_graph_request(&two), Some(GraphRequest::RunQuery(_))));
}

#[test]
fn graph_request_needs_string_values() {
    assert!(decode_graph_request(&args(vec![])).is_none());
    assert!(decode_graph_request(&args(vec![text_arg("action", "other")])).is_none());
    assert!(decode_graph_request(&args(vec![other_arg("query", "42")])).is_none());
    assert!(decode_graph_request(&args(vec![other_arg("concept_name", "null")])).is_none());
    assert!(decode_graph_request(&args(vec![other_arg("action", "\"get_schema\"")])).is_none());
}

#[test]
fn graph_tool_asks_the_repository() {
    let t = definition(ToolType::Cypher(CypherToolConfig {}));
    let a = args(vec![text_arg("action", "get_schema")]);
    assert!(matches!(plan_tool_call(&t, true, &a), ToolAction::ReadSchema));
    let a = args(vec![text_arg("query", "Q")]);
    match plan_tool_call(&t, true, &a) {
        ToolAction::RunQuery(q) => assert_eq!(q, "Q"),
        other => panic!("unexpected action {:?}", other),
    }
    let a = args(vec![text_arg("concept_name", "Ansiedad")]);
    match plan_tool_call(&t, true, &a) {
        ToolAction::ReadNeighborhood(c) => assert_eq!(c, "Ansiedad"),
        other => panic!("unexpected action {:?}", other),
    }
}

#[test]
fn graph_tool_without_repository_or_intent_answers_with_the_misuse_text() {
    let t = definition(ToolType::Cypher(CypherToolConfig {}));
    let a = args(vec![text_arg("concept_name", "Ansiedad")]);
    match plan_tool_call(&t, false, &a) {
        ToolAction::Answer(text) => {
            assert_eq!(text, "Error de configuración de herramienta Cypher.")
        }
        other => panic!("unexpected action {:?}", other),
    }
    match plan_tool_call(&t, true, &args(vec![])) {
        ToolAction::Answer(text) => {
            assert_eq!(text, "Error de configuración de herramienta Cypher.")
        }
        other => panic!("unexpected action {:?}", other),
    }
}

#[test]
fn small_neighborhood_gives_the_no_data_sentence() {
    let near_empty = "{\"nodes\":[],\"edges\":[]}".to_string();
    let r = neighborhood_result("Ansiedad", TaskOutcome::Finished(Ok(near_empty)));
    assert_eq!(r.unwrap(), "No se encontraron datos para 'Ansiedad'.");
}

#[test]
fn neighborhood_threshold_is_fifty_bytes() {
    let forty_nine = "x".repeat(49);
    let fifty = "x".repeat(50);
    let r = neighborhood_result("C", TaskOutcome::Finished(Ok(forty_nine)));
    assert_eq!(r.unwrap(), "No se encontraron datos para 'C'.");
    let r = neighborhood_result("C", TaskOutcome::Finished(Ok(fifty.clone())));
    assert_eq!(r.unwrap(), fifty);
    let twenty_five_two_byte_chars = "é".repeat(25);
    let r = neighborhood_result("C", TaskOutcome::Finished(Ok(twenty_five_two_byte_chars.clone())));
    assert_eq!(r.unwrap(), twenty_five_two_byte_chars);
}

#[test]
fn repository_failure_becomes_a_database_error() {
    let failed = TaskOutcome::Finished(Err(AppError::DatabaseError("down".to_string())));
    match graph_result(failed) {
        Err(AppError::DatabaseError(m)) => assert_eq!(m, "Database error: down"),
        other => panic!("unexpected result {:?}", other),
    }
    match graph_result(TaskOutcome::Aborted("cancelled".to_string())) {
        Err(AppError::DatabaseError(m)) => assert_eq!(m, "Task Join Error: cancelled"),
        other => panic!("unexpected result {:?}", other),
    }
    let failed = TaskOutcome::Finished(Err(AppError::AIError("x".to_string())));
    match neighborhood_result("C", failed) {
        Err(AppError::DatabaseError(m)) => assert_eq!(m, "AI Provider error: x"),
        other => panic!("unexpected result {:?}", other),
    }
}

#[test]
fn repository_reply_is_passed_on() {
    let r = graph_result(TaskOutcome::Finished(Ok("schema".to_string())));
    assert_eq!(r.unwrap(), "schema");
}

#[test]
fn http_body_is_passed_on_and_transport_failure_is_an_error() {
    assert_eq!(http_result(Ok("404 page".to_string())).unwrap(), "404 page");
    match http_result(Err("connection refused".to_string())) {
        Err(AppError::AIError(m)) => assert_eq!(m, "connection refused"),
        other => panic!("unexpected result {:?}", other),
    }
}

#[test]
fn tool_failure_becomes_an_observation() {
    assert_eq!(observation_of(Ok("fine".to_string())), "fine");
    let e = AppError::ConfigError("CLI tools disabled".to_string());
    assert_eq!(observation_of(Err(e)), "Error: Configuration error: CLI tools disabled");
}
