use deskai::backend::HttpOutcome;
use deskai::router::{
    decide_route, echo_envelope, envelope_json, finish_model_route, model_envelope,
    plan_request, tool_envelope, tool_result_envelope, routing_error_of_tool, Query,
    RouteDecision, RoutePlan, RouterConfig,
};
use deskai::tools::{ToolError, ToolOutput, ToolResult};

fn cfg(offline_echo: bool) -> RouterConfig {
    RouterConfig { default_model: "qwen2.5:7b".to_string(), offline_echo }
}

fn query(text: &str, hint: Option<&str>) -> Query {
    Query { text: text.to_string(), model_hint: hint.map(str::to_string) }
}

#[test]
fn hint_naming_a_tool_routes_to_the_tool() {
    let d = decide_route(&query("find my report", Some("file_search")), &cfg(false));
    assert!(matches!(d, RouteDecision::Tool { name } if name == "file_search"));
}

#[test]
fn hint_not_naming_a_tool_is_a_model() {
    let d = decide_route(&query("hello", Some("llama3:latest")), &cfg(false));
    assert!(matches!(d, RouteDecision::Model { id } if id == "llama3:latest"));
}

#[test]
fn no_hint_uses_the_default_model() {
    let d = decide_route(&query("hello", None), &cfg(false));
    assert!(matches!(d, RouteDecision::Model { id } if id == "qwen2.5:7b"));
}

#[test]
fn plan_builds_the_generation_body() {
    match plan_request(&query("say hi", None), &cfg(false)) {
        RoutePlan::CallModel { model, payload } => {
            assert_eq!(model, "qwen2.5:7b");
            assert_eq!(
                payload,
                "{\"model\":\"qwen2.5:7b\",\"prompt\":\"say hi\",\"stream\":false}"
            );
        }
        _ => panic!("expected a model call"),
    }
    match plan_request(&query("irrelevant", Some("ocr")), &cfg(false)) {
        RoutePlan::RunTool { name } => assert_eq!(name, "ocr"),
        _ => panic!("expected a tool run"),
    }
}

#[test]
fn service_answer_is_never_deterministic() {
    let outcome = HttpOutcome::Response {
        status_ok: true,
        status: "200 OK".to_string(),
        body: "{\"response\":\"hi!\"}".to_string(),
    };
    let env = finish_model_route(&cfg(true), "m".to_string(), "q", outcome).unwrap();
    assert!(!env.deterministic);
    assert_eq!(env.result, "hi!");
    assert_eq!(env.route, "m");
    assert!(env.tools_used.is_empty());
}

#[test]
fn offline_echo_is_the_only_deterministic_model_path() {
    let outcome = HttpOutcome::ConnectFailed { error: "refused".to_string() };
    let env = finish_model_route(&cfg(true), "m".to_string(), "say hi", outcome).unwrap();
    assert!(env.deterministic);
    assert_eq!(env.result, "[offline] say hi");
    assert_eq!(env.route, "m");
    assert!(env.tools_used.is_empty());
}

#[test]
fn unreachable_service_without_echo_is_an_error() {
    let outcome = HttpOutcome::ConnectFailed { error: "refused".to_string() };
    let err = finish_model_route(&cfg(false), "m".to_string(), "q", outcome).unwrap_err();
    assert_eq!(err.message, "Cannot connect to Ollama (is it running?): refused");
}

#[test]
fn error_status_is_a_routing_error() {
    let outcome = HttpOutcome::Response {
        status_ok: false,
        status: "503 Service Unavailable".to_string(),
        body: String::new(),
    };
    let err = finish_model_route(&cfg(true), "m".to_string(), "q", outcome).unwrap_err();
    assert_eq!(err.message, "Ollama returned error status: 503 Service Unavailable");
}

#[test]
fn unparseable_answer_is_a_routing_error() {
    let outcome = HttpOutcome::Response {
        status_ok: true,
        status: "200 OK".to_string(),
        body: "not json".to_string(),
    };
    let err = finish_model_route(&cfg(true), "m".to_string(), "q", outcome).unwrap_err();
    assert!(err.message.starts_with("Failed to parse Ollama response: "));
}

#[test]
fn missing_response_field_yields_placeholder_envelope() {
    let outcome = HttpOutcome::Response {
        status_ok: true,
        status: "200 OK".to_string(),
        body: "{\"done\":true}".to_string(),
    };
    let env = finish_model_route(&cfg(true), "m".to_string(), "q", outcome).unwrap();
    assert_eq!(env.result, "No response");
    assert!(!env.deterministic);
}

#[test]
fn model_envelope_shape() {
    let env = model_envelope("llama3:latest", "text".to_string());
    assert_eq!(env.route, "llama3:latest");
    assert_eq!(env.result, "text");
    assert!(env.tools_used.is_empty());
    assert!(!env.deterministic);
}

#[test]
fn echo_envelope_shape() {
    let env = echo_envelope("m", "ask");
    assert_eq!(env.result, "[offline] ask");
    assert!(env.deterministic);
}

#[test]
fn tool_envelope_shape() {
    let env = tool_envelope("ocr", "words".to_string());
    assert_eq!(env.route, "tool:ocr");
    assert_eq!(env.tools_used, vec!["ocr".to_string()]);
    assert_eq!(env.result, "words");
    assert!(env.deterministic);
}

#[test]
fn tool_result_envelope_renders_the_output() {
    let t = ToolResult {
        tool: "calculator".to_string(),
        output: ToolOutput::Text("42".to_string()),
    };
    let env = tool_result_envelope(&t);
    assert_eq!(env.route, "tool:calculator");
    assert_eq!(env.result, "42");
    assert_eq!(env.tools_used, vec!["calculator".to_string()]);
    assert!(env.deterministic);
}

#[test]
fn routing_error_carries_the_tool_message() {
    let err = routing_error_of_tool(&ToolError::UnknownTool("zap".to_string()));
    assert_eq!(err.message, "Unknown tool: zap");
}

#[test]
fn envelope_json_matches_the_frontend_shape() {
    let env = tool_envelope("ocr", "some \"text\"".to_string());
    assert_eq!(
        envelope_json(&env),
        "{\"result\":\"some \\\"text\\\"\",\"route\":\"tool:ocr\",\"toolsUsed\":[\"ocr\"],\"deterministic\":true}"
    );
    let env = model_envelope("m", "hi".to_string());
    assert_eq!(
        envelope_json(&env),
        "{\"result\":\"hi\",\"route\":\"m\",\"toolsUsed\":[],\"deterministic\":false}"
    );
}

#[test]
fn envelope_json_joins_several_tools() {
    let mut env = tool_envelope("a", "x".to_string());
    env.tools_used.push("b".to_string());
    assert!(envelope_json(&env).contains("\"toolsUsed\":[\"a\",\"b\"]"));
}
