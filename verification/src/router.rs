//! Router.
//!
//! One request carries a free-form query and an optional hint.  A hint that
//! names a registered tool routes to the tool executor; any other hint is
//! treated as a model identifier, and a missing hint falls back to the
//! configured default model.  The answer is always a uniform envelope:
//! the result text, the route that produced it, the tools used (empty for
//! pure model routes), and whether the outcome was deterministic — true
//! only on paths that never invoked the inference service.

use vstd::prelude::*;
use crate::backend::{HttpOutcome, generate_from_outcome, generate_payload, payload_text,
    response_key, no_response_text};
use crate::json::{json_str_field, json_str_of, json_quote};
use crate::tools::{registered_tool, is_registered_tool, tool_route_of, ToolError, ToolOutput,
    ToolResult, output_text};
use crate::text::joined_lines;
use crate::search::SearchResult;
use crate::tools::{CalendarEvent, EmailMessage};

verus! {

/// One incoming request.
pub struct Query {
    pub text: String,
    pub model_hint: Option<String>,
}

/// The target chosen for a query.
pub enum RouteDecision {
    /// Forward the query text to the inference service under this model.
    Model { id: String },
    /// Dispatch to this registered tool.
    Tool { name: String },
}

/// Router configuration, resolved once at startup.
pub struct RouterConfig {
    /// The model used when a request carries no hint.
    pub default_model: String,
    /// Whether an unreachable service degrades to the canned offline echo
    /// instead of an error.
    pub offline_echo: bool,
}

/// The uniform answer for one routed request.
#[derive(Debug)]
pub struct ResponseEnvelope {
    pub result: String,
    pub route: String,
    pub tools_used: Vec<String>,
    pub deterministic: bool,
}

/// A failure surfaced at the router boundary, as a user-facing message.
#[derive(Debug)]
pub struct RoutingError {
    pub message: String,
}

/// The decision policy: a hint naming a registered tool routes to that
/// tool; any other hint is a model identifier; no hint means the default
/// model.
pub open spec fn decision_of(q: Query, cfg: RouterConfig) -> RouteDecision {
    match q.model_hint {
        Some(h) => if registered_tool(h@) {
            RouteDecision::Tool { name: h }
        } else {
            RouteDecision::Model { id: h }
        },
        None => RouteDecision::Model { id: cfg.default_model },
    }
}

/// Decides the route for a query, as `decision_of` says.
pub fn decide_route(q: &Query, cfg: &RouterConfig) -> (r: RouteDecision)
    ensures
        r == decision_of(*q, *cfg),
{
    match &q.model_hint {
        Some(h) => {
            if is_registered_tool(h.as_str()) {
                RouteDecision::Tool { name: h.clone() }
            } else {
                RouteDecision::Model { id: h.clone() }
            }
        },
        None => RouteDecision::Model { id: cfg.default_model.clone() },
    }
}

/// What the caller must do for a planned request.
pub enum RoutePlan {
    /// Send this request body to the service's generation endpoint for the
    /// model, then hand the outcome to `finish_model_route`.
    CallModel { model: String, payload: String },
    /// Execute this tool through the tool executor.
    RunTool { name: String },
}

/// Plans one request: a model decision becomes a generation call with its
/// request body; a tool decision names the tool to execute.
pub fn plan_request(q: &Query, cfg: &RouterConfig) -> (r: RoutePlan)
    ensures
        decision_of(*q, *cfg) matches RouteDecision::Model { id } ==> {
            &&& r matches RoutePlan::CallModel { model, payload } && model == id && payload@
                == payload_text(id@, q.text@)
        },
        decision_of(*q, *cfg) matches RouteDecision::Tool { name } ==> {
            &&& r matches RoutePlan::RunTool { name: n } && n == name
        },
{
    match decide_route(q, cfg) {
        RouteDecision::Model { id } => {
            let payload = generate_payload(id.as_str(), q.text.as_str());
            RoutePlan::CallModel { model: id, payload }
        },
        RouteDecision::Tool { name } => RoutePlan::RunTool { name },
    }
}

/// An envelope's route and tool list are consistent with the catalogs:
/// either the route is a known model identifier and no tool was used, or
/// the route marks a registered tool that is also listed as used.
pub open spec fn envelope_wf(env: ResponseEnvelope, models: Seq<Seq<char>>) -> bool {
    ||| (models.contains(env.route@) && env.tools_used@.len() == 0)
    ||| (exists|t: Seq<char>|
        registered_tool(t) && env.route@ == tool_route_of(t) && env.tools_used@.len() > 0)
}

/// The envelope for a model answer: routed under the model, no tools used,
/// and never deterministic, since the service produced it.
pub fn model_envelope(model: &str, text: String) -> (r: ResponseEnvelope)
    ensures
        r.result == text,
        r.route@ == model@,
        r.tools_used@.len() == 0,
        !r.deterministic,
        forall|models: Seq<Seq<char>>|
            models.contains(model@) ==> #[trigger] envelope_wf(r, models),
{
    ResponseEnvelope {
        result: text,
        route: model.to_owned(),
        tools_used: Vec::new(),
        deterministic: false,
    }
}

/// The canned text answered on the offline echo path.
pub open spec fn offline_echo_text(q: Seq<char>) -> Seq<char> {
    "[offline] "@ + q
}

/// The envelope for the degraded offline path: the canned echo of the
/// query, routed under the model that was not reached, deterministic.
pub fn echo_envelope(model: &str, query_text: &str) -> (r: ResponseEnvelope)
    ensures
        r.result@ == offline_echo_text(query_text@),
        r.route@ == model@,
        r.tools_used@.len() == 0,
        r.deterministic,
        forall|models: Seq<Seq<char>>|
            models.contains(model@) ==> #[trigger] envelope_wf(r, models),
{
    let mut text = String::new();
    text.append("[offline] ");
    text.append(query_text);
    proof {
        assert(text@ =~= offline_echo_text(query_text@));
    }
    ResponseEnvelope {
        result: text,
        route: model.to_owned(),
        tools_used: Vec::new(),
        deterministic: true,
    }
}

/// The envelope for a tool answer: routed under the tool's mark, the tool
/// listed as used, and deterministic, since no inference call was made.
pub fn tool_envelope(tool: &str, result_text: String) -> (r: ResponseEnvelope)
    ensures
        r.result == result_text,
        r.route@ == tool_route_of(tool@),
        r.tools_used@.len() == 1,
        r.tools_used@[0]@ == tool@,
        r.deterministic,
        registered_tool(tool@) ==> forall|models: Seq<Seq<char>>|
            #[trigger] envelope_wf(r, models),
{
    let mut route = String::new();
    route.append("tool:");
    route.append(tool);
    proof {
        assert(route@ =~= tool_route_of(tool@));
    }
    let mut used: Vec<String> = Vec::new();
    used.push(tool.to_owned());
    ResponseEnvelope { result: result_text, route, tools_used: used, deterministic: true }
}

/// The envelope for a finished tool run: `tool_envelope` over the flat
/// text of the tool's output.
pub fn tool_result_envelope(t: &ToolResult) -> (r: ResponseEnvelope)
    ensures
        r.route@ == tool_route_of(t.tool@),
        r.tools_used@.len() == 1,
        r.tools_used@[0]@ == t.tool@,
        r.deterministic,
        match t.output {
            ToolOutput::Text(ref s) => r.result@ == s@,
            ToolOutput::Files(ref v) => r.result@ == joined_lines(
                v@.map_values(|e: SearchResult| e.path@),
            ),
            ToolOutput::Events(ref v) => r.result@ == joined_lines(
                v@.map_values(|e: CalendarEvent| e.title@),
            ),
            ToolOutput::Messages(ref v) => r.result@ == joined_lines(
                v@.map_values(|e: EmailMessage| e.subject@),
            ),
        },
        registered_tool(t.tool@) ==> forall|models: Seq<Seq<char>>|
            #[trigger] envelope_wf(r, models),
{
    let text = output_text(&t.output);
    tool_envelope(t.tool.as_str(), text)
}

/// Converts a tool failure into the router's user-facing error.
pub fn routing_error_of_tool(e: &ToolError) -> (r: RoutingError)
    ensures
        r.message@ == match *e {
            ToolError::UnknownTool(ref n) => "Unknown tool: "@ + n@,
            ToolError::BadParams(ref m) => m@,
            ToolError::Io(ref m) => m@,
            ToolError::Ocr(ref oe) => match *oe {
                crate::ocr::OcrError::ToolMissing(ref m) => m@,
                crate::ocr::OcrError::ExecutionFailed(ref m) => m@,
            },
        },
{
    RoutingError { message: e.message() }
}

/// The comma-separated JSON string literals for a list of texts.
pub open spec fn json_str_list_text(items: Seq<Seq<char>>) -> Seq<char>
    decreases items.len(),
{
    if items.len() == 0 {
        Seq::empty()
    } else if items.len() == 1 {
        json_str_of(items[0])
    } else {
        json_str_list_text(items.drop_last()) + ","@ + json_str_of(items.last())
    }
}

/// The JSON text of an envelope, in the shape the front-end receives:
/// `{"result":...,"route":...,"toolsUsed":[...],"deterministic":...}`.
pub open spec fn envelope_json_text(env: ResponseEnvelope) -> Seq<char> {
    "{\"result\":"@ + json_str_of(env.result@) + ",\"route\":"@ + json_str_of(env.route@)
        + ",\"toolsUsed\":["@ + json_str_list_text(env.tools_used.deep_view()) + "],\"deterministic\":"@
        + (if env.deterministic {
        "true"@
    } else {
        "false"@
    }) + "}"@
}

/// Serializes an envelope for the front-end, as `envelope_json_text` says.
pub fn envelope_json(env: &ResponseEnvelope) -> (r: String)
    ensures
        r@ == envelope_json_text(*env),
{
    let mut s = String::new();
    s.append("{\"result\":");
    let q = json_quote(env.result.as_str());
    s.append(q.as_str());
    s.append(",\"route\":");
    let q = json_quote(env.route.as_str());
    s.append(q.as_str());
    s.append(",\"toolsUsed\":[");
    let ghost before_list = s@;
    let mut i: usize = 0;
    proof {
        assert(env.tools_used.deep_view().take(0) =~= Seq::<Seq<char>>::empty());
        assert(s@ =~= before_list + json_str_list_text(env.tools_used.deep_view().take(0)));
    }
    while i < env.tools_used.len()
        invariant
            i <= env.tools_used@.len(),
            env.tools_used.deep_view().len() == env.tools_used@.len(),
            s@ == before_list + json_str_list_text(env.tools_used.deep_view().take(i as int)),
        decreases env.tools_used@.len() - i,
    {
        if i > 0 {
            s.append(",");
        }
        let q = json_quote(env.tools_used[i].as_str());
        s.append(q.as_str());
        proof {
            let tv = env.tools_used.deep_view();
            assert(tv.take(i + 1).drop_last() =~= tv.take(i as int));
            assert(tv.take(i + 1).last() == tv[i as int]);
            assert(tv[i as int] == env.tools_used@[i as int]@);
            if i > 0 {
                assert(s@ =~= before_list + (json_str_list_text(tv.take(i as int)) + ","@
                    + json_str_of(tv[i as int])));
            } else {
                assert(tv.take(1).len() == 1);
                assert(s@ =~= before_list + json_str_of(tv[0]));
            }
        }
        i = i + 1;
    }
    proof {
        assert(env.tools_used.deep_view().take(env.tools_used@.len() as int) =~= env.tools_used.deep_view());
    }
    s.append("],\"deterministic\":");
    if env.deterministic {
        s.append("true");
    } else {
        s.append("false");
    }
    s.append("}");
    proof {
        assert(s@ =~= envelope_json_text(*env));
    }
    s
}

/// Finishes a model route from the generation call's outcome.
///
/// Determinism (stated in the first clause): an envelope from this
/// function is deterministic exactly when the service was never actually
/// invoked — the offline echo path taken when the service is unreachable
/// and the configuration allows degrading — and never when a service
/// response produced it.  An unreachable service without the echo, a
/// failure status, and an unparseable body are routing errors.
pub fn finish_model_route(cfg: &RouterConfig, model: String, query_text: &str, outcome:
    HttpOutcome) -> (r: Result<ResponseEnvelope, RoutingError>)
    ensures
        r matches Ok(env) ==> (env.deterministic <==> (outcome is ConnectFailed
            && cfg.offline_echo)),
        r matches Ok(env) ==> env.route@ == model@ && env.tools_used@.len() == 0,
        outcome matches HttpOutcome::ConnectFailed { .. } && cfg.offline_echo ==> {
            &&& r matches Ok(env) && env.deterministic && env.result@ == offline_echo_text(
                query_text@,
            )
        },
        outcome matches HttpOutcome::ConnectFailed { error } ==> !cfg.offline_echo ==> {
            &&& r matches Err(e) && e.message@ == "Cannot connect to Ollama (is it running?): "@
                + error@
        },
        outcome matches HttpOutcome::Response { status_ok: false, status, .. } ==> {
            &&& r matches Err(e) && e.message@ == "Ollama returned error status: "@ + status@
        },
        outcome matches HttpOutcome::Response { status_ok: true, body, .. } ==> match
            json_str_field(body@, response_key()) {
            Option::None => r is Err,
            Option::Some(Option::None) => r matches Ok(env) && env.result@ == no_response_text()
                && !env.deterministic,
            Option::Some(Option::Some(t)) => r matches Ok(env) && env.result@ == t
                && !env.deterministic,
        },
{
    match outcome {
        HttpOutcome::ConnectFailed { error } => {
            if cfg.offline_echo {
                Ok(echo_envelope(model.as_str(), query_text))
            } else {
                match generate_from_outcome(HttpOutcome::ConnectFailed { error }) {
                    Err(be) => Err(RoutingError { message: be.message().to_owned() }),
                    Ok(_) => {
                        proof {
                            assert(false);
                        }
                        Err(RoutingError { message: String::new() })
                    },
                }
            }
        },
        HttpOutcome::Response { status_ok, status, body } => {
            match generate_from_outcome(HttpOutcome::Response { status_ok, status, body }) {
                Ok(t) => Ok(model_envelope(model.as_str(), t)),
                Err(be) => Err(RoutingError { message: be.message().to_owned() }),
            }
        },
    }
}

} // verus!
