//! Inference backend client.
//!
//! The local inference service receives a non-streaming generation request
//! with body `{"model":...,"prompt":...,"stream":false}` and answers with a
//! JSON object whose `response` field holds the generated text.  Issuing
//! the HTTP call is the caller's effect; building the request body,
//! interpreting the outcome, the status probe, and the model-listing
//! fallback are verified here.

use vstd::prelude::*;
use crate::json::{json_quote, json_str_of, json_str_field, lookup_str_field, lookup_name_list,
    json_name_list};

verus! {

/// How a generation request failed.
pub enum BackendError {
    /// The service could not be reached.
    Unavailable(String),
    /// The service answered, but not with the expected shape.
    Protocol(String),
}

impl BackendError {
    /// The user-facing message carried by this error.
    pub fn message(&self) -> (r: &str)
        ensures
            r@ == match *self {
                BackendError::Unavailable(ref m) => m@,
                BackendError::Protocol(ref m) => m@,
            },
    {
        match self {
            BackendError::Unavailable(m) => m.as_str(),
            BackendError::Protocol(m) => m.as_str(),
        }
    }
}

/// What an HTTP call to the service came back with.
pub enum HttpOutcome {
    /// The service answered: whether the status was a success, the status
    /// line's text, and the response body.
    Response { status_ok: bool, status: String, body: String },
    /// The service could not be reached (connection refused or timeout).
    ConnectFailed { error: String },
}

/// What a short status probe came back with.
pub enum ProbeOutcome {
    /// The probe endpoint answered, successfully or not.
    Reached { success: bool },
    /// Nothing answered.
    Unreachable,
}

/// The service's status as reported to the front-end.
pub struct StatusReport {
    pub installed: bool,
    pub running: bool,
    pub message: String,
}

/// Interprets a status probe: an answering service is installed and, if the
/// answer was a success, running; an unreachable one counts as not
/// installed.
pub fn status_from_probe(p: &ProbeOutcome) -> (r: StatusReport)
    ensures
        *p == (ProbeOutcome::Reached { success: true }) ==> r.installed && r.running
            && r.message@ == "Ollama is running"@,
        *p == (ProbeOutcome::Reached { success: false }) ==> r.installed && !r.running
            && r.message@ == "Ollama is installed but not running"@,
        *p is Unreachable ==> !r.installed && !r.running && r.message@
            == "Ollama not found. Please install from https://ollama.ai"@,
{
    match p {
        ProbeOutcome::Reached { success: true } => StatusReport {
            installed: true,
            running: true,
            message: "Ollama is running".to_owned(),
        },
        ProbeOutcome::Reached { success: false } => StatusReport {
            installed: true,
            running: false,
            message: "Ollama is installed but not running".to_owned(),
        },
        ProbeOutcome::Unreachable => StatusReport {
            installed: false,
            running: false,
            message: "Ollama not found. Please install from https://ollama.ai".to_owned(),
        },
    }
}

/// The text of the request body for one non-streaming generation call.
pub open spec fn payload_text(model: Seq<char>, prompt: Seq<char>) -> Seq<char> {
    "{\"model\":"@ + json_str_of(model) + ",\"prompt\":"@ + json_str_of(prompt)
        + ",\"stream\":false}"@
}

/// The request body for one non-streaming generation call.
pub fn generate_payload(model: &str, prompt: &str) -> (r: String)
    ensures
        r@ == payload_text(model@, prompt@),
{
    let mut s = String::new();
    s.append("{\"model\":");
    let qm = json_quote(model);
    s.append(qm.as_str());
    s.append(",\"prompt\":");
    let qp = json_quote(prompt);
    s.append(qp.as_str());
    s.append(",\"stream\":false}");
    proof {
        assert(s@ =~= "{\"model\":"@ + json_str_of(model@) + ",\"prompt\":"@ + json_str_of(
            prompt@,
        ) + ",\"stream\":false}"@);
    }
    s
}

/// The key of the generated text in the service's answer.
pub open spec fn response_key() -> Seq<char> {
    "response"@
}

/// The placeholder returned when the answer parses but holds no string at
/// the response key.
pub open spec fn no_response_text() -> Seq<char> {
    "No response"@
}

/// Reads the generated text out of a response body: the string under the
/// response key; a parsed body without one yields a fixed placeholder
/// rather than an error; a body that does not parse is a protocol error.
pub fn extract_generated_text(body: &str) -> (r: Result<String, String>)
    ensures
        (r is Ok) == (json_str_field(body@, response_key()) is Some),
        json_str_field(body@, response_key()) matches Some(Some(t)) ==> r matches Ok(out)
            && out@ == t,
        json_str_field(body@, response_key()) matches Some(None) ==> r matches Ok(out) && out@
            == no_response_text(),
{
    match lookup_str_field(body, "response") {
        Ok(Some(t)) => Ok(t),
        Ok(None) => Ok("No response".to_owned()),
        Err(e) => {
            let mut m = String::new();
            m.append("Failed to parse Ollama response: ");
            m.append(e.as_str());
            Err(m)
        },
    }
}

/// Interprets the outcome of one generation call.
///
/// An unreachable service is `Unavailable`; an answer with a failure status,
/// or one whose body does not parse, is a `Protocol` error; otherwise the
/// generated text is extracted as `extract_generated_text` says.
pub fn generate_from_outcome(outcome: HttpOutcome) -> (r: Result<String, BackendError>)
    ensures
        outcome matches HttpOutcome::ConnectFailed { error } ==> r matches Err(
            BackendError::Unavailable(m),
        ) && m@ == "Cannot connect to Ollama (is it running?): "@ + error@,
        outcome matches HttpOutcome::Response { status_ok: false, status, .. } ==> r matches Err(
            BackendError::Protocol(m),
        ) && m@ == "Ollama returned error status: "@ + status@,
        outcome matches HttpOutcome::Response { status_ok: true, body, .. } ==> match
            json_str_field(body@, response_key()) {
            Option::None => r is Err && r matches Err(BackendError::Protocol(_)),
            Option::Some(Option::None) => r matches Ok(t) && t@ == no_response_text(),
            Option::Some(Option::Some(txt)) => r matches Ok(t) && t@ == txt,
        },
{
    match outcome {
        HttpOutcome::ConnectFailed { error } => {
            let mut m = String::new();
            m.append("Cannot connect to Ollama (is it running?): ");
            m.append(error.as_str());
            Err(BackendError::Unavailable(m))
        },
        HttpOutcome::Response { status_ok, status, body } => {
            if !status_ok {
                let mut m = String::new();
                m.append("Ollama returned error status: ");
                m.append(status.as_str());
                Err(BackendError::Protocol(m))
            } else {
                match extract_generated_text(body.as_str()) {
                    Ok(t) => Ok(t),
                    Err(m) => Err(BackendError::Protocol(m)),
                }
            }
        },
    }
}

/// The identifiers offered when the service cannot be asked for its models.
pub open spec fn fallback_model_ids() -> Seq<Seq<char>> {
    seq![
        "granite3.1-dense:8b"@,
        "ALIENTELLIGENCE/ai2ndbrain:latest"@,
        "aya-expanse:latest"@,
        "gemma3:12b"@,
        "qwen2.5-coder:7b"@,
        "qwen2.5:7b"@,
        "llama3:latest"@,
        "deepseek-r1:8b"@,
    ]
}

/// The static model catalog used when the service is unreachable or lists
/// nothing; never empty.
pub fn fallback_models() -> (r: Vec<String>)
    ensures
        r.deep_view() == fallback_model_ids(),
        r@.len() == 8,
{
    let mut v: Vec<String> = Vec::new();
    v.push("granite3.1-dense:8b".to_owned());
    v.push("ALIENTELLIGENCE/ai2ndbrain:latest".to_owned());
    v.push("aya-expanse:latest".to_owned());
    v.push("gemma3:12b".to_owned());
    v.push("qwen2.5-coder:7b".to_owned());
    v.push("qwen2.5:7b".to_owned());
    v.push("llama3:latest".to_owned());
    v.push("deepseek-r1:8b".to_owned());
    proof {
        assert(v.deep_view() =~= fallback_model_ids());
    }
    v
}

/// The names present in a listing, in order, the absent entries dropped.
pub open spec fn present_names(s: Seq<Option<Seq<char>>>) -> Seq<Seq<char>>
    decreases s.len(),
{
    if s.len() == 0 {
        Seq::empty()
    } else {
        present_names(s.drop_last()) + match s.last() {
            Some(x) => seq![x],
            None => Seq::empty(),
        }
    }
}

/// Keeps the present names of a listing, in order.
pub fn collect_present(entries: Vec<Option<String>>) -> (r: Vec<String>)
    ensures
        r.deep_view() == present_names(entries.deep_view()),
{
    let mut out: Vec<String> = Vec::new();
    let mut i: usize = 0;
    proof {
        assert(entries.deep_view().take(0) =~= Seq::<Option<Seq<char>>>::empty());
        assert(out.deep_view() =~= present_names(entries.deep_view().take(0)));
    }
    while i < entries.len()
        invariant
            i <= entries@.len(),
            entries.deep_view().len() == entries@.len(),
            out.deep_view() == present_names(entries.deep_view().take(i as int)),
        decreases entries@.len() - i,
    {
        let ghost pre = out.deep_view();
        match &entries[i] {
            Some(name) => {
                out.push(name.clone());
                proof {
                    assert(out.deep_view() =~= pre.push(name@));
                }
            },
            None => {},
        }
        proof {
            let ev = entries.deep_view();
            assert(ev.take(i + 1).drop_last() =~= ev.take(i as int));
            assert(ev.take(i + 1).last() == ev[i as int]);
            assert(ev[i as int] == entries@[i as int].deep_view());
            match entries@[i as int] {
                Some(name) => {
                    assert(out.deep_view() =~= present_names(ev.take(i as int)) + seq![name@]);
                },
                None => {
                    assert(present_names(ev.take(i + 1)) =~= present_names(ev.take(i as int))
                        + Seq::<Seq<char>>::empty());
                },
            }
        }
        i = i + 1;
    }
    proof {
        assert(entries.deep_view().take(entries@.len() as int) =~= entries.deep_view());
    }
    out
}

/// Where a model listing came from.
#[derive(Clone, Copy, PartialEq, Eq, Structural, Debug)]
pub enum ModelSource {
    /// The service answered with a non-empty listing.
    Live,
    /// The static catalog stood in for the service.
    Fallback,
}

/// The key of the model array in the service's listing answer.
pub open spec fn models_key() -> Seq<char> {
    "models"@
}

/// The key of a model's identifier within one listing entry.
pub open spec fn name_key() -> Seq<char> {
    "name"@
}

/// Turns the listing endpoint's answer into the model catalog.
///
/// A reachable service with a parseable, non-empty listing is passed on as
/// `Live`; in every other case (no answer, unparseable body, no or empty
/// array) the static catalog answers as `Fallback`.  The result is never
/// empty either way.
pub fn models_from_listing(body: &Option<String>) -> (r: (Vec<String>, ModelSource))
    ensures
        r.0@.len() > 0,
        *body is None ==> r.0.deep_view() == fallback_model_ids() && r.1 == ModelSource::Fallback,
        *body matches Some(b) ==> match json_name_list(b@, models_key(), name_key()) {
            Option::None => r.0.deep_view() == fallback_model_ids() && r.1
                == ModelSource::Fallback,
            Option::Some(entries) => if present_names(entries).len() > 0 {
                r.0.deep_view() == present_names(entries) && r.1 == ModelSource::Live
            } else {
                r.0.deep_view() == fallback_model_ids() && r.1 == ModelSource::Fallback
            },
        },
{
    match body {
        Some(b) => {
            match lookup_name_list(b.as_str(), "models", "name") {
                Some(entries) => {
                    let names = collect_present(entries);
                    if names.len() > 0 {
                        (names, ModelSource::Live)
                    } else {
                        (fallback_models(), ModelSource::Fallback)
                    }
                },
                None => (fallback_models(), ModelSource::Fallback),
            }
        },
        None => (fallback_models(), ModelSource::Fallback),
    }
}

} // verus!
