//! Tool registry and executor.
//!
//! A fixed catalog of named local tools: calculator, file search, file
//! read/write, system info, OCR, calendar and email.  `execute` maps a tool
//! name and its parameters either to a finished result (for tools that need
//! no effect) or to the one effect the caller must perform; `finish_effect`
//! turns the effect's outcome into the tool's result.  Every filesystem
//! write is confined to the application-owned output directory.

use vstd::prelude::*;
use vstd::string::{StringSliceAdditionalSpecFns, StrSliceExecFns};
use vstd::utf8::encode_utf8;
use crate::ocr::OcrError;
use crate::search::SearchResult;
use crate::text::{str_eq, join_lines, joined_lines};

verus! {

broadcast use vstd::string::group_string_axioms;

/// One catalog entry: a tool's name and what it does.
pub struct ToolDescriptor {
    pub name: String,
    pub description: String,
}

/// A tool parameter set: an association list of keys and values, read
/// through `get`.
pub struct ToolParams {
    pub pairs: Vec<(String, String)>,
}

/// The value under the first pair whose key equals `key`, if any.
pub open spec fn lookup_param(pairs: Seq<(String, String)>, key: Seq<char>) -> Option<Seq<char>>
    decreases pairs.len(),
{
    if pairs.len() == 0 {
        None
    } else if pairs[0].0@ == key {
        Some(pairs[0].1@)
    } else {
        lookup_param(pairs.drop_first(), key)
    }
}

impl ToolParams {
    /// An empty parameter set.
    pub fn new() -> (r: ToolParams)
        ensures
            r.pairs@.len() == 0,
    {
        ToolParams { pairs: Vec::new() }
    }

    /// Adds a parameter.  Reads find the earliest pair with a key, so a
    /// repeated key does not override the first binding.
    pub fn push(&mut self, key: String, value: String)
        ensures
            final(self).pairs@ == old(self).pairs@.push((key, value)),
    {
        self.pairs.push((key, value));
    }

    /// Looks a parameter up, as `lookup_param` says.
    pub fn get(&self, key: &str) -> (r: Option<String>)
        ensures
            (r is Some) == (lookup_param(self.pairs@, key@) is Some),
            r matches Some(v) ==> v@ == lookup_param(self.pairs@, key@).unwrap(),
    {
        let mut i: usize = 0;
        proof {
            assert(self.pairs@.skip(0) =~= self.pairs@);
        }
        while i < self.pairs.len()
            invariant
                i <= self.pairs@.len(),
                lookup_param(self.pairs@, key@) == lookup_param(
                    self.pairs@.skip(i as int),
                    key@,
                ),
            decreases self.pairs@.len() - i,
        {
            proof {
                assert(self.pairs@.skip(i as int)[0] == self.pairs@[i as int]);
                assert(self.pairs@.skip(i as int).drop_first() =~= self.pairs@.skip(i + 1));
            }
            if str_eq(self.pairs[i].0.as_str(), key) {
                return Some(self.pairs[i].1.clone());
            }
            i = i + 1;
        }
        proof {
            assert(self.pairs@.skip(self.pairs@.len() as int) =~= Seq::<(String, String)>::empty());
        }
        None
    }
}

/// One canned calendar record.
#[derive(Debug)]
pub struct CalendarEvent {
    pub id: String,
    pub title: String,
    pub start: String,
    pub end: String,
    pub description: String,
}

/// One canned email record.
#[derive(Debug)]
pub struct EmailMessage {
    pub id: String,
    pub from_addr: String,
    pub subject: String,
    pub date: String,
    pub folder: String,
}

/// What a tool produced.
#[derive(Debug)]
pub enum ToolOutput {
    Text(String),
    Files(Vec<SearchResult>),
    Events(Vec<CalendarEvent>),
    Messages(Vec<EmailMessage>),
}

/// A tool's result: which tool answered, and what it produced.
#[derive(Debug)]
pub struct ToolResult {
    pub tool: String,
    pub output: ToolOutput,
}

/// The one effect a pending tool needs the caller to perform.
pub enum EffectRequest {
    /// Run the file-search engine under the given root (or the caller's
    /// default root when absent).
    SearchFiles { query: String, root: Option<String> },
    /// Read the file at the given path.
    ReadFile { path: String },
    /// Write the content to the given path, already confined to the output
    /// directory.
    WriteFile { path: String, content: String },
    /// Run the OCR bridge on the given image.
    RunOcrTool { image_path: String },
}

/// How a tool call turned out at dispatch time.
pub enum ToolRun {
    /// The tool finished without any effect.
    Finished(ToolResult),
    /// The named tool needs the given effect; hand its outcome to
    /// `finish_effect`.
    Pending { tool: String, effect: EffectRequest },
}

/// Why a tool call failed.
#[derive(Debug)]
pub enum ToolError {
    /// The name is not registered.
    UnknownTool(String),
    /// A required parameter is missing, or a write path is not a plain
    /// file name.
    BadParams(String),
    /// A file could not be read or written.
    Io(String),
    /// The OCR bridge failed.
    Ocr(OcrError),
}

impl ToolError {
    /// The user-facing message for this error.
    pub fn message(&self) -> (r: String)
        ensures
            match *self {
                ToolError::UnknownTool(ref n) => r@ == "Unknown tool: "@ + n@,
                ToolError::BadParams(ref m) => r@ == m@,
                ToolError::Io(ref m) => r@ == m@,
                ToolError::Ocr(ref e) => r@ == match *e {
                    OcrError::ToolMissing(ref m) => m@,
                    OcrError::ExecutionFailed(ref m) => m@,
                },
            },
    {
        match self {
            ToolError::UnknownTool(n) => {
                let mut m = String::new();
                m.append("Unknown tool: ");
                m.append(n.as_str());
                m
            },
            ToolError::BadParams(m) => m.clone(),
            ToolError::Io(m) => m.clone(),
            ToolError::Ocr(e) => e.message().to_owned(),
        }
    }
}

/// The route mark recorded in an envelope for a tool answer.
pub open spec fn tool_route_of(tool: Seq<char>) -> Seq<char> {
    "tool:"@ + tool
}

/// The registered tool names; `read_file` is an accepted alias of
/// `file_read`.
pub open spec fn registered_tool(name: Seq<char>) -> bool {
    ||| name == "calculator"@
    ||| name == "file_search"@
    ||| name == "file_read"@
    ||| name == "read_file"@
    ||| name == "file_write"@
    ||| name == "system_info"@
    ||| name == "ocr"@
    ||| name == "calendar"@
    ||| name == "email"@
}

/// Decides `registered_tool` for a name.
pub fn is_registered_tool(name: &str) -> (r: bool)
    ensures
        r == registered_tool(name@),
{
    str_eq(name, "calculator") || str_eq(name, "file_search") || str_eq(name, "file_read")
        || str_eq(name, "read_file") || str_eq(name, "file_write") || str_eq(name, "system_info")
        || str_eq(name, "ocr") || str_eq(name, "calendar") || str_eq(name, "email")
}

/// A well-formed parameter set for a tool: the parameters its dispatch
/// reads are present, and a write target is a safe plain file name.
pub open spec fn params_wellformed(name: Seq<char>, pairs: Seq<(String, String)>) -> bool {
    if name == "file_search"@ {
        lookup_param(pairs, "query"@) is Some
    } else if name == "file_read"@ || name == "read_file"@ {
        lookup_param(pairs, "path"@) is Some
    } else if name == "file_write"@ {
        &&& lookup_param(pairs, "path"@) is Some
        &&& lookup_param(pairs, "content"@) is Some
        &&& safe_write_name(encode_utf8(lookup_param(pairs, "path"@).unwrap()))
    } else if name == "ocr"@ {
        lookup_param(pairs, "image_path"@) is Some
    } else {
        true
    }
}

/// A safe write target: a non-empty plain file name, with no path
/// separators or drive marks and no leading dot, so that joining it under
/// the output directory cannot escape that directory.
pub open spec fn safe_write_name(b: Seq<u8>) -> bool {
    &&& b.len() > 0
    &&& b[0] != ('.' as u8)
    &&& forall|i: int|
        0 <= i < b.len() ==> #[trigger] b[i] != ('/' as u8) && b[i] != ('\\' as u8) && b[i]
            != (':' as u8)
}

/// Decides `safe_write_name` for a file name.
pub fn check_write_name(name: &str) -> (r: bool)
    ensures
        r == safe_write_name(name.spec_bytes()),
{
    let b = name.as_bytes_vec();
    if b.len() == 0 {
        return false;
    }
    if b[0] == ('.' as u8) {
        return false;
    }
    let mut i: usize = 0;
    while i < b.len()
        invariant
            b@ == name.spec_bytes(),
            b@.len() > 0,
            b@[0] != ('.' as u8),
            i <= b@.len(),
            forall|k: int|
                0 <= k < i ==> #[trigger] b@[k] != ('/' as u8) && b@[k] != ('\\' as u8) && b@[k]
                    != (':' as u8),
        decreases b@.len() - i,
    {
        let c = b[i];
        if c == ('/' as u8) || c == ('\\' as u8) || c == (':' as u8) {
            return false;
        }
        i = i + 1;
    }
    true
}

/// Joins a checked file name under the output directory; `None` when the
/// name is not a safe plain file name.
pub fn resolve_write_path(out_dir: &str, name: &str) -> (r: Option<String>)
    ensures
        (r is Some) == safe_write_name(name.spec_bytes()),
        r matches Some(p) ==> p@ == out_dir@ + "/"@ + name@,
{
    if !check_write_name(name) {
        return None;
    }
    let mut p = String::new();
    p.append(out_dir);
    p.append("/");
    p.append(name);
    proof {
        assert(p@ =~= out_dir@ + "/"@ + name@);
    }
    Some(p)
}

/// The catalog handed to the front-end: every registered tool once, under
/// its canonical name.
pub fn builtin_tools() -> (r: Vec<ToolDescriptor>)
    ensures
        r@.len() == 8,
        r@[0].name@ == "calculator"@,
        r@[1].name@ == "file_search"@,
        r@[2].name@ == "file_read"@,
        r@[3].name@ == "file_write"@,
        r@[4].name@ == "system_info"@,
        r@[5].name@ == "ocr"@,
        r@[6].name@ == "calendar"@,
        r@[7].name@ == "email"@,
        forall|k: int| 0 <= k < r@.len() ==> registered_tool(#[trigger] r@[k].name@),
{
    let mut v: Vec<ToolDescriptor> = Vec::new();
    v.push(ToolDescriptor {
        name: "calculator".to_owned(),
        description: "Perform mathematical calculations".to_owned(),
    });
    v.push(ToolDescriptor {
        name: "file_search".to_owned(),
        description: "Search for files in the system".to_owned(),
    });
    v.push(ToolDescriptor {
        name: "file_read".to_owned(),
        description: "Read a file's contents".to_owned(),
    });
    v.push(ToolDescriptor {
        name: "file_write".to_owned(),
        description: "Write content to the application's output directory".to_owned(),
    });
    v.push(ToolDescriptor {
        name: "system_info".to_owned(),
        description: "Report the operating system and CPU architecture".to_owned(),
    });
    v.push(ToolDescriptor {
        name: "ocr".to_owned(),
        description: "Extract text from images".to_owned(),
    });
    v.push(ToolDescriptor {
        name: "calendar".to_owned(),
        description: "Access calendar events".to_owned(),
    });
    v.push(ToolDescriptor { name: "email".to_owned(), description: "Access emails".to_owned() });
    v
}

/// The calculator's placeholder answer.  The reference behaviour is a stub
/// constant, kept as a clearly named placeholder rather than a real
/// evaluator.
pub open spec fn calculator_stub_text() -> Seq<char> {
    "Calculator is a placeholder; no evaluation was performed."@
}

/// The canned calendar record set, with the requested range when given.
pub fn calendar_events(start: &Option<String>, end: &Option<String>) -> (r: Vec<CalendarEvent>)
    ensures
        r@.len() == 1,
        r@[0].id@ == "1"@,
        r@[0].title@ == "Team Meeting"@,
        r@[0].description@ == "Weekly team sync"@,
        r@[0].start@ == match *start {
            Some(ref s) => s@,
            None => "2025-10-20T10:00:00"@,
        },
        r@[0].end@ == match *end {
            Some(ref e) => e@,
            None => "2025-10-20T11:00:00"@,
        },
{
    let start_val = match start {
        Some(s) => s.clone(),
        None => "2025-10-20T10:00:00".to_owned(),
    };
    let end_val = match end {
        Some(e) => e.clone(),
        None => "2025-10-20T11:00:00".to_owned(),
    };
    let mut v: Vec<CalendarEvent> = Vec::new();
    v.push(CalendarEvent {
        id: "1".to_owned(),
        title: "Team Meeting".to_owned(),
        start: start_val,
        end: end_val,
        description: "Weekly team sync".to_owned(),
    });
    v
}

/// The canned email record set, in the requested folder when given.
pub fn emails(folder: &Option<String>) -> (r: Vec<EmailMessage>)
    ensures
        r@.len() == 1,
        r@[0].id@ == "1"@,
        r@[0].from_addr@ == "example@email.com"@,
        r@[0].subject@ == "Test Email"@,
        r@[0].date@ == "2025-10-20"@,
        r@[0].folder@ == match *folder {
            Some(ref f) => f@,
            None => "Inbox"@,
        },
{
    let folder_val = match folder {
        Some(f) => f.clone(),
        None => "Inbox".to_owned(),
    };
    let mut v: Vec<EmailMessage> = Vec::new();
    v.push(EmailMessage {
        id: "1".to_owned(),
        from_addr: "example@email.com".to_owned(),
        subject: "Test Email".to_owned(),
        date: "2025-10-20".to_owned(),
        folder: folder_val,
    });
    v
}

/// Per-process configuration resolved once at startup: the host's names
/// and the application-owned output directory every write is confined to.
pub struct ExecutorConfig {
    pub os_name: String,
    pub arch: String,
    pub out_dir: String,
}

/// The tool executor: dispatches tool calls against the fixed registry.
pub struct ToolExecutor {
    pub config: ExecutorConfig,
}

impl ToolExecutor {
    /// An executor over the given configuration.
    pub fn new(config: ExecutorConfig) -> (r: ToolExecutor)
        ensures
            r.config == config,
    {
        ToolExecutor { config }
    }

    /// Dispatches one tool call.
    ///
    /// An unregistered name fails with `UnknownTool`, and only then; a
    /// registered name succeeds exactly when its parameter set is
    /// well-formed, failing with `BadParams` otherwise.  A result or
    /// pending run always carries the requested name, and each tool's
    /// behaviour is fixed below: the calculator and system info answer
    /// directly, calendar and email return their canned records, and the
    /// file and OCR tools request their one effect.
    pub fn execute(&self, name: &str, params: &ToolParams) -> (r: Result<ToolRun, ToolError>)
        ensures
            !registered_tool(name@) ==> {
                &&& r matches Err(ToolError::UnknownTool(n)) && n@ == name@
            },
            registered_tool(name@) ==> ((r is Ok) == params_wellformed(name@, params.pairs@)),
            registered_tool(name@) && !params_wellformed(name@, params.pairs@) ==> r matches Err(
                ToolError::BadParams(_),
            ),
            r matches Ok(ToolRun::Finished(t)) ==> t.tool@ == name@,
            r matches Ok(ToolRun::Pending { tool, .. }) ==> tool@ == name@,
            name@ == "calculator"@ ==> {
                &&& r matches Ok(ToolRun::Finished(t)) && t.output matches ToolOutput::Text(s)
                    && s@ == calculator_stub_text()
            },
            name@ == "system_info"@ ==> {
                &&& r matches Ok(ToolRun::Finished(t)) && t.output matches ToolOutput::Text(s)
                    && s@ == self.config.os_name@ + " "@ + self.config.arch@
            },
            name@ == "calendar"@ ==> {
                &&& r matches Ok(ToolRun::Finished(t)) && t.output matches ToolOutput::Events(v)
                    && v@.len() == 1 && v@[0].start@ == (match lookup_param(
                    params.pairs@,
                    "start_date"@,
                ) {
                    Some(s) => s,
                    None => "2025-10-20T10:00:00"@,
                }) && v@[0].end@ == (match lookup_param(params.pairs@, "end_date"@) {
                    Some(e) => e,
                    None => "2025-10-20T11:00:00"@,
                })
            },
            name@ == "email"@ ==> {
                &&& r matches Ok(ToolRun::Finished(t)) && t.output matches ToolOutput::Messages(
                    v,
                ) && v@.len() == 1 && v@[0].folder@ == (match lookup_param(
                    params.pairs@,
                    "folder"@,
                ) {
                    Some(f) => f,
                    None => "Inbox"@,
                })
            },
            name@ == "file_search"@ && params_wellformed(name@, params.pairs@) ==> {
                &&& r matches Ok(ToolRun::Pending { tool, effect }) && effect matches
                    EffectRequest::SearchFiles { query, root } && query@ == lookup_param(
                    params.pairs@,
                    "query"@,
                ).unwrap() && (match root {
                    Some(p) => lookup_param(params.pairs@, "search_path"@) matches Some(rp) && p@
                        == rp,
                    None => lookup_param(params.pairs@, "search_path"@) is None,
                })
            },
            (name@ == "file_read"@ || name@ == "read_file"@) && params_wellformed(
                name@,
                params.pairs@,
            ) ==> {
                &&& r matches Ok(ToolRun::Pending { tool, effect }) && effect matches
                    EffectRequest::ReadFile { path } && path@ == lookup_param(
                    params.pairs@,
                    "path"@,
                ).unwrap()
            },
            name@ == "file_write"@ && params_wellformed(name@, params.pairs@) ==> {
                &&& r matches Ok(ToolRun::Pending { tool, effect }) && effect matches
                    EffectRequest::WriteFile { path, content } && path@ == self.config.out_dir@
                    + "/"@ + lookup_param(params.pairs@, "path"@).unwrap() && content@
                    == lookup_param(params.pairs@, "content"@).unwrap()
            },
            name@ == "ocr"@ && params_wellformed(name@, params.pairs@) ==> {
                &&& r matches Ok(ToolRun::Pending { tool, effect }) && effect matches
                    EffectRequest::RunOcrTool { image_path } && image_path@ == lookup_param(
                    params.pairs@,
                    "image_path"@,
                ).unwrap()
            },
    {
        proof {
            reveal_strlit("calculator");
            reveal_strlit("file_search");
            reveal_strlit("file_read");
            reveal_strlit("read_file");
            reveal_strlit("file_write");
            reveal_strlit("system_info");
            reveal_strlit("ocr");
            reveal_strlit("calendar");
            reveal_strlit("email");
            assert("calculator"@.len() == 10);
            assert("file_search"@.len() == 11);
            assert("file_read"@.len() == 9);
            assert("read_file"@.len() == 9);
            assert("file_write"@.len() == 10);
            assert("system_info"@.len() == 11);
            assert("ocr"@.len() == 3);
            assert("calendar"@.len() == 8);
            assert("email"@.len() == 5);
            assert("calculator"@ != "file_write"@) by {
                assert("calculator"@[0] == 'c');
                assert("file_write"@[0] == 'f');
            }
            assert("file_search"@ != "system_info"@) by {
                assert("file_search"@[0] == 'f');
                assert("system_info"@[0] == 's');
            }
        }
        if str_eq(name, "calculator") {
            Ok(ToolRun::Finished(ToolResult {
                tool: name.to_owned(),
                output: ToolOutput::Text(
                    "Calculator is a placeholder; no evaluation was performed.".to_owned(),
                ),
            }))
        } else if str_eq(name, "file_search") {
            match params.get("query") {
                Some(query) => Ok(ToolRun::Pending {
                    tool: name.to_owned(),
                    effect: EffectRequest::SearchFiles { query, root: params.get("search_path") },
                }),
                None => Err(ToolError::BadParams(
                    "file_search needs a query parameter".to_owned(),
                )),
            }
        } else if str_eq(name, "file_read") || str_eq(name, "read_file") {
            match params.get("path") {
                Some(path) => Ok(ToolRun::Pending {
                    tool: name.to_owned(),
                    effect: EffectRequest::ReadFile { path },
                }),
                None => Err(ToolError::BadParams("file_read needs a path parameter".to_owned())),
            }
        } else if str_eq(name, "file_write") {
            let path = match params.get("path") {
                Some(p) => p,
                None => {
                    return Err(ToolError::BadParams(
                        "file_write needs a path parameter".to_owned(),
                    ));
                },
            };
            let content = match params.get("content") {
                Some(c) => c,
                None => {
                    return Err(ToolError::BadParams(
                        "file_write needs a content parameter".to_owned(),
                    ));
                },
            };
            match resolve_write_path(self.config.out_dir.as_str(), path.as_str()) {
                Some(full) => Ok(ToolRun::Pending {
                    tool: name.to_owned(),
                    effect: EffectRequest::WriteFile { path: full, content },
                }),
                None => Err(ToolError::BadParams(
                    "file_write path must be a plain file name".to_owned(),
                )),
            }
        } else if str_eq(name, "system_info") {
            let mut s = String::new();
            s.append(self.config.os_name.as_str());
            s.append(" ");
            s.append(self.config.arch.as_str());
            proof {
                assert(s@ =~= self.config.os_name@ + " "@ + self.config.arch@);
            }
            Ok(ToolRun::Finished(ToolResult { tool: name.to_owned(), output: ToolOutput::Text(s) }))
        } else if str_eq(name, "ocr") {
            match params.get("image_path") {
                Some(image_path) => Ok(ToolRun::Pending {
                    tool: name.to_owned(),
                    effect: EffectRequest::RunOcrTool { image_path },
                }),
                None => Err(ToolError::BadParams(
                    "ocr needs an image_path parameter".to_owned(),
                )),
            }
        } else if str_eq(name, "calendar") {
            let events = calendar_events(&params.get("start_date"), &params.get("end_date"));
            Ok(ToolRun::Finished(ToolResult {
                tool: name.to_owned(),
                output: ToolOutput::Events(events),
            }))
        } else if str_eq(name, "email") {
            let messages = emails(&params.get("folder"));
            Ok(ToolRun::Finished(ToolResult {
                tool: name.to_owned(),
                output: ToolOutput::Messages(messages),
            }))
        } else {
            Err(ToolError::UnknownTool(name.to_owned()))
        }
    }
}

/// What the effect a pending tool asked for came back with.
pub enum EffectOutcome {
    /// The file-search results.
    Searched(Vec<SearchResult>),
    /// The file's contents, or the read error.
    ReadDone(Result<String, String>),
    /// Whether the write succeeded, or the write error.
    WroteDone(Result<(), String>),
    /// What the OCR bridge finished with.
    OcrDone(Result<String, OcrError>),
}

/// The text reported for a successful write.
pub open spec fn write_done_text() -> Seq<char> {
    "File written."@
}

/// Completes a pending tool run from its effect's outcome.
///
/// A successful outcome yields a `ToolResult` carrying the requested tool's
/// name; a failed read or write becomes `Io`, a failed OCR run `Ocr`.
pub fn finish_effect(tool: String, outcome: EffectOutcome) -> (r: Result<ToolResult, ToolError>)
    ensures
        r matches Ok(t) ==> t.tool == tool,
        outcome matches EffectOutcome::Searched(v) ==> r matches Ok(t) && t.output matches
            ToolOutput::Files(files) && files == v,
        outcome matches EffectOutcome::ReadDone(Ok(c)) ==> r matches Ok(t) && t.output matches
            ToolOutput::Text(s) && s == c,
        outcome matches EffectOutcome::ReadDone(Err(e)) ==> r matches Err(ToolError::Io(m))
            && m@ == "Failed to read file: "@ + e@,
        outcome matches EffectOutcome::WroteDone(Ok(_)) ==> r matches Ok(t) && t.output matches
            ToolOutput::Text(s) && s@ == write_done_text(),
        outcome matches EffectOutcome::WroteDone(Err(e)) ==> r matches Err(ToolError::Io(m))
            && m@ == "Failed to write file: "@ + e@,
        outcome matches EffectOutcome::OcrDone(Ok(text)) ==> r matches Ok(t) && t.output matches
            ToolOutput::Text(s) && s == text,
        outcome matches EffectOutcome::OcrDone(Err(e)) ==> r matches Err(ToolError::Ocr(e2)) && e2
            == e,
{
    match outcome {
        EffectOutcome::Searched(v) => Ok(ToolResult { tool, output: ToolOutput::Files(v) }),
        EffectOutcome::ReadDone(Ok(c)) => Ok(ToolResult { tool, output: ToolOutput::Text(c) }),
        EffectOutcome::ReadDone(Err(e)) => {
            let mut m = String::new();
            m.append("Failed to read file: ");
            m.append(e.as_str());
            Err(ToolError::Io(m))
        },
        EffectOutcome::WroteDone(Ok(_)) => Ok(ToolResult {
            tool,
            output: ToolOutput::Text("File written.".to_owned()),
        }),
        EffectOutcome::WroteDone(Err(e)) => {
            let mut m = String::new();
            m.append("Failed to write file: ");
            m.append(e.as_str());
            Err(ToolError::Io(m))
        },
        EffectOutcome::OcrDone(Ok(text)) => Ok(ToolResult {
            tool,
            output: ToolOutput::Text(text),
        }),
        EffectOutcome::OcrDone(Err(e)) => Err(ToolError::Ocr(e)),
    }
}

/// The flat text of a tool's output, for the response envelope: a text
/// stands as it is; file results list their paths, events their titles and
/// messages their subjects, one per line.
pub fn output_text(out: &ToolOutput) -> (r: String)
    ensures
        match *out {
            ToolOutput::Text(ref s) => r@ == s@,
            ToolOutput::Files(ref v) => r@ == joined_lines(
                v@.map_values(|e: SearchResult| e.path@),
            ),
            ToolOutput::Events(ref v) => r@ == joined_lines(
                v@.map_values(|e: CalendarEvent| e.title@),
            ),
            ToolOutput::Messages(ref v) => r@ == joined_lines(
                v@.map_values(|e: EmailMessage| e.subject@),
            ),
        },
{
    match out {
        ToolOutput::Text(s) => s.clone(),
        ToolOutput::Files(v) => {
            let mut parts: Vec<String> = Vec::new();
            let ghost f = |e: SearchResult| e.path@;
            let mut i: usize = 0;
            proof {
                assert(parts.deep_view() =~= v@.take(0).map_values(f));
            }
            while i < v.len()
                invariant
                    i <= v@.len(),
                    parts.deep_view() == v@.take(i as int).map_values(f),
                    f == (|e: SearchResult| e.path@),
                decreases v@.len() - i,
            {
                let ghost pre = parts.deep_view();
                parts.push(v[i].path.clone());
                proof {
                    assert(parts.deep_view() =~= pre.push(v@[i as int].path@));
                    assert(v@.take(i + 1).map_values(f) =~= v@.take(i as int).map_values(f).push(
                        f(v@[i as int]),
                    ));
                }
                i = i + 1;
            }
            proof {
                assert(v@.take(v@.len() as int) =~= v@);
            }
            join_lines(&parts)
        },
        ToolOutput::Events(v) => {
            let mut parts: Vec<String> = Vec::new();
            let ghost f = |e: CalendarEvent| e.title@;
            let mut i: usize = 0;
            proof {
                assert(parts.deep_view() =~= v@.take(0).map_values(f));
            }
            while i < v.len()
                invariant
                    i <= v@.len(),
                    parts.deep_view() == v@.take(i as int).map_values(f),
                    f == (|e: CalendarEvent| e.title@),
                decreases v@.len() - i,
            {
                let ghost pre = parts.deep_view();
                parts.push(v[i].title.clone());
                proof {
                    assert(parts.deep_view() =~= pre.push(v@[i as int].title@));
                    assert(v@.take(i + 1).map_values(f) =~= v@.take(i as int).map_values(f).push(
                        f(v@[i as int]),
                    ));
                }
                i = i + 1;
            }
            proof {
                assert(v@.take(v@.len() as int) =~= v@);
            }
            join_lines(&parts)
        },
        ToolOutput::Messages(v) => {
            let mut parts: Vec<String> = Vec::new();
            let ghost f = |e: EmailMessage| e.subject@;
            let mut i: usize = 0;
            proof {
                assert(parts.deep_view() =~= v@.take(0).map_values(f));
            }
            while i < v.len()
                invariant
                    i <= v@.len(),
                    parts.deep_view() == v@.take(i as int).map_values(f),
                    f == (|e: EmailMessage| e.subject@),
                decreases v@.len() - i,
            {
                let ghost pre = parts.deep_view();
                parts.push(v[i].subject.clone());
                proof {
                    assert(parts.deep_view() =~= pre.push(v@[i as int].subject@));
                    assert(v@.take(i + 1).map_values(f) =~= v@.take(i as int).map_values(f).push(
                        f(v@[i as int]),
                    ));
                }
                i = i + 1;
            }
            proof {
                assert(v@.take(v@.len() as int) =~= v@);
            }
            join_lines(&parts)
        },
    }
}

} // verus!
