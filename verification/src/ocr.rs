//! OCR bridge.
//!
//! The bridge locates an external OCR executable, runs it as a subprocess
//! with the image path and a temporary output base path, reads the
//! `<base>.txt` file the tool writes, and always deletes that file before
//! finishing, whatever the outcome.  Probing, running, reading and deleting
//! are effects the caller performs; the bridge itself is a verified state
//! machine: `ocr_step` consumes the outcome of the previous effect and says
//! what to do next.

use vstd::prelude::*;
use crate::text::{blank_of, is_blank};

verus! {

/// Why an OCR request failed.
#[derive(Debug)]
pub enum OcrError {
    /// No OCR executable could be located.
    ToolMissing(String),
    /// The tool ran but failed, or its output could not be read back.
    ExecutionFailed(String),
}

impl OcrError {
    /// The user-facing message carried by this error.
    pub fn message(&self) -> (r: &str)
        ensures
            r@ == match *self {
                OcrError::ToolMissing(ref m) => m@,
                OcrError::ExecutionFailed(ref m) => m@,
            },
    {
        match self {
            OcrError::ToolMissing(m) => m.as_str(),
            OcrError::ExecutionFailed(m) => m.as_str(),
        }
    }
}

/// One candidate location for the OCR executable, and whether a file
/// exists there.
pub struct OcrCandidate {
    pub path: String,
    pub exists: bool,
}

/// The path of the first candidate that exists, if any.
pub open spec fn first_existing(cands: Seq<OcrCandidate>) -> Option<Seq<char>>
    decreases cands.len(),
{
    if cands.len() == 0 {
        None
    } else if cands[0].exists {
        Some(cands[0].path@)
    } else {
        first_existing(cands.drop_first())
    }
}

/// The bare command name used when no candidate path exists; it is then
/// resolved through the process's search path.
pub open spec fn fallback_command() -> Seq<char> {
    "tesseract"@
}

/// Picks the executable to use: the first existing candidate in order
/// (bundled binary first, then fixed installation paths), else the bare
/// command name.
pub fn resolve_ocr_executable(cands: &Vec<OcrCandidate>) -> (r: String)
    ensures
        r@ == match first_existing(cands@) {
            Some(p) => p,
            None => fallback_command(),
        },
{
    let mut i: usize = 0;
    proof {
        assert(cands@.skip(0) =~= cands@);
    }
    while i < cands.len()
        invariant
            i <= cands@.len(),
            first_existing(cands@) == first_existing(cands@.skip(i as int)),
        decreases cands@.len() - i,
    {
        if cands[i].exists {
            proof {
                assert(cands@.skip(i as int)[0] == cands@[i as int]);
            }
            return cands[i].path.clone();
        }
        proof {
            assert(cands@.skip(i as int)[0] == cands@[i as int]);
            assert(cands@.skip(i as int).drop_first() =~= cands@.skip(i + 1));
        }
        i = i + 1;
    }
    proof {
        assert(cands@.skip(cands@.len() as int) =~= Seq::<OcrCandidate>::empty());
    }
    "tesseract".to_owned()
}

/// The fixed installation paths checked after the bundled binary.
pub fn common_ocr_paths() -> (r: Vec<String>)
    ensures
        r@.len() == 2,
        r@[0]@ == "C:\\Program Files\\Tesseract-OCR\\tesseract.exe"@,
        r@[1]@ == "C:\\Program Files (x86)\\Tesseract-OCR\\tesseract.exe"@,
{
    let mut v: Vec<String> = Vec::new();
    v.push("C:\\Program Files\\Tesseract-OCR\\tesseract.exe".to_owned());
    v.push("C:\\Program Files (x86)\\Tesseract-OCR\\tesseract.exe".to_owned());
    v
}

/// The text returned when the tool extracted nothing but whitespace.
pub open spec fn no_text_msg() -> Seq<char> {
    "No text detected in the image."@
}

/// Empty or whitespace-only extracted text becomes a fixed message; any
/// other text is returned unchanged.
pub fn normalize_ocr_text(text: String) -> (r: String)
    ensures
        r@ == if blank_of(text@) {
            no_text_msg()
        } else {
            text@
        },
{
    if is_blank(text.as_str()) {
        "No text detected in the image.".to_owned()
    } else {
        text
    }
}

/// Where an OCR request stands.
pub enum OcrState {
    /// Waiting to hear whether the chosen executable answers a version probe.
    Probing { exe: String, image: String, out_base: String },
    /// The tool is running; it is expected to write `<out_base>.txt`.
    Running { out_base: String },
    /// Waiting for the contents of the tool's output file.
    Reading { out_file: String },
    /// The outcome is decided; the output file must still be deleted.
    Cleanup { out_file: String, outcome: Result<String, OcrError> },
    /// The request is over.
    Finished { outcome: Result<String, OcrError> },
}

/// What the previous effect reported.
pub enum OcrEvent {
    /// Whether running the executable with a version flag succeeded.
    Probed { ok: bool },
    /// Whether the tool exited successfully, and what it wrote to stderr.
    Ran { ok: bool, stderr: String },
    /// The output file's contents, or the read error.
    ReadBack { text: Result<String, String> },
    /// The attempt to delete the output file was made.
    Deleted,
}

/// The effect the caller must perform next.
pub enum OcrAction {
    /// Run the executable with a version flag to see whether it exists.
    RunProbe { exe: String },
    /// Run the tool on the image with the given output base path.
    RunOcr { exe: String, image: String, out_base: String },
    /// Read the tool's output file.
    ReadOutput { out_file: String },
    /// Attempt to delete the output file, then report `Deleted`.
    DeleteOutput { out_file: String },
    /// Nothing is left to do; return the outcome.
    Finish { outcome: Result<String, OcrError> },
}

/// The event kind that fits each state.
pub open spec fn event_fits(s: OcrState, e: OcrEvent) -> bool {
    match s {
        OcrState::Probing { .. } => e is Probed,
        OcrState::Running { .. } => e is Ran,
        OcrState::Reading { .. } => e is ReadBack,
        OcrState::Cleanup { .. } => e is Deleted,
        OcrState::Finished { .. } => false,
    }
}

/// The message reported when no executable answers the probe.
pub open spec fn missing_tool_msg() -> Seq<char> {
    "Tesseract OCR not found. Please install Tesseract OCR and try again."@
}

/// Starts an OCR request: probe the chosen executable first.
pub fn begin_ocr(exe: String, image: String, out_base: String) -> (r: (OcrState, OcrAction))
    ensures
        r.0 == (OcrState::Probing { exe, image, out_base }),
        r.1 == (OcrAction::RunProbe { exe }),
{
    let probe_exe = exe.clone();
    (OcrState::Probing { exe, image, out_base }, OcrAction::RunProbe { exe: probe_exe })
}

/// Advances an OCR request by one step.
///
/// The clauses below also carry two of the bridge's guarantees.  Missing
/// tool: when the probe fails the request finishes at once with
/// `ToolMissing`, and the action is neither a run nor a deletion, so no
/// filesystem write is requested.  Cleanup: the only transitions into
/// `Finished` come from `Cleanup` (whose entry always requests the
/// deletion of the output file) or from the failed probe, before any output
/// path was used.
pub fn ocr_step(s: OcrState, e: OcrEvent) -> (r: (OcrState, OcrAction))
    requires
        event_fits(s, e),
    ensures
        // failed probe: missing tool, no write requested
        s matches OcrState::Probing { .. } ==> e matches OcrEvent::Probed { ok: false } ==> {
            &&& r.0 matches OcrState::Finished { outcome: Err(OcrError::ToolMissing(m)) }
                && m@ == missing_tool_msg()
            &&& r.1 matches OcrAction::Finish { outcome: Err(OcrError::ToolMissing(m2)) }
                && m2@ == missing_tool_msg()
            &&& !(r.1 is RunOcr)
            &&& !(r.1 is DeleteOutput)
        },
        // successful probe: run the tool
        s matches OcrState::Probing { exe, image, out_base } ==> e matches OcrEvent::Probed {
            ok: true,
        } ==> {
            &&& r.0 == (OcrState::Running { out_base })
            &&& r.1 == (OcrAction::RunOcr { exe, image, out_base })
        },
        // successful run: read the output file <out_base>.txt
        s matches OcrState::Running { out_base } ==> e matches OcrEvent::Ran { ok: true, .. }
            ==> {
            &&& r.0 matches OcrState::Reading { out_file } && out_file@ == out_base@ + ".txt"@
            &&& r.1 matches OcrAction::ReadOutput { out_file: f2 } && f2@ == out_base@ + ".txt"@
        },
        // failed run: decide the error, then clean up
        s matches OcrState::Running { out_base } ==> e matches OcrEvent::Ran {
            ok: false,
            stderr,
        } ==> {
            &&& r.0 matches OcrState::Cleanup {
                out_file,
                outcome: Err(OcrError::ExecutionFailed(m)),
            } && out_file@ == out_base@ + ".txt"@ && m@ == "Tesseract failed: "@ + stderr@
            &&& r.1 matches OcrAction::DeleteOutput { out_file: f2 } && f2@ == out_base@
                + ".txt"@
        },
        // output read back: normalize blank text, then clean up
        s matches OcrState::Reading { out_file } ==> e matches OcrEvent::ReadBack {
            text: Ok(t),
        } ==> {
            &&& r.0 matches OcrState::Cleanup { out_file: f, outcome: Ok(res) } && f == out_file
                && res@ == if blank_of(t@) {
                no_text_msg()
            } else {
                t@
            }
            &&& r.1 matches OcrAction::DeleteOutput { out_file: f2 } && f2 == out_file
        },
        // output unreadable: decide the error, then clean up
        s matches OcrState::Reading { out_file } ==> e matches OcrEvent::ReadBack {
            text: Err(err),
        } ==> {
            &&& r.0 matches OcrState::Cleanup {
                out_file: f,
                outcome: Err(OcrError::ExecutionFailed(m)),
            } && f == out_file && m@ == "Failed to read OCR output: "@ + err@
            &&& r.1 matches OcrAction::DeleteOutput { out_file: f2 } && f2 == out_file
        },
        // deletion attempted: finish with the decided outcome
        s matches OcrState::Cleanup { outcome, .. } ==> e is Deleted ==> {
            &&& r.0 == (OcrState::Finished { outcome })
            &&& r.1 == (OcrAction::Finish { outcome })
        },
        // the only ways to finish: after cleanup, or straight from a failed
        // probe, before any output file path was used
        r.0 is Finished ==> (s is Cleanup || (s matches OcrState::Probing { .. } && r.0
            matches OcrState::Finished { outcome: Err(OcrError::ToolMissing(_)) })),
        // entering cleanup always requests the deletion of the output file
        r.0 matches OcrState::Cleanup { out_file, .. } ==> r.1 matches
            OcrAction::DeleteOutput { out_file: f2 } && f2 == out_file,
{
    match s {
        OcrState::Probing { exe, image, out_base } => {
            match e {
                OcrEvent::Probed { ok } => {
                    if ok {
                        let run_base = out_base.clone();
                        (
                            OcrState::Running { out_base },
                            OcrAction::RunOcr { exe, image, out_base: run_base },
                        )
                    } else {
                        let msg =
                            "Tesseract OCR not found. Please install Tesseract OCR and try again.";
                        (
                            OcrState::Finished { outcome: Err(OcrError::ToolMissing(msg.to_owned())) },
                            OcrAction::Finish { outcome: Err(OcrError::ToolMissing(msg.to_owned())) },
                        )
                    }
                },
                _ => {
                    proof {
                        assert(false);
                    }
                    (
                        OcrState::Finished { outcome: Err(OcrError::ToolMissing(String::new())) },
                        OcrAction::Finish { outcome: Err(OcrError::ToolMissing(String::new())) },
                    )
                },
            }
        },
        OcrState::Running { out_base } => {
            match e {
                OcrEvent::Ran { ok, stderr } => {
                    let mut out_file = out_base;
                    out_file.append(".txt");
                    if ok {
                        let f2 = out_file.clone();
                        (OcrState::Reading { out_file }, OcrAction::ReadOutput { out_file: f2 })
                    } else {
                        let mut m = String::new();
                        m.append("Tesseract failed: ");
                        m.append(stderr.as_str());
                        proof {
                            assert(m@ =~= "Tesseract failed: "@ + stderr@);
                        }
                        let f2 = out_file.clone();
                        (
                            OcrState::Cleanup {
                                out_file,
                                outcome: Err(OcrError::ExecutionFailed(m)),
                            },
                            OcrAction::DeleteOutput { out_file: f2 },
                        )
                    }
                },
                _ => {
                    proof {
                        assert(false);
                    }
                    (
                        OcrState::Finished { outcome: Err(OcrError::ToolMissing(String::new())) },
                        OcrAction::Finish { outcome: Err(OcrError::ToolMissing(String::new())) },
                    )
                },
            }
        },
        OcrState::Reading { out_file } => {
            match e {
                OcrEvent::ReadBack { text } => {
                    let outcome = match text {
                        Ok(t) => Ok(normalize_ocr_text(t)),
                        Err(err) => {
                            let mut m = String::new();
                            m.append("Failed to read OCR output: ");
                            m.append(err.as_str());
                            proof {
                                assert(m@ =~= "Failed to read OCR output: "@ + err@);
                            }
                            Err(OcrError::ExecutionFailed(m))
                        },
                    };
                    let f2 = out_file.clone();
                    (
                        OcrState::Cleanup { out_file, outcome },
                        OcrAction::DeleteOutput { out_file: f2 },
                    )
                },
                _ => {
                    proof {
                        assert(false);
                    }
                    (
                        OcrState::Finished { outcome: Err(OcrError::ToolMissing(String::new())) },
                        OcrAction::Finish { outcome: Err(OcrError::ToolMissing(String::new())) },
                    )
                },
            }
        },
        OcrState::Cleanup { out_file, outcome } => {
            match e {
                OcrEvent::Deleted => {
                    let outcome2 = clone_outcome(&outcome);
                    (OcrState::Finished { outcome }, OcrAction::Finish { outcome: outcome2 })
                },
                _ => {
                    proof {
                        assert(false);
                    }
                    (
                        OcrState::Finished { outcome: Err(OcrError::ToolMissing(String::new())) },
                        OcrAction::Finish { outcome: Err(OcrError::ToolMissing(String::new())) },
                    )
                },
            }
        },
        OcrState::Finished { outcome } => {
            proof {
                assert(false);
            }
            let o2 = clone_outcome(&outcome);
            (OcrState::Finished { outcome }, OcrAction::Finish { outcome: o2 })
        },
    }
}

/// Clones an OCR outcome field for field.
fn clone_outcome(o: &Result<String, OcrError>) -> (r: Result<String, OcrError>)
    ensures
        r == *o,
{
    match o {
        Ok(t) => Ok(t.clone()),
        Err(OcrError::ToolMissing(m)) => Err(OcrError::ToolMissing(m.clone())),
        Err(OcrError::ExecutionFailed(m)) => Err(OcrError::ExecutionFailed(m.clone())),
    }
}

} // verus!
