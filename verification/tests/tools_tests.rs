use deskai::ocr::OcrError;
use deskai::search::SearchResult;
use deskai::tools::{
    builtin_tools, calendar_events, check_write_name, emails, finish_effect, is_registered_tool,
    resolve_write_path, EffectOutcome, EffectRequest, ExecutorConfig, ToolError, ToolExecutor,
    ToolOutput, ToolParams, ToolResult, ToolRun, output_text,
};

fn executor() -> ToolExecutor {
    ToolExecutor::new(ExecutorConfig {
        os_name: "linux".to_string(),
        arch: "x86_64".to_string(),
        out_dir: "/data/deskai/out".to_string(),
    })
}

fn params(pairs: &[(&str, &str)]) -> ToolParams {
    let mut p = ToolParams::new();
    for (k, v) in pairs {
        p.push(k.to_string(), v.to_string());
    }
    p
}

fn well_formed_params(tool: &str) -> ToolParams {
    match tool {
        "file_search" => params(&[("query", "report")]),
        "file_read" | "read_file" => params(&[("path", "/tmp/a.txt")]),
        "file_write" => params(&[("path", "notes.txt"), ("content", "hello")]),
        "ocr" => params(&[("image_path", "scan.png")]),
        _ => params(&[]),
    }
}

fn run_tool_name(run: &ToolRun) -> &str {
    match run {
        ToolRun::Finished(t) => t.tool.as_str(),
        ToolRun::Pending { tool, .. } => tool.as_str(),
    }
}

#[test]
fn every_registered_tool_answers_under_its_own_name() {
    let ex = executor();
    let mut names: Vec<String> = builtin_tools().into_iter().map(|d| d.name).collect();
    names.push("read_file".to_string());
    for name in &names {
        assert!(is_registered_tool(name), "{} should be registered", name);
        let r = ex.execute(name, &well_formed_params(name));
        match r {
            Ok(run) => assert_eq!(run_tool_name(&run), name),
            Err(_) => panic!("{} failed on well-formed parameters", name),
        }
    }
}

#[test]
fn unknown_tool_is_rejected() {
    let ex = executor();
    let r = ex.execute("code_interpreter", &params(&[]));
    match r {
        Err(ToolError::UnknownTool(n)) => assert_eq!(n, "code_interpreter"),
        _ => panic!("expected an unknown-tool error"),
    }
    assert!(!is_registered_tool("code_interpreter"));
}

#[test]
fn calculator_answers_its_placeholder() {
    let ex = executor();
    match ex.execute("calculator", &params(&[])) {
        Ok(ToolRun::Finished(t)) => {
            assert_eq!(t.tool, "calculator");
            match t.output {
                ToolOutput::Text(s) => {
                    assert_eq!(s, "Calculator is a placeholder; no evaluation was performed.")
                }
                _ => panic!("expected text output"),
            }
        }
        _ => panic!("calculator should finish directly"),
    }
}

#[test]
fn system_info_reports_os_and_arch() {
    let ex = executor();
    match ex.execute("system_info", &params(&[])) {
        Ok(ToolRun::Finished(t)) => match t.output {
            ToolOutput::Text(s) => assert_eq!(s, "linux x86_64"),
            _ => panic!("expected text output"),
        },
        _ => panic!("system_info should finish directly"),
    }
}

#[test]
fn file_search_requests_the_search_effect() {
    let ex = executor();
    match ex.execute("file_search", &params(&[("query", "report"), ("search_path", "/docs")])) {
        Ok(ToolRun::Pending { tool, effect }) => {
            assert_eq!(tool, "file_search");
            match effect {
                EffectRequest::SearchFiles { query, root } => {
                    assert_eq!(query, "report");
                    assert_eq!(root.as_deref(), Some("/docs"));
                }
                _ => panic!("expected a search effect"),
            }
        }
        _ => panic!("file_search should be pending"),
    }
}

#[test]
fn file_search_without_query_is_bad_params() {
    let ex = executor();
    assert!(matches!(
        ex.execute("file_search", &params(&[])),
        Err(ToolError::BadParams(_))
    ));
}

#[test]
fn file_read_and_alias_request_the_read_effect() {
    let ex = executor();
    for name in ["file_read", "read_file"] {
        match ex.execute(name, &params(&[("path", "/tmp/a.txt")])) {
            Ok(ToolRun::Pending { tool, effect }) => {
                assert_eq!(tool, name);
                assert!(matches!(effect, EffectRequest::ReadFile { path } if path == "/tmp/a.txt"));
            }
            _ => panic!("{} should be pending", name),
        }
    }
}

#[test]
fn file_write_is_confined_to_the_output_directory() {
    let ex = executor();
    match ex.execute("file_write", &params(&[("path", "notes.txt"), ("content", "hi")])) {
        Ok(ToolRun::Pending { effect, .. }) => match effect {
            EffectRequest::WriteFile { path, content } => {
                assert_eq!(path, "/data/deskai/out/notes.txt");
                assert_eq!(content, "hi");
            }
            _ => panic!("expected a write effect"),
        },
        _ => panic!("file_write should be pending"),
    }
}

#[test]
fn file_write_rejects_escaping_paths() {
    let ex = executor();
    for bad in ["../evil.txt", "a/b.txt", "C:\\x.txt", ".hidden", "", "..", "a:b"] {
        assert!(
            matches!(
                ex.execute("file_write", &params(&[("path", bad), ("content", "x")])),
                Err(ToolError::BadParams(_))
            ),
            "{:?} should be rejected",
            bad
        );
    }
}

#[test]
fn write_name_check_and_path_resolution() {
    assert!(check_write_name("notes.txt"));
    assert!(check_write_name("a-b_c.1"));
    assert!(!check_write_name(".."));
    assert!(!check_write_name("a/b"));
    assert!(!check_write_name("a\\b"));
    assert!(!check_write_name("c:d"));
    assert!(!check_write_name(""));
    assert_eq!(resolve_write_path("out", "notes.txt"), Some("out/notes.txt".to_string()));
    assert_eq!(resolve_write_path("out", "../evil"), None);
}

#[test]
fn ocr_tool_requests_the_ocr_effect() {
    let ex = executor();
    match ex.execute("ocr", &params(&[("image_path", "scan.png")])) {
        Ok(ToolRun::Pending { tool, effect }) => {
            assert_eq!(tool, "ocr");
            assert!(matches!(effect, EffectRequest::RunOcrTool { image_path } if image_path == "scan.png"));
        }
        _ => panic!("ocr should be pending"),
    }
}

#[test]
fn calendar_and_email_answer_canned_records() {
    let ex = executor();
    match ex.execute("calendar", &params(&[("start_date", "2026-01-01T09:00:00")])) {
        Ok(ToolRun::Finished(t)) => match t.output {
            ToolOutput::Events(v) => {
                assert_eq!(v.len(), 1);
                assert_eq!(v[0].title, "Team Meeting");
                assert_eq!(v[0].start, "2026-01-01T09:00:00");
                assert_eq!(v[0].end, "2025-10-20T11:00:00");
            }
            _ => panic!("expected events"),
        },
        _ => panic!("calendar should finish directly"),
    }
    match ex.execute("email", &params(&[])) {
        Ok(ToolRun::Finished(t)) => match t.output {
            ToolOutput::Messages(v) => {
                assert_eq!(v.len(), 1);
                assert_eq!(v[0].subject, "Test Email");
                assert_eq!(v[0].folder, "Inbox");
            }
            _ => panic!("expected messages"),
        },
        _ => panic!("email should finish directly"),
    }
}

#[test]
fn canned_records_default_their_fields() {
    let ev = calendar_events(&None, &None);
    assert_eq!(ev[0].start, "2025-10-20T10:00:00");
    assert_eq!(ev[0].end, "2025-10-20T11:00:00");
    assert_eq!(ev[0].description, "Weekly team sync");
    let ms = emails(&Some("Archive".to_string()));
    assert_eq!(ms[0].folder, "Archive");
    assert_eq!(ms[0].from_addr, "example@email.com");
}

#[test]
fn params_first_binding_wins() {
    let p = params(&[("k", "first"), ("k", "second")]);
    assert_eq!(p.get("k"), Some("first".to_string()));
    assert_eq!(p.get("missing"), None);
}

#[test]
fn finish_effect_carries_the_tool_name() {
    let r = finish_effect(
        "file_read".to_string(),
        EffectOutcome::ReadDone(Ok("contents".to_string())),
    );
    match r {
        Ok(t) => {
            assert_eq!(t.tool, "file_read");
            assert!(matches!(t.output, ToolOutput::Text(s) if s == "contents"));
        }
        Err(_) => panic!("expected a result"),
    }
}

#[test]
fn finish_effect_read_failure_is_io() {
    let r = finish_effect(
        "file_read".to_string(),
        EffectOutcome::ReadDone(Err("denied".to_string())),
    );
    match r {
        Err(ToolError::Io(m)) => assert_eq!(m, "Failed to read file: denied"),
        _ => panic!("expected an io error"),
    }
}

#[test]
fn finish_effect_write_outcomes() {
    let ok = finish_effect("file_write".to_string(), EffectOutcome::WroteDone(Ok(())));
    assert!(matches!(ok, Ok(t) if matches!(&t.output, ToolOutput::Text(s) if s == "File written.")));
    let bad = finish_effect(
        "file_write".to_string(),
        EffectOutcome::WroteDone(Err("disk full".to_string())),
    );
    assert!(matches!(bad, Err(ToolError::Io(m)) if m == "Failed to write file: disk full"));
}

#[test]
fn finish_effect_ocr_outcomes() {
    let ok = finish_effect(
        "ocr".to_string(),
        EffectOutcome::OcrDone(Ok("read me".to_string())),
    );
    assert!(matches!(ok, Ok(t) if t.tool == "ocr"));
    let bad = finish_effect(
        "ocr".to_string(),
        EffectOutcome::OcrDone(Err(OcrError::ToolMissing("not found".to_string()))),
    );
    assert!(matches!(bad, Err(ToolError::Ocr(OcrError::ToolMissing(m))) if m == "not found"));
}

#[test]
fn finish_effect_search_results_are_kept() {
    let results = vec![SearchResult {
        name: "a.txt".to_string(),
        path: "docs/a.txt".to_string(),
        is_dir: false,
        size: Some(3),
    }];
    let r = finish_effect("file_search".to_string(), EffectOutcome::Searched(results));
    match r {
        Ok(t) => match t.output {
            ToolOutput::Files(v) => assert_eq!(v[0].path, "docs/a.txt"),
            _ => panic!("expected files"),
        },
        Err(_) => panic!("expected a result"),
    }
}

#[test]
fn output_text_renders_each_kind() {
    assert_eq!(output_text(&ToolOutput::Text("plain".to_string())), "plain");
    let files = ToolOutput::Files(vec![
        SearchResult { name: "a".into(), path: "p/a".into(), is_dir: false, size: None },
        SearchResult { name: "b".into(), path: "p/b".into(), is_dir: true, size: None },
    ]);
    assert_eq!(output_text(&files), "p/a\np/b");
    let events = ToolOutput::Events(calendar_events(&None, &None));
    assert_eq!(output_text(&events), "Team Meeting");
    let messages = ToolOutput::Messages(emails(&None));
    assert_eq!(output_text(&messages), "Test Email");
}

#[test]
fn tool_error_messages() {
    assert_eq!(
        ToolError::UnknownTool("zap".to_string()).message(),
        "Unknown tool: zap"
    );
    assert_eq!(ToolError::BadParams("need x".to_string()).message(), "need x");
    assert_eq!(ToolError::Io("oops".to_string()).message(), "oops");
    assert_eq!(
        ToolError::Ocr(OcrError::ExecutionFailed("bad".to_string())).message(),
        "bad"
    );
}

#[test]
fn catalog_lists_the_eight_tools() {
    let tools = builtin_tools();
    let names: Vec<String> = tools.iter().map(|d| d.name.clone()).collect();
    assert_eq!(
        names,
        vec![
            "calculator",
            "file_search",
            "file_read",
            "file_write",
            "system_info",
            "ocr",
            "calendar",
            "email"
        ]
    );
    for d in &tools {
        assert!(!d.description.is_empty());
    }
}

#[test]
fn pending_run_completes_with_the_requested_name() {
    // the two-phase path of the executor: dispatch, effect, completion
    let ex = executor();
    let run = ex.execute("file_read", &params(&[("path", "/tmp/x")]));
    let tool = match run {
        Ok(ToolRun::Pending { tool, .. }) => tool,
        _ => panic!("file_read should be pending"),
    };
    let done = finish_effect(tool, EffectOutcome::ReadDone(Ok("data".to_string())));
    let t: ToolResult = done.unwrap();
    assert_eq!(t.tool, "file_read");
}
