use deskai::search::{begin_search, FsEntry, SearchState, SearchStep, SearchResult};

fn file(name: &str, path: &str) -> FsEntry {
    FsEntry { name: name.to_string(), path: path.to_string(), is_dir: false, size: Some(10) }
}

fn dir(name: &str, path: &str) -> FsEntry {
    FsEntry { name: name.to_string(), path: path.to_string(), is_dir: true, size: None }
}

/// Drives a search over an in-memory tree: each directory path maps to its
/// listing; unknown paths are empty.  Returns the results and every
/// directory path the engine asked to read.
fn run_search(
    mut state: SearchState,
    tree: &[(&str, Vec<FsEntry>)],
) -> (Vec<SearchResult>, Vec<String>) {
    let mut reads: Vec<String> = Vec::new();
    loop {
        match state.step() {
            SearchStep::Continue => {}
            SearchStep::ReadDir(path) => {
                reads.push(path.clone());
                let listing = tree
                    .iter()
                    .find(|(p, _)| *p == path)
                    .map(|(_, l)| clone_listing(l))
                    .unwrap_or_default();
                state.supply_listing(listing);
            }
            SearchStep::Done => break,
        }
    }
    (state.results, reads)
}

fn clone_listing(l: &[FsEntry]) -> Vec<FsEntry> {
    l.iter()
        .map(|e| FsEntry {
            name: e.name.clone(),
            path: e.path.clone(),
            is_dir: e.is_dir,
            size: e.size,
        })
        .collect()
}

#[test]
fn search_matches_report_files_only() {
    let state = begin_search("report".to_string(), "docs".to_string(), 2, 50);
    let tree = vec![(
        "docs",
        vec![
            file("ReportDraft.txt", "docs/ReportDraft.txt"),
            file("notes.md", "docs/notes.md"),
            file("report_final.pdf", "docs/report_final.pdf"),
        ],
    )];
    let (results, reads) = run_search(state, &tree);
    assert_eq!(reads, vec!["docs".to_string()]);
    assert_eq!(results.len(), 2);
    assert_eq!(results[0].name, "ReportDraft.txt");
    assert_eq!(results[1].name, "report_final.pdf");
}

#[test]
fn search_never_exceeds_max_results() {
    let listing: Vec<FsEntry> = (0..10)
        .map(|i| file(&format!("hit{}.txt", i), &format!("docs/hit{}.txt", i)))
        .collect();
    let state = begin_search("hit".to_string(), "docs".to_string(), 2, 3);
    let (results, _) = run_search(state, &[("docs", listing)]);
    assert_eq!(results.len(), 3);
    assert_eq!(results[0].name, "hit0.txt");
    assert_eq!(results[2].name, "hit2.txt");
}

#[test]
fn search_never_descends_beyond_max_depth() {
    // a chain deeper than the cap: docs -> d1 -> d2 -> d3 -> d4
    let tree = vec![
        ("docs", vec![dir("d1", "docs/d1"), file("hit-root.txt", "docs/hit-root.txt")]),
        ("docs/d1", vec![dir("d2", "docs/d1/d2"), file("hit-one.txt", "docs/d1/hit-one.txt")]),
        ("docs/d1/d2", vec![dir("d3", "docs/d1/d2/d3"), file("hit-two.txt", "docs/d1/d2/hit-two.txt")]),
        ("docs/d1/d2/d3", vec![file("hit-three.txt", "docs/d1/d2/d3/hit-three.txt")]),
    ];
    let state = begin_search("hit".to_string(), "docs".to_string(), 2, 50);
    let (results, reads) = run_search(state, &tree);
    // listings at depth 0, 1 and 2 are read; depth 3 is never requested
    assert_eq!(
        reads,
        vec!["docs".to_string(), "docs/d1".to_string(), "docs/d1/d2".to_string()]
    );
    // depth-first order: deepest reachable matches first, the root's last
    let names: Vec<&str> = results.iter().map(|r| r.name.as_str()).collect();
    assert_eq!(names, vec!["hit-two.txt", "hit-one.txt", "hit-root.txt"]);
}

#[test]
fn search_stops_mid_directory_and_stops_descending() {
    // the cap is hit before the subdirectory's expansion is processed
    let tree = vec![
        (
            "docs",
            vec![
                dir("hitdir", "docs/hitdir"),
                file("hit-a.txt", "docs/hit-a.txt"),
                file("hit-b.txt", "docs/hit-b.txt"),
            ],
        ),
        ("docs/hitdir", vec![file("hit-inner.txt", "docs/hitdir/hit-inner.txt")]),
    ];
    let state = begin_search("hit".to_string(), "docs".to_string(), 2, 2);
    let (results, reads) = run_search(state, &tree);
    // the matching directory is entered first; the cap then stops the
    // traversal mid-directory, so hit-a and hit-b are never recorded
    assert_eq!(results.len(), 2);
    assert_eq!(results[0].name, "hitdir");
    assert_eq!(results[1].name, "hit-inner.txt");
    assert_eq!(reads, vec!["docs".to_string(), "docs/hitdir".to_string()]);
}

#[test]
fn search_matching_directories_are_recorded() {
    let tree = vec![
        ("docs", vec![dir("reports", "docs/reports")]),
        ("docs/reports", vec![file("summary.txt", "docs/reports/summary.txt")]),
    ];
    let state = begin_search("report".to_string(), "docs".to_string(), 2, 50);
    let (results, _) = run_search(state, &tree);
    assert_eq!(results.len(), 1);
    assert_eq!(results[0].name, "reports");
    assert!(results[0].is_dir);
}
