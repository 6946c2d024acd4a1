//! Bounded file-search engine.
//!
//! The search is a depth-bounded traversal over directory listings with a
//! hard cap on the number of results.  Reading a directory is an effect the
//! caller performs; the engine itself is a verified state machine: `step`
//! either finishes, asks for one directory listing (`ReadDir`), or consumes
//! one pending entry, and `supply_listing` hands the entries of the
//! requested directory back.  An entry matches when its name contains the
//! query as a case-insensitive substring; matching entries are recorded in
//! traversal order, and the traversal stops as soon as the result cap is
//! reached, including mid-directory.

use vstd::prelude::*;
use crate::text::{name_matches, name_matches_spec, lower_of};

verus! {

/// One directory entry, as the caller read it from the filesystem.
#[derive(Debug)]
pub struct FsEntry {
    pub name: String,
    pub path: String,
    pub is_dir: bool,
    pub size: Option<u64>,
}

/// One match produced by the search.
#[derive(Debug)]
pub struct SearchResult {
    pub name: String,
    pub path: String,
    pub is_dir: bool,
    pub size: Option<u64>,
}

/// Pending traversal work: visit one entry, or expand one directory whose
/// listing sits at the given depth.
pub enum WorkItem {
    Visit { entry: FsEntry, depth: usize },
    Expand { path: String, depth: usize },
}

/// What the caller must do next.
pub enum SearchStep {
    /// Internal work was done; call `step` again.
    Continue,
    /// Read the named directory and hand its entries to `supply_listing`.
    ReadDir(String),
    /// The search is finished; the results are complete.
    Done,
}

/// The depth recorded in a work item never exceeds the depth cap.
pub open spec fn item_depth_ok(it: WorkItem, max_depth: usize) -> bool {
    match it {
        WorkItem::Visit { entry, depth } => depth <= max_depth,
        WorkItem::Expand { path, depth } => depth <= max_depth,
    }
}

/// The search result recording an entry, fields carried over unchanged.
pub open spec fn result_of(entry: FsEntry) -> SearchResult {
    SearchResult { name: entry.name, path: entry.path, is_dir: entry.is_dir, size: entry.size }
}

/// The visit items that a listing contributes, last entry first, so that
/// popping them from the stack visits the entries in listing order.
pub open spec fn visit_items(entries: Seq<FsEntry>, depth: usize) -> Seq<WorkItem> {
    entries.reverse().map_values(|e: FsEntry| WorkItem::Visit { entry: e, depth })
}

/// State of one bounded search.
pub struct SearchState {
    pub query: String,
    pub query_lower: Vec<u8>,
    pub max_depth: usize,
    pub max_results: usize,
    pub results: Vec<SearchResult>,
    pub stack: Vec<WorkItem>,
    pub awaiting: bool,
    pub expand_depth: usize,
}

impl SearchState {
    /// Well-formedness: the cached lowercased query is faithful, the results
    /// never exceed the cap and all match the query, and no recorded or
    /// requested depth exceeds the depth cap.
    pub open spec fn wf(self) -> bool {
        &&& self.query_lower@ == lower_of(self.query@)
        &&& self.results@.len() <= self.max_results
        &&& forall|k: int|
            0 <= k < self.results@.len() ==> name_matches_spec(
                #[trigger] self.results@[k].name@,
                self.query@,
            )
        &&& forall|k: int|
            0 <= k < self.stack@.len() ==> item_depth_ok(#[trigger] self.stack@[k], self.max_depth)
        &&& (self.awaiting ==> self.expand_depth <= self.max_depth)
    }
}

/// Starts a search rooted at `root`: no results yet, the root listing
/// pending at depth zero.
pub fn begin_search(query: String, root: String, max_depth: usize, max_results: usize) -> (s:
    SearchState)
    ensures
        s.wf(),
        s.query == query,
        s.max_depth == max_depth,
        s.max_results == max_results,
        s.results@.len() == 0,
        s.stack@ == seq![(WorkItem::Expand { path: root, depth: 0 })],
        !s.awaiting,
{
    let query_lower = crate::text::lower_bytes(query.as_str());
    let mut stack: Vec<WorkItem> = Vec::new();
    stack.push(WorkItem::Expand { path: root, depth: 0 });
    SearchState {
        query,
        query_lower,
        max_depth,
        max_results,
        results: Vec::new(),
        stack,
        awaiting: false,
        expand_depth: 0,
    }
}

impl SearchState {
    /// Performs one unit of traversal work.
    ///
    /// With the result cap reached or no work left the search is `Done` and
    /// nothing changes.  An `Expand` item turns into a `ReadDir` request at
    /// its depth.  A `Visit` item is consumed: the entry is recorded iff its
    /// name matches the query, and a directory entry whose listing would
    /// still sit within the depth cap is scheduled for expansion one level
    /// deeper.
    pub fn step(&mut self) -> (r: SearchStep)
        requires
            old(self).wf(),
            !old(self).awaiting,
        ensures
            final(self).wf(),
            final(self).query == old(self).query,
            final(self).max_depth == old(self).max_depth,
            final(self).max_results == old(self).max_results,
            (old(self).results@.len() >= old(self).max_results || old(self).stack@.len() == 0)
                ==> (r is Done && *final(self) == *old(self)),
            (old(self).results@.len() < old(self).max_results && old(self).stack@.len() > 0)
                ==> match old(self).stack@.last() {
                WorkItem::Expand { path, depth } => {
                    &&& r == SearchStep::ReadDir(path)
                    &&& final(self).stack@ == old(self).stack@.drop_last()
                    &&& final(self).results@ == old(self).results@
                    &&& final(self).awaiting
                    &&& final(self).expand_depth == depth
                },
                WorkItem::Visit { entry, depth } => {
                    &&& r is Continue
                    &&& !final(self).awaiting
                    &&& final(self).results@ == if name_matches_spec(entry.name@, old(self).query@) {
                        old(self).results@.push(result_of(entry))
                    } else {
                        old(self).results@
                    }
                    &&& final(self).stack@ == if entry.is_dir && depth < old(self).max_depth {
                        old(self).stack@.drop_last().push(
                            WorkItem::Expand { path: entry.path, depth: (depth + 1) as usize },
                        )
                    } else {
                        old(self).stack@.drop_last()
                    }
                },
            },
    {
        if self.results.len() >= self.max_results || self.stack.len() == 0 {
            return SearchStep::Done;
        }
        let top = self.stack.pop().unwrap();
        match top {
            WorkItem::Expand { path, depth } => {
                self.awaiting = true;
                self.expand_depth = depth;
                SearchStep::ReadDir(path)
            },
            WorkItem::Visit { entry, depth } => {
                if name_matches(entry.name.as_str(), self.query.as_str()) {
                    let res = SearchResult {
                        name: entry.name.clone(),
                        path: entry.path.clone(),
                        is_dir: entry.is_dir,
                        size: entry.size,
                    };
                    self.results.push(res);
                }
                if entry.is_dir && depth < self.max_depth {
                    self.stack.push(WorkItem::Expand { path: entry.path, depth: depth + 1 });
                }
                SearchStep::Continue
            },
        }
    }

    /// Hands back the entries of the directory requested by the last
    /// `ReadDir`.  They are stacked last-first, so the traversal visits them
    /// in listing order, each at the requested depth.
    pub fn supply_listing(&mut self, entries: Vec<FsEntry>)
        requires
            old(self).wf(),
            old(self).awaiting,
        ensures
            final(self).wf(),
            !final(self).awaiting,
            final(self).query == old(self).query,
            final(self).max_depth == old(self).max_depth,
            final(self).max_results == old(self).max_results,
            final(self).results@ == old(self).results@,
            final(self).stack@ == old(self).stack@ + visit_items(
                entries@,
                old(self).expand_depth,
            ),
    {
        let ghost orig = entries@;
        let ghost depth = self.expand_depth;
        let mut entries = entries;
        proof {
            assert(orig.take(orig.len() as int) =~= orig);
            assert(orig.skip(orig.len() as int) =~= Seq::<FsEntry>::empty());
            assert(visit_items(Seq::<FsEntry>::empty(), depth) =~= Seq::<WorkItem>::empty());
            assert(self.stack@ =~= self.stack@ + visit_items(Seq::<FsEntry>::empty(), depth));
        }
        while entries.len() > 0
            invariant
                self.wf(),
                self.awaiting,
                self.expand_depth == depth,
                self.query == old(self).query,
                self.query_lower == old(self).query_lower,
                self.max_depth == old(self).max_depth,
                self.max_results == old(self).max_results,
                self.results@ == old(self).results@,
                entries@.len() <= orig.len(),
                entries@ == orig.take(entries@.len() as int),
                self.stack@ == old(self).stack@ + visit_items(
                    orig.skip(entries@.len() as int),
                    depth,
                ),
            decreases entries@.len(),
        {
            let ghost k = entries@.len() as int;
            let e = entries.pop().unwrap();
            proof {
                assert(orig.take(k)[k - 1] == orig[k - 1]);
                assert(e == orig[k - 1]);
                assert(entries@ =~= orig.take(k - 1));
            }
            self.stack.push(WorkItem::Visit { entry: e, depth: self.expand_depth });
            proof {
                let f = |x: FsEntry| WorkItem::Visit { entry: x, depth };
                assert(orig.skip(k - 1).reverse().map_values(f) =~= orig.skip(k)
                    .reverse()
                    .map_values(f)
                    .push(WorkItem::Visit { entry: orig[k - 1], depth }));
                assert(self.stack@ =~= old(self).stack@ + visit_items(orig.skip(k - 1), depth));
            }
        }
        self.awaiting = false;
        proof {
            assert(orig.skip(0) =~= orig);
            assert(orig.take(orig.len() as int) =~= orig);
        }
    }
}

/// File search is bounded: a well-formed search state never holds more
/// results than `max_results`, every recorded result's name contains the
/// query as a case-insensitive substring, and a pending directory read never
/// sits deeper than `max_depth`.
pub proof fn lemma_search_bounded(s: SearchState)
    requires
        s.wf(),
    ensures
        s.results@.len() <= s.max_results,
        forall|k: int|
            0 <= k < s.results@.len() ==> name_matches_spec(
                #[trigger] s.results@[k].name@,
                s.query@,
            ),
        s.awaiting ==> s.expand_depth <= s.max_depth,
{
}

} // verus!
