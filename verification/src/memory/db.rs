//! The records the brain stores, and the decisions around reading them back:
//! query limits, the memory-search fallback order, message order.
use crate::memory::search::{normalize_fts_query, spec_normalize_fts_query};
use crate::text::{concat_str, owned, trim, trim_str};
use vstd::prelude::*;

verus! {

/// A stored chat message.
#[derive(Debug, Clone, PartialEq, Eq)]
pub struct MessageRecord {
    pub id: String,
    pub conversation_id: String,
    pub role: String,
    pub content: String,
    pub mode: Option<String>,
    pub created_at: String,
}

/// A stored long-term memory.
#[derive(Debug, Clone, PartialEq, Eq)]
pub struct MemoryRecord {
    pub id: String,
    pub scope: String,
    pub project_id: Option<String>,
    pub kind: String,
    pub content: String,
    pub tags: Option<String>,
    pub importance: i64,
    pub created_at: String,
    pub updated_at: String,
}

/// A registered project.
#[derive(Debug, Clone, PartialEq, Eq)]
pub struct ProjectRecord {
    pub id: String,
    pub name: String,
    pub path: Option<String>,
    pub kind: Option<String>,
    pub rules: Option<String>,
    pub status: String,
    pub active_model_profile: Option<String>,
    pub created_at: String,
    pub updated_at: String,
}

/// The working state of a project.
#[derive(Debug, Clone, PartialEq, Eq)]
pub struct ProjectStateRecord {
    pub project_id: String,
    pub current_step: Option<String>,
    pub last_commit: Option<String>,
    pub last_tag: Option<String>,
    pub summary: Option<String>,
    pub next_step: Option<String>,
    pub status: String,
    pub created_at: String,
    pub updated_at: String,
}

/// A tool call waiting for a decision.
#[derive(Debug, Clone, PartialEq, Eq)]
pub struct PendingToolCallRecord {
    pub id: String,
    pub tool_name: String,
    pub project_id: Option<String>,
    pub input_json: String,
    pub status: String,
    pub danger_level: String,
    pub created_at: String,
    pub updated_at: String,
    pub decided_at: Option<String>,
    pub decision_note: Option<String>,
}

/// The project registered on first start under the configured default id.
pub fn seed_project(default_project_id: &str, now: String) -> (r: ProjectRecord)
    ensures
        r.id@ == default_project_id@,
        r.name@ == "Logixa Brain"@,
        r.path is None,
        opt_view_is(r.kind, "brain-core"@),
        opt_view_is(r.rules, "Headless local AI brain core. UI is always an external client."@),
        r.status@ == "active"@,
        r.active_model_profile is None,
        r.created_at == now,
        r.updated_at == now,
{
    ProjectRecord {
        id: owned(default_project_id),
        name: owned("Logixa Brain"),
        path: None,
        kind: Some(owned("brain-core")),
        rules: Some(owned("Headless local AI brain core. UI is always an external client.")),
        status: owned("active"),
        active_model_profile: None,
        created_at: now.clone(),
        updated_at: now,
    }
}

/// The state recorded on first start for the default project.
pub fn seed_project_state(default_project_id: &str, now: String) -> (r: ProjectStateRecord)
    ensures
        r.project_id@ == default_project_id@,
        opt_view_is(r.current_step, "Step 5 — Project State Memory"@),
        r.last_commit is None,
        opt_view_is(r.last_tag, "brain-step4-long-term-memory"@),
        opt_view_is(
            r.summary,
            "Logixa Brain Core is a headless Rust service with Qwen runtime, Gigi prompt policy, conversation history, and long-term memory."@,
        ),
        opt_view_is(r.next_step, "Add project state memory so Gigi can know the active project status."@),
        r.status@ == "active"@,
        r.created_at == now,
        r.updated_at == now,
{
    ProjectStateRecord {
        project_id: owned(default_project_id),
        current_step: Some(owned("Step 5 — Project State Memory")),
        last_commit: None,
        last_tag: Some(owned("brain-step4-long-term-memory")),
        summary: Some(
            owned(
                "Logixa Brain Core is a headless Rust service with Qwen runtime, Gigi prompt policy, conversation history, and long-term memory.",
            ),
        ),
        next_step: Some(owned("Add project state memory so Gigi can know the active project status.")),
        status: owned("active"),
        created_at: now.clone(),
        updated_at: now,
    }
}

/// `o` holds a string with the characters `v`.
pub open spec fn opt_view_is(o: Option<String>, v: Seq<char>) -> bool {
    o matches Some(s) && s@ == v
}

/// `v` clamped to `[lo, hi]`.
pub open spec fn clamp(v: int, lo: int, hi: int) -> int {
    if v < lo {
        lo
    } else if v > hi {
        hi
    } else {
        v
    }
}

/// The number of memories a search returns at most: the requested limit
/// clamped to `[1, 24]`.
pub fn bounded_search_limit(limit: usize) -> (r: i64)
    ensures
        r == clamp(limit as int, 1, 24),
{
    if limit < 1 {
        1
    } else if limit > 24 {
        24
    } else {
        limit as i64
    }
}

/// The number of tool calls or runs a listing returns at most: the requested
/// limit clamped to `[1, 100]`.
pub fn bounded_list_limit(limit: usize) -> (r: i64)
    ensures
        r == clamp(limit as int, 1, 100),
{
    if limit < 1 {
        1
    } else if limit > 100 {
        100
    } else {
        limit as i64
    }
}

/// The pattern of a substring match on `query`: `%query%`.
pub fn like_pattern(query: &str) -> (r: String)
    ensures
        r@ == "%"@ + query@ + "%"@,
{
    let mut r = concat_str("%", query);
    r.append("%");
    r
}

/// The next step of a memory search.
#[derive(Debug, Clone, PartialEq, Eq)]
pub enum SearchAction {
    /// List the memories that match the filters, best first.
    ListFiltered,
    /// Run the full-text search with this expression.
    FullText(String),
    /// Run the substring search for this text.
    Like(String),
    /// The search is over; these are the results.
    Return(Vec<MemoryRecord>),
}

/// The first step of a search for `query`: an empty (blank) query lists the
/// filtered memories; otherwise the full-text search runs if the query yields
/// search terms, else the substring search on the trimmed query.
pub open spec fn first_search_step_ok(query: Seq<char>, a: SearchAction) -> bool {
    let t = trim(query);
    if t.len() == 0 {
        a is ListFiltered
    } else if spec_normalize_fts_query(t).len() > 0 {
        a matches SearchAction::FullText(f) && f@ == spec_normalize_fts_query(t)
    } else {
        a matches SearchAction::Like(q) && q@ == t
    }
}

/// The first step of a memory search.
pub fn first_search_action(query: &str) -> (a: SearchAction)
    ensures
        first_search_step_ok(query@, a),
{
    let t = trim_str(query);
    if t.as_str().is_empty() {
        return SearchAction::ListFiltered;
    }
    let fts = normalize_fts_query(t.as_str());
    if !fts.as_str().is_empty() {
        SearchAction::FullText(fts)
    } else {
        SearchAction::Like(t)
    }
}

/// The step after the full-text search (`found` is `None` when it failed).
pub open spec fn after_full_text_ok(query: Seq<char>, found: Option<Vec<MemoryRecord>>, a: SearchAction) -> bool {
    match found {
        Some(items) if items.len() > 0 => a == SearchAction::Return(items),
        _ => a matches SearchAction::Like(q) && q@ == trim(query),
    }
}

/// The step after the substring search.
pub open spec fn after_like_ok(found: Vec<MemoryRecord>, a: SearchAction) -> bool {
    if found.len() > 0 {
        a == SearchAction::Return(found)
    } else {
        a is ListFiltered
    }
}

/// The memories a search for `query` returns, given what the full-text search
/// (`None` when it failed), the substring search and the filtered listing give.
pub open spec fn search_outcome(
    query: Seq<char>,
    fts: Option<Vec<MemoryRecord>>,
    like: Vec<MemoryRecord>,
    listed: Vec<MemoryRecord>,
) -> Vec<MemoryRecord> {
    let t = trim(query);
    if t.len() == 0 {
        listed
    } else if spec_normalize_fts_query(t).len() > 0 && (fts matches Some(v) && v.len() > 0) {
        fts->0
    } else if like.len() > 0 {
        like
    } else {
        listed
    }
}

/// Where a search ends after the substring step `a3`.
pub open spec fn end_after_like(a3: SearchAction, listed: Vec<MemoryRecord>) -> Vec<MemoryRecord> {
    match a3 {
        SearchAction::Return(v) => v,
        _ => listed,
    }
}

/// Where a search ends when its steps are `a1`, then (after a full-text
/// search) `a2`, then (after a substring search) `a3`.
pub open spec fn search_ends_with(
    a1: SearchAction,
    a2: SearchAction,
    a3: SearchAction,
    listed: Vec<MemoryRecord>,
) -> Vec<MemoryRecord> {
    match a1 {
        SearchAction::FullText(_) => match a2 {
            SearchAction::Return(v) => v,
            _ => end_after_like(a3, listed),
        },
        SearchAction::Like(_) => end_after_like(a3, listed),
        SearchAction::Return(v) => v,
        SearchAction::ListFiltered => listed,
    }
}

/// A memory search returns the full-text matches if there are any, else the
/// substring matches if there are any, else the top filtered memories; a
/// blank query goes straight to the filtered memories.
pub proof fn lemma_search_fallback_order(
    query: Seq<char>,
    fts: Option<Vec<MemoryRecord>>,
    like: Vec<MemoryRecord>,
    listed: Vec<MemoryRecord>,
    a1: SearchAction,
    a2: SearchAction,
    a3: SearchAction,
)
    requires
        first_search_step_ok(query, a1),
        after_full_text_ok(query, fts, a2),
        after_like_ok(like, a3),
    ensures
        search_ends_with(a1, a2, a3, listed) == search_outcome(query, fts, like, listed),
{
}

/// The step after the full-text search: its results if it succeeded with at
/// least one memory, else the substring search on the trimmed query.
pub fn after_full_text(query: &str, found: Option<Vec<MemoryRecord>>) -> (a: SearchAction)
    ensures
        after_full_text_ok(query@, found, a),
{
    match found {
        Some(items) if items.len() > 0 => SearchAction::Return(items),
        _ => SearchAction::Like(trim_str(query)),
    }
}

/// The step after the substring search: its results if there are any, else
/// the filtered listing.
pub fn after_like(found: Vec<MemoryRecord>) -> (a: SearchAction)
    ensures
        after_like_ok(found, a),
{
    if found.len() > 0 {
        SearchAction::Return(found)
    } else {
        SearchAction::ListFiltered
    }
}

/// Messages read newest first, put back in the order they were written.
pub fn chronological(items: Vec<MessageRecord>) -> (r: Vec<MessageRecord>)
    ensures
        r@ == items@.reverse(),
{
    let mut r: Vec<MessageRecord> = Vec::new();
    let mut items = items;
    let ghost orig = items@;
    while items.len() > 0
        invariant
            orig.len() == items@.len() + r@.len(),
            items@ == orig.take(items@.len() as int),
            r@ == orig.skip(items@.len() as int).reverse(),
        decreases items.len(),
    {
        let ghost k = items@.len();
        let m = items.pop().unwrap();
        r.push(m);
        proof {
            assert(items@ =~= orig.take(k - 1));
            assert(orig.skip(k - 1).reverse() =~= orig.skip(k as int).reverse().push(orig[k - 1]));
        }
    }
    assert(orig.skip(0) =~= orig);
    r
}

} // verus!
