//! The context gathered for one answer.
use crate::error::AppResult;
use crate::memory::db::{bounded_search_limit, clamp, MemoryRecord, MessageRecord, ProjectStateRecord};
use crate::text::{has_sub, lemma_sub_in_concat, lemma_sub_self, owned};
use vstd::prelude::*;

verus! {

/// Everything the prompt is built from: the project, the recent messages of
/// the conversation (oldest first), the relevant memories and the system prompt.
#[derive(Debug, Clone, PartialEq, Eq)]
pub struct AssembledContext {
    pub project_id: String,
    pub recent_messages: Vec<MessageRecord>,
    pub memories: Vec<MemoryRecord>,
    pub system_prompt: String,
}

/// The project the context is gathered for: the requested one, else the
/// active one, else the configured default.
pub fn resolve_context_project(
    project_id: Option<String>,
    active: Option<String>,
    default_project_id: &str,
) -> (r: String)
    ensures
        project_id is Some ==> r == project_id->0,
        project_id is None && active is Some ==> r == active->0,
        project_id is None && active is None ==> r@ == default_project_id@,
{
    match project_id {
        Some(id) => id,
        None => match active {
            Some(id) => id,
            None => owned(default_project_id),
        },
    }
}

/// The memories a context carries: none when memory is off or the search
/// failed; otherwise what the search found, at most the search limit
/// (`limit` clamped to `[1, 24]`).
pub open spec fn spec_context_memories(
    use_memory: bool,
    found: AppResult<Vec<MemoryRecord>>,
    limit: usize,
) -> Seq<MemoryRecord> {
    if !use_memory {
        seq![]
    } else {
        match found {
            Ok(v) => if v@.len() <= clamp(limit as int, 1, 24) {
                v@
            } else {
                v@.take(clamp(limit as int, 1, 24))
            },
            Err(_) => seq![],
        }
    }
}

/// The memories a context carries, from the outcome of the memory search
/// (made only when memory is on) and the configured search limit.
pub fn context_memories(use_memory: bool, found: AppResult<Vec<MemoryRecord>>, limit: usize) -> (r:
    Vec<MemoryRecord>)
    ensures
        r@ == spec_context_memories(use_memory, found, limit),
        !use_memory ==> r@.len() == 0,
        r@.len() <= clamp(limit as int, 1, 24),
{
    if !use_memory {
        return Vec::new();
    }
    match found {
        Ok(mut v) => {
            let bound = bounded_search_limit(limit);
            v.truncate(bound as usize);
            v
        },
        Err(_) => Vec::new(),
    }
}

/// The line of an optional state field: `- label: value`, or nothing.
pub open spec fn state_line(label: Seq<char>, v: Option<String>) -> Seq<char> {
    match v {
        Some(s) => "- "@ + label + ": "@ + s@ + "\n"@,
        None => seq![],
    }
}

/// The section that tells the model the project's recorded state.
pub open spec fn spec_project_state_section(s: ProjectStateRecord) -> Seq<char> {
    "\n\n# Active Project State\n\n- project_id: "@ + s.project_id@ + "\n"@ + state_line(
        "current_step"@,
        s.current_step,
    ) + state_line("last_commit"@, s.last_commit) + state_line("last_tag"@, s.last_tag)
        + state_line("summary"@, s.summary) + state_line("next_step"@, s.next_step) + "- status: "@
        + s.status@ + "\n"@
}

fn push_state_line(out: &mut String, label: &str, v: &Option<String>)
    ensures
        final(out)@ == old(out)@ + state_line(label@, *v),
{
    match v {
        Some(s) => {
            out.append("- ");
            out.append(label);
            out.append(": ");
            out.append(s.as_str());
            out.append("\n");
        },
        None => {
            assert(old(out)@ + Seq::<char>::empty() =~= old(out)@);
        },
    }
}

/// The system prompt followed by the project's state section when a state
/// was found.
pub fn with_project_state(system_prompt: String, state: &Option<ProjectStateRecord>) -> (r: String)
    ensures
        r@ == match state {
            Some(s) => system_prompt@ + spec_project_state_section(*s),
            None => system_prompt@,
        },
{
    match state {
        None => system_prompt,
        Some(s) => {
            let mut out = system_prompt;
            let ghost base = out@;
            out.append("\n\n# Active Project State\n\n- project_id: ");
            out.append(s.project_id.as_str());
            out.append("\n");
            push_state_line(&mut out, "current_step", &s.current_step);
            push_state_line(&mut out, "last_commit", &s.last_commit);
            push_state_line(&mut out, "last_tag", &s.last_tag);
            push_state_line(&mut out, "summary", &s.summary);
            push_state_line(&mut out, "next_step", &s.next_step);
            out.append("- status: ");
            out.append(s.status.as_str());
            out.append("\n");
            assert(out@ =~= base + spec_project_state_section(*s));
            out
        },
    }
}

proof fn lemma_state_section_parts(s: ProjectStateRecord)
    ensures
        ({
            let h = "\n\n# Active Project State\n\n- project_id: "@ + s.project_id@ + "\n"@;
            let l1 = state_line("current_step"@, s.current_step);
            let l2 = state_line("last_commit"@, s.last_commit);
            let l3 = state_line("last_tag"@, s.last_tag);
            let l4 = state_line("summary"@, s.summary);
            let l5 = state_line("next_step"@, s.next_step);
            let st = "- status: "@ + s.status@ + "\n"@;
            let t = spec_project_state_section(s);
            &&& t == h + l1 + l2 + l3 + l4 + l5 + st
            &&& h.is_prefix_of(t)
            &&& st.is_suffix_of(t)
        }),
{
    let h = "\n\n# Active Project State\n\n- project_id: "@ + s.project_id@ + "\n"@;
    let l1 = state_line("current_step"@, s.current_step);
    let l2 = state_line("last_commit"@, s.last_commit);
    let l3 = state_line("last_tag"@, s.last_tag);
    let l4 = state_line("summary"@, s.summary);
    let l5 = state_line("next_step"@, s.next_step);
    let st = "- status: "@ + s.status@ + "\n"@;
    let t = spec_project_state_section(s);
    assert(t =~= h + l1 + l2 + l3 + l4 + l5 + st);
    assert(h =~= t.subrange(0, h.len() as int));
    assert(st =~= t.subrange(t.len() - st.len(), t.len() as int));
}

proof fn lemma_part_shown(a: Seq<char>, b: Seq<char>, c: Seq<char>, d: Seq<char>, e: Seq<char>, f: Seq<char>, g: Seq<char>)
    ensures
        has_sub(a + b + c + d + e + f + g, b),
        has_sub(a + b + c + d + e + f + g, c),
        has_sub(a + b + c + d + e + f + g, d),
        has_sub(a + b + c + d + e + f + g, e),
        has_sub(a + b + c + d + e + f + g, f),
{
    let t = a + b + c + d + e + f + g;
    lemma_sub_self(b);
    lemma_sub_self(c);
    lemma_sub_self(d);
    lemma_sub_self(e);
    lemma_sub_self(f);
    assert(t =~= a + b + (c + d + e + f + g));
    lemma_sub_in_concat(a, b, c + d + e + f + g, b);
    assert(t =~= (a + b) + c + (d + e + f + g));
    lemma_sub_in_concat(a + b, c, d + e + f + g, c);
    assert(t =~= (a + b + c) + d + (e + f + g));
    lemma_sub_in_concat(a + b + c, d, e + f + g, d);
    assert(t =~= (a + b + c + d) + e + (f + g));
    lemma_sub_in_concat(a + b + c + d, e, f + g, e);
    assert(t =~= (a + b + c + d + e) + f + g);
    lemma_sub_in_concat(a + b + c + d + e, f, g, f);
}

/// The project-state section starts with its heading and the project id,
/// ends with the status line, and shows every recorded field as a line
/// `- field: value` (a field not recorded gives no line).
pub proof fn lemma_state_section_shows_fields(s: ProjectStateRecord)
    ensures
        ({
            let t = spec_project_state_section(s);
            &&& ("\n\n# Active Project State\n\n- project_id: "@ + s.project_id@ + "\n"@).is_prefix_of(t)
            &&& ("- status: "@ + s.status@ + "\n"@).is_suffix_of(t)
            &&& (s.current_step matches Some(v) ==> has_sub(t, "- "@ + "current_step"@ + ": "@ + v@ + "\n"@))
            &&& (s.last_commit matches Some(v) ==> has_sub(t, "- "@ + "last_commit"@ + ": "@ + v@ + "\n"@))
            &&& (s.last_tag matches Some(v) ==> has_sub(t, "- "@ + "last_tag"@ + ": "@ + v@ + "\n"@))
            &&& (s.summary matches Some(v) ==> has_sub(t, "- "@ + "summary"@ + ": "@ + v@ + "\n"@))
            &&& (s.next_step matches Some(v) ==> has_sub(t, "- "@ + "next_step"@ + ": "@ + v@ + "\n"@))
        }),
        forall|label: Seq<char>| #[trigger] state_line(label, None) == Seq::<char>::empty(),
{
    lemma_state_section_parts(s);
    lemma_part_shown(
        "\n\n# Active Project State\n\n- project_id: "@ + s.project_id@ + "\n"@,
        state_line("current_step"@, s.current_step),
        state_line("last_commit"@, s.last_commit),
        state_line("last_tag"@, s.last_tag),
        state_line("summary"@, s.summary),
        state_line("next_step"@, s.next_step),
        "- status: "@ + s.status@ + "\n"@,
    );
}

/// With memory on, a context keeps the first memories the search found, in
/// their order: all of them when they are within the search limit (the
/// configured limit clamped to 1..24), else exactly that many.
pub proof fn lemma_context_keeps_first_found(v: Vec<MemoryRecord>, limit: usize)
    ensures
        ({
            let r = spec_context_memories(true, Ok(v), limit);
            let cap: int = if limit < 1 {
                1
            } else if limit > 24 {
                24
            } else {
                limit as int
            };
            &&& r.is_prefix_of(v@)
            &&& r.len() == if v@.len() <= cap {
                v@.len() as int
            } else {
                cap
            }
        }),
{
    let r = spec_context_memories(true, Ok(v), limit);
    assert(r =~= v@.subrange(0, r.len() as int));
}

} // verus!
