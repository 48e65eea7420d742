//! The approval flow of tool calls: a requested call waits as "pending"
//! until it is approved (and then run) or rejected (and never run).
use crate::error::{is_not_found_error, is_request_error, AppError, AppResult};
use crate::memory::db::PendingToolCallRecord;
use crate::text::{concat_str, owned, str_eq};
use crate::tools::registry::{lookup, table_view, ToolRegistry};
use vstd::prelude::*;

verus! {

/// A decision on a pending call.
#[derive(Debug, Clone, Copy, PartialEq, Eq)]
pub enum Decision {
    Approve,
    Reject,
}

/// The status a decision gives a call.
pub open spec fn decision_status(d: Decision) -> Seq<char> {
    match d {
        Decision::Approve => "approved"@,
        Decision::Reject => "rejected"@,
    }
}

/// `r` is the record of a newly requested call: pending, undecided, with the
/// danger level of its tool, created and updated `now`.
pub open spec fn requested_call_ok(
    r: PendingToolCallRecord,
    id: String,
    tool_name: String,
    project_id: Option<String>,
    input_json: String,
    danger_level: Seq<char>,
    now: String,
) -> bool {
    &&& r.id == id
    &&& r.tool_name == tool_name
    &&& r.project_id == project_id
    &&& r.input_json == input_json
    &&& r.status@ == "pending"@
    &&& r.danger_level@ == danger_level
    &&& r.created_at == now
    &&& r.updated_at == now
    &&& r.decided_at is None
    &&& r.decision_note is None
}

/// `r` is `old` after a decision with `status` at `now`: the status and both
/// time stamps change; the note is replaced only when one is given.
pub open spec fn decided_ok(
    r: PendingToolCallRecord,
    old: PendingToolCallRecord,
    status: Seq<char>,
    note: Option<String>,
    now: String,
) -> bool {
    &&& r.id == old.id
    &&& r.tool_name == old.tool_name
    &&& r.project_id == old.project_id
    &&& r.input_json == old.input_json
    &&& r.danger_level == old.danger_level
    &&& r.created_at == old.created_at
    &&& r.status@ == status
    &&& r.updated_at == now
    &&& r.decided_at == Some(now)
    &&& r.decision_note == match note {
        Some(n) => Some(n),
        None => old.decision_note,
    }
}

/// The record of a requested call of a registered tool, with that tool's
/// danger level; a tool the registry does not know is refused.
pub fn request_tool_call(
    registry: &ToolRegistry,
    id: String,
    tool_name: String,
    project_id: Option<String>,
    input_json: String,
    now: String,
) -> (r: AppResult<PendingToolCallRecord>)
    ensures
        match lookup(table_view(registry@), tool_name@) {
            None => r matches Err(e) && is_not_found_error(
                e,
                "unknown tool `"@ + tool_name@ + "`"@,
            ),
            Some(t) => r matches Ok(c) && requested_call_ok(
                c,
                id,
                tool_name,
                project_id,
                input_json,
                t.3,
                now,
            ),
        },
{
    let definition = match registry.find(tool_name.as_str()) {
        Some(d) => d,
        None => {
            let mut m = concat_str("unknown tool `", tool_name.as_str());
            m.append("`");
            return Err(AppError::NotFound(m));
        },
    };
    Ok(
        PendingToolCallRecord {
            id,
            tool_name,
            project_id,
            input_json,
            status: owned("pending"),
            danger_level: definition.danger_level,
            created_at: now.clone(),
            updated_at: now,
            decided_at: None,
            decision_note: None,
        },
    )
}

/// A call record after a decision with `status`.
pub fn apply_decision(
    call: PendingToolCallRecord,
    status: &str,
    note: Option<String>,
    now: String,
) -> (r: PendingToolCallRecord)
    ensures
        decided_ok(r, call, status@, note, now),
{
    let decision_note = match note {
        Some(n) => Some(n),
        None => call.decision_note,
    };
    PendingToolCallRecord {
        id: call.id,
        tool_name: call.tool_name,
        project_id: call.project_id,
        input_json: call.input_json,
        status: owned(status),
        danger_level: call.danger_level,
        created_at: call.created_at,
        updated_at: now.clone(),
        decided_at: Some(now),
        decision_note,
    }
}

/// Decides a call: refused when no call has this id or when it was already
/// decided; otherwise the call with its new status.
pub fn decide(
    found: Option<PendingToolCallRecord>,
    id: &str,
    decision: Decision,
    note: Option<String>,
    now: String,
) -> (r: AppResult<PendingToolCallRecord>)
    ensures
        match found {
            None => r matches Err(e) && is_not_found_error(
                e,
                "pending tool call not found: "@ + id@,
            ),
            Some(c) => if c.status@ != "pending"@ {
                r matches Err(e) && is_request_error(e, "tool call is already "@ + c.status@)
            } else {
                r matches Ok(d) && decided_ok(d, c, decision_status(decision), note, now)
            },
        },
{
    let call = match found {
        Some(c) => c,
        None => {
            return Err(AppError::NotFound(concat_str("pending tool call not found: ", id)));
        },
    };
    if !str_eq(call.status.as_str(), "pending") {
        return Err(AppError::Request(concat_str("tool call is already ", call.status.as_str())));
    }
    let status = match decision {
        Decision::Approve => "approved",
        Decision::Reject => "rejected",
    };
    Ok(apply_decision(call, status, note, now))
}

/// Whether a decided call is run: only an approved one.
pub fn runs_tool(decision: Decision) -> (b: bool)
    ensures
        b == (decision == Decision::Approve),
{
    match decision {
        Decision::Approve => true,
        Decision::Reject => false,
    }
}

proof fn lemma_statuses_spelled()
    ensures
        "pending"@.len() == 7 && "pending"@[0] == 'p',
        "approved"@.len() == 8,
        "rejected"@.len() == 8,
{
    reveal_strlit("pending");
    reveal_strlit("approved");
    reveal_strlit("rejected");
}

/// A call is decided at most once: after a decision it is no longer
/// pending, so a second decision on it is refused.
pub proof fn lemma_decided_once(
    r: PendingToolCallRecord,
    old: PendingToolCallRecord,
    decision: Decision,
    note: Option<String>,
    now: String,
)
    requires
        decided_ok(r, old, decision_status(decision), note, now),
    ensures
        r.status@ != "pending"@,
{
    lemma_statuses_spelled();
}

/// A decision without a note keeps the note the call had.
pub proof fn lemma_decision_keeps_note(
    r: PendingToolCallRecord,
    old: PendingToolCallRecord,
    status: Seq<char>,
    now: String,
)
    requires
        decided_ok(r, old, status, None, now),
    ensures
        r.decision_note == old.decision_note,
{
}

} // verus!
