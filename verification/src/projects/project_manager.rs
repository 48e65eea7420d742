//! Project registry decisions: lookups that must succeed, the record an
//! upsert writes, and how a state update merges with the stored state.
use crate::dto::{ProjectStateUpdateRequest, ProjectUpsertRequest};
use crate::error::{is_not_found_error, AppError, AppResult};
use crate::memory::db::{ProjectRecord, ProjectStateRecord};
use crate::text::{clone_opt, concat_str, owned};
use vstd::prelude::*;

verus! {

/// The given value if present, else the kept one.
pub open spec fn keep_or(new: Option<String>, old: Option<String>) -> Option<String> {
    match new {
        Some(v) => Some(v),
        None => old,
    }
}

/// A field of the stored state, if there is one.
pub open spec fn old_field(
    existing: Option<ProjectStateRecord>,
    f: spec_fn(ProjectStateRecord) -> Option<String>,
) -> Option<String> {
    match existing {
        Some(s) => f(s),
        None => None,
    }
}

/// `r` is the state stored after updating `existing` with `req` at time `now`:
/// each given field replaces the stored one, absent fields keep it; the
/// status falls back to "active"; the creation time is kept, or `now` for a
/// first state; the update time is `now`.
pub open spec fn merged_state_ok(
    r: ProjectStateRecord,
    project_id: Seq<char>,
    req: ProjectStateUpdateRequest,
    existing: Option<ProjectStateRecord>,
    now: String,
) -> bool {
    &&& r.project_id@ == project_id
    &&& r.current_step == keep_or(req.current_step, old_field(existing, |s: ProjectStateRecord| s.current_step))
    &&& r.last_commit == keep_or(req.last_commit, old_field(existing, |s: ProjectStateRecord| s.last_commit))
    &&& r.last_tag == keep_or(req.last_tag, old_field(existing, |s: ProjectStateRecord| s.last_tag))
    &&& r.summary == keep_or(req.summary, old_field(existing, |s: ProjectStateRecord| s.summary))
    &&& r.next_step == keep_or(req.next_step, old_field(existing, |s: ProjectStateRecord| s.next_step))
    &&& match req.status {
        Some(st) => r.status == st,
        None => match existing {
            Some(s) => r.status == s.status,
            None => r.status@ == "active"@,
        },
    }
    &&& r.created_at == match existing {
        Some(s) => s.created_at,
        None => now,
    }
    &&& r.updated_at == now
}

/// `r` is the record an upsert of `req` writes over `existing` at time `now`:
/// the request gives id, name, path, kind and rules; status, model profile
/// and creation time are kept from the stored project (a new project is
/// "active", has no profile, and is created `now`); the update time is `now`.
pub open spec fn upserted_project_ok(
    r: ProjectRecord,
    req: ProjectUpsertRequest,
    existing: Option<ProjectRecord>,
    now: String,
) -> bool {
    &&& r.id == req.id
    &&& r.name == req.name
    &&& r.path == req.path
    &&& r.kind == req.kind
    &&& r.rules == req.rules
    &&& match existing {
        Some(p) => r.status == p.status && r.active_model_profile == p.active_model_profile
            && r.created_at == p.created_at,
        None => r.status@ == "active"@ && r.active_model_profile is None && r.created_at == now,
    }
    &&& r.updated_at == now
}

/// `r` is the first state of a project: nothing recorded yet, "active",
/// created and updated `now`.
pub open spec fn initial_state_ok(r: ProjectStateRecord, project_id: String, now: String) -> bool {
    &&& r.project_id == project_id
    &&& r.current_step is None
    &&& r.last_commit is None
    &&& r.last_tag is None
    &&& r.summary is None
    &&& r.next_step is None
    &&& r.status@ == "active"@
    &&& r.created_at == now
    &&& r.updated_at == now
}

/// The project that a lookup found, or a not-found error naming `id`.
pub fn require_project(id: &str, found: Option<ProjectRecord>) -> (r: AppResult<ProjectRecord>)
    ensures
        found is Some ==> r == Ok::<ProjectRecord, AppError>(found->0),
        found is None ==> (r matches Err(e) && is_not_found_error(e, "project not found: "@ + id@)),
{
    match found {
        Some(p) => Ok(p),
        None => Err(AppError::NotFound(concat_str("project not found: ", id))),
    }
}

/// The project state that a lookup found, or a not-found error naming the project.
pub fn require_project_state(project_id: &str, found: Option<ProjectStateRecord>) -> (r: AppResult<
    ProjectStateRecord,
>)
    ensures
        found is Some ==> r == Ok::<ProjectStateRecord, AppError>(found->0),
        found is None ==> (r matches Err(e) && is_not_found_error(
            e,
            "project state not found: "@ + project_id@,
        )),
{
    match found {
        Some(s) => Ok(s),
        None => Err(AppError::NotFound(concat_str("project state not found: ", project_id))),
    }
}

/// The record an upsert writes.
pub fn plan_project_record(req: ProjectUpsertRequest, existing: Option<ProjectRecord>, now: String) -> (r:
    ProjectRecord)
    ensures
        upserted_project_ok(r, req, existing, now),
{
    let (status, active_model_profile, created_at) = match existing {
        Some(p) => (p.status, p.active_model_profile, p.created_at),
        None => (owned("active"), None, now.clone()),
    };
    ProjectRecord {
        id: req.id,
        name: req.name,
        path: req.path,
        kind: req.kind,
        rules: req.rules,
        status,
        active_model_profile,
        created_at,
        updated_at: now,
    }
}

/// The first state of a project.
pub fn initial_project_state(project_id: String, now: String) -> (r: ProjectStateRecord)
    ensures
        initial_state_ok(r, project_id, now),
{
    ProjectStateRecord {
        project_id,
        current_step: None,
        last_commit: None,
        last_tag: None,
        summary: None,
        next_step: None,
        status: owned("active"),
        created_at: now.clone(),
        updated_at: now,
    }
}

/// The state to create for a project after an upsert: a first state when it
/// has none, nothing when it has one.
pub fn initial_state_if_missing(
    project_id: String,
    found: &Option<ProjectStateRecord>,
    now: String,
) -> (r: Option<ProjectStateRecord>)
    ensures
        found is Some ==> r is None,
        found is None ==> (r matches Some(s) && initial_state_ok(s, project_id, now)),
{
    match found {
        Some(_) => None,
        None => Some(initial_project_state(project_id, now)),
    }
}

/// The state stored after an update.
pub fn merge_project_state(
    project_id: &str,
    req: ProjectStateUpdateRequest,
    existing: &Option<ProjectStateRecord>,
    now: String,
) -> (r: ProjectStateRecord)
    ensures
        merged_state_ok(r, project_id@, req, *existing, now),
{
    let (current_step, last_commit, last_tag, summary, next_step, status, created_at) = match existing {
        Some(s) => (
            match req.current_step {
                Some(v) => Some(v),
                None => clone_opt(&s.current_step),
            },
            match req.last_commit {
                Some(v) => Some(v),
                None => clone_opt(&s.last_commit),
            },
            match req.last_tag {
                Some(v) => Some(v),
                None => clone_opt(&s.last_tag),
            },
            match req.summary {
                Some(v) => Some(v),
                None => clone_opt(&s.summary),
            },
            match req.next_step {
                Some(v) => Some(v),
                None => clone_opt(&s.next_step),
            },
            match req.status {
                Some(v) => v,
                None => s.status.clone(),
            },
            s.created_at.clone(),
        ),
        None => (
            req.current_step,
            req.last_commit,
            req.last_tag,
            req.summary,
            req.next_step,
            match req.status {
                Some(v) => v,
                None => owned("active"),
            },
            now.clone(),
        ),
    };
    ProjectStateRecord {
        project_id: owned(project_id),
        current_step,
        last_commit,
        last_tag,
        summary,
        next_step,
        status,
        created_at,
        updated_at: now,
    }
}

/// An update that gives no field keeps every recorded field and the creation
/// time of the stored state; only the update time changes.
pub proof fn lemma_empty_update_keeps_state(
    r: ProjectStateRecord,
    project_id: Seq<char>,
    existing: ProjectStateRecord,
    now: String,
)
    requires
        merged_state_ok(
            r,
            project_id,
            ProjectStateUpdateRequest {
                current_step: None,
                last_commit: None,
                last_tag: None,
                summary: None,
                next_step: None,
                status: None,
            },
            Some(existing),
            now,
        ),
    ensures
        r.current_step == existing.current_step,
        r.last_commit == existing.last_commit,
        r.last_tag == existing.last_tag,
        r.summary == existing.summary,
        r.next_step == existing.next_step,
        r.status == existing.status,
        r.created_at == existing.created_at,
        r.updated_at == now,
{
}

/// Applying the same update twice gives the same state as applying it once
/// at the later time.
pub proof fn lemma_update_idempotent(
    once: ProjectStateRecord,
    twice: ProjectStateRecord,
    direct: ProjectStateRecord,
    project_id: Seq<char>,
    req: ProjectStateUpdateRequest,
    existing: ProjectStateRecord,
    t1: String,
    t2: String,
)
    requires
        merged_state_ok(once, project_id, req, Some(existing), t1),
        merged_state_ok(twice, project_id, req, Some(once), t2),
        merged_state_ok(direct, project_id, req, Some(existing), t2),
    ensures
        twice.project_id@ == direct.project_id@,
        twice.current_step == direct.current_step,
        twice.last_commit == direct.last_commit,
        twice.last_tag == direct.last_tag,
        twice.summary == direct.summary,
        twice.next_step == direct.next_step,
        twice.status == direct.status,
        twice.created_at == direct.created_at,
        twice.updated_at == direct.updated_at,
{
}

/// Re-registering a project keeps its status, model profile and creation time.
pub proof fn lemma_upsert_keeps_identity(
    r: ProjectRecord,
    req: ProjectUpsertRequest,
    existing: ProjectRecord,
    now: String,
)
    requires
        upserted_project_ok(r, req, Some(existing), now),
    ensures
        r.status == existing.status,
        r.active_model_profile == existing.active_model_profile,
        r.created_at == existing.created_at,
{
}

/// In a state update each field given in the request wins over the stored
/// one, whether or not a state is stored; a field not given keeps the stored
/// value, or is empty for a new state (whose status is then "active"); the
/// creation time is kept and the update time is the time of the update.
pub proof fn lemma_given_fields_win(
    r: ProjectStateRecord,
    project_id: Seq<char>,
    req: ProjectStateUpdateRequest,
    existing: Option<ProjectStateRecord>,
    now: String,
)
    requires
        merged_state_ok(r, project_id, req, existing, now),
    ensures
        r.project_id@ == project_id,
        req.status matches Some(st) ==> r.status == st,
        req.current_step is Some ==> r.current_step == req.current_step,
        req.last_commit is Some ==> r.last_commit == req.last_commit,
        req.last_tag is Some ==> r.last_tag == req.last_tag,
        req.summary is Some ==> r.summary == req.summary,
        req.next_step is Some ==> r.next_step == req.next_step,
        existing matches Some(s) ==> {
            &&& req.status is None ==> r.status == s.status
            &&& req.current_step is None ==> r.current_step == s.current_step
            &&& req.last_commit is None ==> r.last_commit == s.last_commit
            &&& req.last_tag is None ==> r.last_tag == s.last_tag
            &&& req.summary is None ==> r.summary == s.summary
            &&& req.next_step is None ==> r.next_step == s.next_step
            &&& r.created_at == s.created_at
        },
        existing is None ==> {
            &&& req.status is None ==> r.status@ == "active"@
            &&& r.current_step == req.current_step
            &&& r.last_commit == req.last_commit
            &&& r.last_tag == req.last_tag
            &&& r.summary == req.summary
            &&& r.next_step == req.next_step
            &&& r.created_at == now
        },
        r.updated_at == now,
{
}

/// An upsert writes the request's id, name, path, kind and rules, always;
/// a project seen for the first time is "active", has no model profile and
/// is created at the time of the upsert; the update time is that time.
/// Repeating the same upsert changes nothing but the update time.
pub proof fn lemma_upsert_writes_request(
    r1: ProjectRecord,
    r2: ProjectRecord,
    req: ProjectUpsertRequest,
    existing: Option<ProjectRecord>,
    t1: String,
    t2: String,
)
    requires
        upserted_project_ok(r1, req, existing, t1),
        upserted_project_ok(r2, req, Some(r1), t2),
    ensures
        r1.id == req.id && r1.name == req.name && r1.path == req.path && r1.kind == req.kind
            && r1.rules == req.rules,
        existing is None ==> r1.status@ == "active"@ && r1.active_model_profile is None
            && r1.created_at == t1,
        r1.updated_at == t1,
        r2.id == r1.id && r2.name == r1.name && r2.path == r1.path && r2.kind == r1.kind
            && r2.rules == r1.rules && r2.status == r1.status && r2.active_model_profile
            == r1.active_model_profile && r2.created_at == r1.created_at,
        r2.updated_at == t2,
{
}

/// The first state of a project records no step, commit, tag, summary or
/// next step, is "active", and is created and updated at the given time;
/// it belongs to the given project.
pub proof fn lemma_first_state_is_blank(r: ProjectStateRecord, project_id: String, now: String)
    requires
        initial_state_ok(r, project_id, now),
    ensures
        r.project_id == project_id,
        r.current_step is None && r.last_commit is None && r.last_tag is None && r.summary is None
            && r.next_step is None,
        r.status@ == "active"@,
        r.created_at == now && r.updated_at == now,
{
}

} // verus!
