use logixa_brain_core::dto::{ProjectStateUpdateRequest, ProjectUpsertRequest};
use logixa_brain_core::error::AppError;
use logixa_brain_core::memory::db::{ProjectRecord, ProjectStateRecord};
use logixa_brain_core::projects::project_manager::{
    initial_project_state, initial_state_if_missing, merge_project_state, plan_project_record,
    require_project, require_project_state,
};

fn project() -> ProjectRecord {
    ProjectRecord {
        id: "p1".to_string(),
        name: "Old".to_string(),
        path: None,
        kind: None,
        rules: None,
        status: "paused".to_string(),
        active_model_profile: Some("fast".to_string()),
        created_at: "t0".to_string(),
        updated_at: "t0".to_string(),
    }
}

fn state() -> ProjectStateRecord {
    ProjectStateRecord {
        project_id: "p1".to_string(),
        current_step: Some("Step 4".to_string()),
        last_commit: Some("abc".to_string()),
        last_tag: None,
        summary: Some("s".to_string()),
        next_step: None,
        status: "active".to_string(),
        created_at: "t0".to_string(),
        updated_at: "t0".to_string(),
    }
}

fn empty_update() -> ProjectStateUpdateRequest {
    ProjectStateUpdateRequest {
        current_step: None,
        last_commit: None,
        last_tag: None,
        summary: None,
        next_step: None,
        status: None,
    }
}

#[test]
fn lookups_must_succeed() {
    assert_eq!(require_project("p1", Some(project())), Ok(project()));
    assert_eq!(
        require_project("nope", None),
        Err(AppError::NotFound("project not found: nope".to_string()))
    );
    assert_eq!(require_project_state("p1", Some(state())), Ok(state()));
    assert_eq!(
        require_project_state("nope", None),
        Err(AppError::NotFound("project state not found: nope".to_string()))
    );
}

#[test]
fn upsert_of_new_and_existing_project() {
    let req = ProjectUpsertRequest {
        id: "p1".to_string(),
        name: "New".to_string(),
        path: Some("/repo".to_string()),
        kind: Some("rust".to_string()),
        rules: None,
    };
    let fresh = plan_project_record(req.clone(), None, "t1".to_string());
    assert_eq!(fresh.status, "active");
    assert_eq!(fresh.created_at, "t1");
    assert_eq!(fresh.active_model_profile, None);
    let kept = plan_project_record(req, Some(project()), "t1".to_string());
    assert_eq!(kept.name, "New");
    assert_eq!(kept.path.as_deref(), Some("/repo"));
    assert_eq!(kept.status, "paused");
    assert_eq!(kept.active_model_profile.as_deref(), Some("fast"));
    assert_eq!(kept.created_at, "t0");
    assert_eq!(kept.updated_at, "t1");
}

#[test]
fn first_state_only_when_missing() {
    let s = initial_project_state("p1".to_string(), "t1".to_string());
    assert_eq!(s.status, "active");
    assert_eq!(s.current_step, None);
    assert_eq!(s.created_at, "t1");
    assert_eq!(initial_state_if_missing("p1".to_string(), &Some(state()), "t1".to_string()), None);
    assert_eq!(initial_state_if_missing("p1".to_string(), &None, "t1".to_string()), Some(s));
}

#[test]
fn update_merges_given_fields() {
    let req = ProjectStateUpdateRequest {
        current_step: Some("Step 5 — Project State Memory".to_string()),
        last_commit: Some("af8a814".to_string()),
        last_tag: Some("brain-step4-long-term-memory".to_string()),
        summary: None,
        next_step: Some("Validate project state injection".to_string()),
        status: None,
    };
    let r = merge_project_state("p1", req, &Some(state()), "t2".to_string());
    assert_eq!(r.current_step.as_deref(), Some("Step 5 — Project State Memory"));
    assert_eq!(r.last_commit.as_deref(), Some("af8a814"));
    assert_eq!(r.summary.as_deref(), Some("s"));
    assert_eq!(r.status, "active");
    assert_eq!(r.created_at, "t0");
    assert_eq!(r.updated_at, "t2");
}

#[test]
fn empty_update_keeps_state() {
    let r = merge_project_state("p1", empty_update(), &Some(state()), "t2".to_string());
    let mut expected = state();
    expected.updated_at = "t2".to_string();
    assert_eq!(r, expected);
}

#[test]
fn update_without_stored_state() {
    let r = merge_project_state("p9", empty_update(), &None, "t3".to_string());
    assert_eq!(r.project_id, "p9");
    assert_eq!(r.status, "active");
    assert_eq!(r.created_at, "t3");
    assert_eq!(r.current_step, None);
}

#[test]
fn update_is_idempotent() {
    let mut req = empty_update();
    req.summary = Some("again".to_string());
    req.status = Some("done".to_string());
    let once = merge_project_state("p1", req.clone(), &Some(state()), "t1".to_string());
    let twice = merge_project_state("p1", req.clone(), &Some(once), "t2".to_string());
    let direct = merge_project_state("p1", req, &Some(state()), "t2".to_string());
    assert_eq!(twice, direct);
}
