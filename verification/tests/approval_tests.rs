use logixa_brain_core::error::AppError;
use logixa_brain_core::tools::approval::{apply_decision, decide, request_tool_call, runs_tool, Decision};
use logixa_brain_core::tools::registry::ToolRegistry;

#[test]
fn requested_call_is_pending() {
    let r = ToolRegistry::new();
    let c = request_tool_call(
        &r,
        "a1".to_string(),
        "git_status".to_string(),
        Some("logixa_brain".to_string()),
        "{\"path\":\"/repo\"}".to_string(),
        "t0".to_string(),
    )
    .unwrap();
    assert_eq!(c.status, "pending");
    assert_eq!(c.danger_level, "low");
    assert_eq!(c.decided_at, None);
    assert_eq!(c.created_at, "t0");
    assert_eq!(
        request_tool_call(&r, "a2".into(), "run_command".into(), None, "{}".into(), "t0".into()),
        Err(AppError::NotFound("unknown tool `run_command`".to_string()))
    );
    assert_eq!(
        request_tool_call(&r, "a4".into(), "read_file".into(), None, "{}".into(), "t0".into()),
        Err(AppError::NotFound("unknown tool `read_file`".to_string()))
    );
    assert_eq!(
        request_tool_call(&r, "a3".into(), "format_disk".into(), None, "{}".into(), "t0".into()),
        Err(AppError::NotFound("unknown tool `format_disk`".to_string()))
    );
}

#[test]
fn approve_and_reject() {
    let r = ToolRegistry::new();
    let c = request_tool_call(&r, "a1".into(), "git_diff".into(), None, "{}".into(), "t0".into()).unwrap();
    let approved = decide(Some(c.clone()), "a1", Decision::Approve, Some("ok".into()), "t1".into()).unwrap();
    assert_eq!(approved.status, "approved");
    assert_eq!(approved.decided_at.as_deref(), Some("t1"));
    assert_eq!(approved.decision_note.as_deref(), Some("ok"));
    assert!(runs_tool(Decision::Approve));
    let rejected = decide(Some(c), "a1", Decision::Reject, None, "t1".into()).unwrap();
    assert_eq!(rejected.status, "rejected");
    assert_eq!(rejected.decision_note, None);
    assert!(!runs_tool(Decision::Reject));
    assert_eq!(
        decide(Some(approved), "a1", Decision::Reject, None, "t2".into()),
        Err(AppError::Request("tool call is already approved".to_string()))
    );
    assert_eq!(
        decide(None, "zz", Decision::Approve, None, "t2".into()),
        Err(AppError::NotFound("pending tool call not found: zz".to_string()))
    );
}

#[test]
fn decision_keeps_old_note_when_none_given() {
    let r = ToolRegistry::new();
    let mut c = request_tool_call(&r, "a1".into(), "list_files".into(), None, "{}".into(), "t0".into()).unwrap();
    c.decision_note = Some("earlier".into());
    let d = apply_decision(c, "rejected", None, "t1".into());
    assert_eq!(d.decision_note.as_deref(), Some("earlier"));
    assert_eq!(d.updated_at, "t1");
}
