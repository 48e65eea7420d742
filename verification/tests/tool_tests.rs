use logixa_brain_core::error::AppError;
use logixa_brain_core::tools::command_tools::{plan_command, CommandPlan};
use logixa_brain_core::tools::file_tools::{ensure_safe, get_path, read_limit, read_window};
use logixa_brain_core::tools::git_tools::repo_path;
use logixa_brain_core::tools::registry::{tool_kind, ToolInput, ToolKind, ToolRegistry};

fn input() -> ToolInput {
    ToolInput { path: None, command: None, cwd: None, timeout_seconds: None, max_bytes: None }
}

#[test]
fn standard_registry() {
    let r = ToolRegistry::new();
    let list = r.list();
    let names: Vec<&str> = list.iter().map(|d| d.name.as_str()).collect();
    assert_eq!(names, vec!["list_files", "git_status", "git_diff"]);
    assert_eq!(list[0].description, "List files inside an allowed path");
    assert_eq!(list[1].description, "Run git status --short in a repo");
    assert_eq!(list[2].description, "Run git diff --stat in a repo");
    for d in &list {
        assert!(d.requires_approval);
        assert_eq!(d.danger_level, "low");
    }
    assert!(r.requires_approval("git_status"));
    assert!(r.requires_approval("list_files"));
    assert!(r.requires_approval("run_command"));
    assert!(r.requires_approval("rm_everything"));
    assert_eq!(r.find("git_diff").map(|d| d.name), Some("git_diff".to_string()));
    assert_eq!(r.find("read_file"), None);
    assert_eq!(r.find("run_command"), None);
}

#[test]
fn approval_checks() {
    let r = ToolRegistry::new();
    assert_eq!(
        r.check_approval("git_status", false),
        Err(AppError::Request("tool `git_status` requires approval=true".to_string()))
    );
    assert_eq!(r.check_approval("git_diff", true), Ok(()));
    assert_eq!(r.check_approval("run_command", true), Ok(()));
    assert_eq!(
        r.check_approval("run_command", false),
        Err(AppError::Request("tool `run_command` requires approval=true".to_string()))
    );
    assert_eq!(
        r.check_approval("mystery", false),
        Err(AppError::Request("tool `mystery` requires approval=true".to_string()))
    );
    assert_eq!(r.check_approval("mystery", true), Ok(()));
}

#[test]
fn tool_kinds() {
    assert_eq!(tool_kind("list_files"), Ok(ToolKind::ListFiles));
    assert_eq!(tool_kind("git_status"), Ok(ToolKind::GitStatus));
    assert_eq!(tool_kind("git_diff"), Ok(ToolKind::GitDiff));
    assert_eq!(tool_kind("read_file"), Err(AppError::NotFound("unknown tool `read_file`".to_string())));
    assert_eq!(tool_kind("run_command"), Err(AppError::NotFound("unknown tool `run_command`".to_string())));
    assert_eq!(tool_kind("x"), Err(AppError::NotFound("unknown tool `x`".to_string())));
}

#[test]
fn file_tool_inputs() {
    let missing = Err(AppError::Request("tool input requires `path` string".to_string()));
    assert_eq!(get_path(&input()), missing);
    assert_eq!(repo_path(&input()), missing);
    let mut i = input();
    i.path = Some("/repo".to_string());
    assert_eq!(get_path(&i), Ok("/repo".to_string()));
    assert_eq!(repo_path(&i), Ok("/repo".to_string()));
    assert_eq!(read_limit(&input()), 200_000);
    i.max_bytes = Some(10);
    assert_eq!(read_limit(&i), 10);
}

#[test]
fn traversal_guard() {
    assert_eq!(ensure_safe("/home/user/project"), Ok(()));
    assert_eq!(
        ensure_safe("../etc/passwd"),
        Err(AppError::Request("parent path traversal is not allowed".to_string()))
    );
    assert!(ensure_safe("a/b..c").is_err());
}

#[test]
fn read_windows() {
    assert_eq!(read_window(100, 200_000), (100, false));
    assert_eq!(read_window(300, 200), (200, true));
    assert_eq!(read_window(200, 200), (200, false));
    assert_eq!(read_window(0, 0), (0, false));
}

#[test]
fn command_plans() {
    assert_eq!(
        plan_command(&input()),
        Err(AppError::Request("tool input requires `command` string".to_string()))
    );
    let mut i = input();
    i.command = Some("git status --short".to_string());
    assert_eq!(
        plan_command(&i),
        Ok(CommandPlan {
            command: "git status --short".to_string(),
            cwd: ".".to_string(),
            timeout_seconds: 20
        })
    );
    i.cwd = Some("/repo".to_string());
    i.timeout_seconds = Some(500);
    let p = plan_command(&i).unwrap();
    assert_eq!(p.cwd, "/repo");
    assert_eq!(p.timeout_seconds, 120);
    i.timeout_seconds = Some(5);
    assert_eq!(plan_command(&i).unwrap().timeout_seconds, 5);
}

