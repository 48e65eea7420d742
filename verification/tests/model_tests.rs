use logixa_brain_core::error::AppError;
use logixa_brain_core::model::llama_client::{
    chat_url, first_choice, health_url, http_failure, llama_base_url,
};
use logixa_brain_core::model::runtime_manager::{
    check_start_paths, idle_expired, llama_server_args, mock_answer, status_label, ReadyAction,
    ReadyCheck,
};

#[test]
fn urls() {
    let base = llama_base_url("127.0.0.1", 8788);
    assert_eq!(base, "http://127.0.0.1:8788");
    assert_eq!(health_url(&base), "http://127.0.0.1:8788/health");
    assert_eq!(chat_url(&base), "http://127.0.0.1:8788/v1/chat/completions");
    assert_eq!(llama_base_url("h", 0), "http://h:0");
}

#[test]
fn replies() {
    assert_eq!(
        http_failure("500 Internal Server Error"),
        AppError::ModelRuntime("llama-server returned HTTP 500 Internal Server Error".to_string())
    );
    assert_eq!(first_choice(vec!["a".to_string(), "b".to_string()]), Ok("a".to_string()));
    assert_eq!(
        first_choice(vec![]),
        Err(AppError::ModelRuntime("llama-server returned no choices".to_string()))
    );
}

#[test]
fn labels() {
    assert_eq!(status_label(true, false), "ready");
    assert_eq!(status_label(true, true), "ready");
    assert_eq!(status_label(false, true), "starting_or_unhealthy");
    assert_eq!(status_label(false, false), "stopped");
}

#[test]
fn stand_in_answer() {
    let a = mock_answer("hi");
    assert!(a.starts_with("[Mock Brain Response] استلمت رسالتك: hi\n\n"));
    assert!(a.ends_with("عشان الرد يبقى من Qwen فعليًا."));
}

#[test]
fn start_checks() {
    assert_eq!(
        check_start_paths("/m.gguf", false, "llama-server", true),
        Err(AppError::ModelRuntime("model file not found: /m.gguf".to_string()))
    );
    assert_eq!(check_start_paths("/m.gguf", true, "llama-server", false), Ok(()));
    assert_eq!(
        check_start_paths("/m.gguf", true, "/opt/llama-server", false),
        Err(AppError::ModelRuntime("llama-server binary not found: /opt/llama-server".to_string()))
    );
    assert_eq!(check_start_paths("/m.gguf", true, "/opt/llama-server", true), Ok(()));
}

#[test]
fn server_arguments() {
    let args = llama_server_args("/m.gguf", "127.0.0.1", 8788, 8192, 4, &vec!["--flash-attn".to_string()]);
    assert_eq!(
        args,
        vec!["-m", "/m.gguf", "--host", "127.0.0.1", "--port", "8788", "-c", "8192", "-t", "4", "--flash-attn"]
    );
}

#[test]
fn idle_timeouts() {
    assert!(idle_expired(180, 180));
    assert!(idle_expired(200, 180));
    assert!(!idle_expired(179, 180));
}

#[test]
fn ready_when_already_healthy() {
    let mut c = ReadyCheck::new(true);
    assert_eq!(c.on_health(true), ReadyAction::Done(Ok("llama-server already healthy".to_string())));
}

#[test]
fn not_ready_without_auto_start() {
    let mut c = ReadyCheck::new(false);
    assert_eq!(
        c.on_health(false),
        ReadyAction::Done(Err(AppError::ModelRuntime(
            "model is not running and auto_start=false".to_string()
        )))
    );
}

#[test]
fn ready_after_start_and_some_probes() {
    let mut c = ReadyCheck::new(true);
    assert_eq!(c.on_health(false), ReadyAction::StartServer);
    assert_eq!(c.on_health(false), ReadyAction::Sleep);
    assert_eq!(c.on_slept(), ReadyAction::CheckHealth);
    assert_eq!(c.on_health(false), ReadyAction::Sleep);
    assert_eq!(c.on_slept(), ReadyAction::CheckHealth);
    assert_eq!(
        c.on_health(true),
        ReadyAction::Done(Ok("llama-server started and healthy".to_string()))
    );
    assert_eq!(c.probes, 3);
}

#[test]
fn gives_up_after_sixty_probes() {
    let mut c = ReadyCheck::new(true);
    assert_eq!(c.on_health(false), ReadyAction::StartServer);
    let mut checks = 0;
    loop {
        match c.on_health(false) {
            ReadyAction::Sleep => checks += 1,
            other => panic!("unexpected {:?}", other),
        }
        match c.on_slept() {
            ReadyAction::CheckHealth => {}
            ReadyAction::Done(r) => {
                assert_eq!(
                    r,
                    Err(AppError::ModelRuntime(
                        "llama-server did not become healthy in time".to_string()
                    ))
                );
                break;
            }
            other => panic!("unexpected {:?}", other),
        }
    }
    assert_eq!(checks, 60);
}
