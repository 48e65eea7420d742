use logixa_brain_core::brain::engine::{ChatOpening, OpeningAction, OpeningStage};
use logixa_brain_core::brain::engine::{
    choose_mode, conversation_key, conversation_title, fallback_answer, new_conversation_project,
    scope_for_existing, validate_message, ChatAction, ChatTurn, ContextUsage,
};
use logixa_brain_core::brain::modes::BrainMode;
use logixa_brain_core::context::assembler::context_memories;
use logixa_brain_core::memory::db::MemoryRecord;
use logixa_brain_core::config::{BrainPolicyConfig, ModelRuntimeDefaults, PathsConfig, ServerConfig};
use logixa_brain_core::dto::{ChatRequest, StatusResponse};
use logixa_brain_core::error::AppError;
use logixa_brain_core::model::runtime_manager::mock_answer;

#[test]
fn message_validation() {
    assert_eq!(validate_message("hi"), Ok(()));
    assert_eq!(
        validate_message(" \n\t"),
        Err(AppError::Request("message cannot be empty".to_string()))
    );
}

#[test]
fn mode_choice() {
    assert_eq!(choose_mode(Some("task"), "git status"), BrainMode::Task);
    assert_eq!(choose_mode(Some("auto"), "git status"), BrainMode::Tool);
    assert_eq!(choose_mode(None, "remember this"), BrainMode::Memory);
    assert_eq!(choose_mode(Some("nonsense"), "hello"), BrainMode::Chat);
}

#[test]
fn conversation_scope() {
    assert_eq!(conversation_key("  c1 "), Ok("c1".to_string()));
    assert_eq!(
        conversation_key("  "),
        Err(AppError::Request("conversation_id cannot be empty".to_string()))
    );
    assert_eq!(
        scope_for_existing("c1".to_string(), None, None),
        Err(AppError::Request("conversation_id not found: c1".to_string()))
    );
    assert_eq!(
        scope_for_existing("c1".to_string(), Some(Some("a".to_string())), Some("b".to_string())),
        Err(AppError::Request(
            "conversation_id belongs to project 'a' but request used project 'b'".to_string()
        ))
    );
    assert_eq!(
        scope_for_existing("c1".to_string(), Some(Some("a".to_string())), Some("a".to_string())),
        Ok(("c1".to_string(), Some("a".to_string())))
    );
    assert_eq!(
        scope_for_existing("c1".to_string(), Some(Some("a".to_string())), None),
        Ok(("c1".to_string(), Some("a".to_string())))
    );
    assert_eq!(
        scope_for_existing("c1".to_string(), Some(None), Some("b".to_string())),
        Ok(("c1".to_string(), Some("b".to_string())))
    );
    assert_eq!(new_conversation_project(None, Some("act".to_string())), Some("act".to_string()));
    assert_eq!(
        new_conversation_project(Some("req".to_string()), Some("act".to_string())),
        Some("req".to_string())
    );
}

#[test]
fn titles() {
    assert_eq!(conversation_title("short"), "short");
    let long = "ا".repeat(50);
    assert_eq!(conversation_title(&long).chars().count(), 42);
}

#[test]
fn usage() {
    let u = ContextUsage::measure(5, 2, true, false);
    assert_eq!(u.history_messages_used, 4);
    assert!(u.history_used);
    assert!(u.memory_used);
    let u = ContextUsage::measure(1, 2, false, false);
    assert_eq!(u.history_messages_used, 0);
    assert!(!u.history_used);
    assert!(!u.memory_used);
    assert_eq!(u.memory_items_used, 2);
    assert_eq!(ContextUsage::measure(0, 0, true, false).history_messages_used, 0);
}

#[test]
fn successful_turn_events() {
    let u = ContextUsage::measure(3, 1, true, false);
    let mut t = ChatTurn::begin(&u);
    assert!(matches!(t.on_runtime_ready(Ok("ok".to_string()), true, "m"), ChatAction::CallModel));
    let raw = match t.on_model_reply(Ok("  answer<|im_end|> ".to_string()), true, "m") {
        ChatAction::Answer(a) => a,
        other => panic!("{:?}", other),
    };
    let answer = t.answer_ready(&raw);
    assert_eq!(answer, "answer");
    t.answer_saved();
    let r = t.finish(answer, "c1".to_string(), "p".to_string(), &BrainMode::Chat, "Qwen".to_string(), &u);
    assert_eq!(
        r.events,
        vec![
            "preparing_context",
            "conversation_history_loaded",
            "long_term_memory_loaded",
            "model_ready",
            "generating_done",
            "saving_memory",
            "done"
        ]
    );
    assert!(!r.mocked);
    assert_eq!(r.mode_used, "chat");
    assert_eq!(r.history_messages_used, 2);
    assert!(r.tool_calls.is_empty());
    assert!(!r.project_state_used);
}

#[test]
fn project_state_event() {
    let u = ContextUsage::measure(1, 0, true, true);
    assert!(u.project_state_used);
    let mut t = ChatTurn::begin(&u);
    assert_eq!(t.events, vec!["preparing_context", "project_state_loaded"]);
    let _ = t.on_runtime_ready(Ok(String::new()), false, "m");
    let a = t.answer_ready("x");
    t.answer_saved();
    let r = t.finish(a, "c".into(), "p".into(), &BrainMode::Task, "Q".into(), &u);
    assert!(r.project_state_used);
    assert_eq!(r.events.last().unwrap(), "done");
}

#[test]
fn unavailable_model_with_stand_ins() {
    let u = ContextUsage::measure(1, 0, true, false);
    let mut t = ChatTurn::begin(&u);
    let err = AppError::ModelRuntime("model is not running and auto_start=false".to_string());
    match t.on_runtime_ready(Err(err.clone()), true, "hello") {
        ChatAction::Answer(a) => assert_eq!(a, fallback_answer("hello", &err)),
        other => panic!("{:?}", other),
    }
    assert!(t.mocked);
    assert_eq!(t.events, vec!["preparing_context", "model_unavailable_mock_fallback"]);
    assert_eq!(
        fallback_answer("hello", &err),
        format!(
            "{}\n\nسبب fallback: model runtime error: model is not running and auto_start=false",
            mock_answer("hello")
        )
    );
}

#[test]
fn model_error_with_and_without_stand_ins() {
    let u = ContextUsage::measure(1, 0, true, false);
    let err = AppError::ModelRuntime("llama-server returned no choices".to_string());
    let mut t = ChatTurn::begin(&u);
    let _ = t.on_runtime_ready(Ok(String::new()), true, "m");
    assert!(matches!(t.on_model_reply(Err(err.clone()), true, "m"), ChatAction::Answer(_)));
    assert!(t.mocked);
    assert_eq!(t.events.last().unwrap(), "model_error_mock_fallback");

    let mut strict = ChatTurn::begin(&u);
    let _ = strict.on_runtime_ready(Ok(String::new()), false, "m");
    match strict.on_model_reply(Err(err.clone()), false, "m") {
        ChatAction::Fail(e) => assert_eq!(e, err),
        other => panic!("{:?}", other),
    }
    assert!(!strict.mocked);
    let mut strict2 = ChatTurn::begin(&u);
    match strict2.on_runtime_ready(Err(err.clone()), false, "m") {
        ChatAction::Fail(e) => assert_eq!(e, err),
        other => panic!("{:?}", other),
    }
    assert_eq!(strict2.events, vec!["preparing_context"]);
}

#[test]
fn errors_have_messages_and_codes() {
    let cases = [
        (AppError::Database("x".into()), "database error: x", 500),
        (AppError::ModelRuntime("x".into()), "model runtime error: x", 503),
        (AppError::Request("x".into()), "request error: x", 400),
        (AppError::NotFound("x".into()), "not found: x", 404),
        (AppError::Internal("x".into()), "internal error: x", 500),
    ];
    for (e, m, c) in cases {
        assert_eq!(e.message(), m);
        assert_eq!(e.status_code(), c);
        let b = e.body();
        assert!(!b.ok);
        assert_eq!(b.error, m);
    }
}

#[test]
fn defaults_and_requests() {
    let s = ServerConfig::default();
    assert_eq!((s.host.as_str(), s.port), ("127.0.0.1", 8787));
    let p = PathsConfig::default();
    assert_eq!(p.database_path, "./data/brain.sqlite");
    let b = BrainPolicyConfig::default();
    assert_eq!(b.default_project_id, "logixa_brain");
    assert_eq!(b.max_recent_messages, 12);
    assert_eq!(b.memory_search_limit, 6);
    let m = ModelRuntimeDefaults::default();
    assert_eq!(m.name, "Qwen3.5-4B Brain Fast");
    assert_eq!(m.model_id, "qwen3.5-4b-brain-fast");
    assert_eq!(m.model_path, "./models/Qwen3.5-4B-UD-Q4_K_XL.gguf");
    assert_eq!(m.llama_server_binary, "llama-server");
    assert_eq!((m.llama_host.as_str(), m.llama_port), ("127.0.0.1", 8788));
    assert_eq!((m.context_size, m.threads, m.max_tokens), (8192, 4, 1024));
    assert!(m.auto_start && !m.keep_loaded && m.mock_when_unavailable);
    assert_eq!(m.idle_timeout_seconds, 180);
    assert!(m.extra_args.is_empty());
    let req = ChatRequest {
        message: "m".into(),
        conversation_id: None,
        project_id: None,
        mode: None,
        use_memory: None,
    };
    assert!(req.wants_memory());
    let st = StatusResponse::report("0.1.0", true, "stopped".into(), "Qwen".into());
    assert!(st.ok);
    assert_eq!(st.service, "logixa-brain-core");
}

#[test]
fn memory_off_reports_no_memory() {
    let m = MemoryRecord {
        id: "m".to_string(),
        scope: "user".to_string(),
        project_id: None,
        kind: "fact".to_string(),
        content: "likes tea".to_string(),
        tags: None,
        importance: 3,
        created_at: "t".to_string(),
        updated_at: "t".to_string(),
    };
    let off = context_memories(false, Ok(vec![m.clone()]), 6);
    let u = ContextUsage::measure(1, off.len(), false, false);
    assert_eq!(u.memory_items_used, 0);
    assert!(!u.memory_used);
    let t = ChatTurn::begin(&u);
    assert!(!t.events.iter().any(|e| e == "long_term_memory_loaded"));
    let on = context_memories(true, Ok(vec![m]), 6);
    let u = ContextUsage::measure(1, on.len(), true, false);
    assert_eq!(u.memory_items_used, 1);
    assert!(u.memory_used);
    let t = ChatTurn::begin(&u);
    assert!(t.events.iter().any(|e| e == "long_term_memory_loaded"));
}

fn chat(message: &str, conversation_id: Option<&str>, project_id: Option<&str>) -> ChatRequest {
    ChatRequest {
        message: message.to_string(),
        conversation_id: conversation_id.map(|s| s.to_string()),
        project_id: project_id.map(|s| s.to_string()),
        mode: None,
        use_memory: None,
    }
}

#[test]
fn opening_refuses_before_writing() {
    let (o, a) = ChatOpening::begin(&chat("  ", Some("c1"), None));
    assert_eq!(o.stage, OpeningStage::Failed);
    assert!(matches!(a, OpeningAction::Fail(AppError::Request(ref m)) if m == "message cannot be empty"));
    let (_, a) = ChatOpening::begin(&chat("hi", Some("  "), None));
    assert!(matches!(a, OpeningAction::Fail(AppError::Request(ref m)) if m == "conversation_id cannot be empty"));
}

#[test]
fn opening_an_existing_conversation() {
    let (mut o, a) = ChatOpening::begin(&chat("hi", Some(" c1 "), Some("p")));
    assert!(matches!(a, OpeningAction::LookUpConversation(ref k) if k == "c1"));
    let a = o.on_conversation(Ok(Some(None)));
    assert!(matches!(a, OpeningAction::SaveUserMessage(ref c, Some(ref p)) if c == "c1" && p == "p"));
    assert_eq!(o.stage, OpeningStage::Settled);

    let (mut o, _) = ChatOpening::begin(&chat("hi", Some("c1"), Some("p")));
    let a = o.on_conversation(Ok(Some(Some("q".to_string()))));
    assert!(matches!(a, OpeningAction::Fail(AppError::Request(ref m))
        if m == "conversation_id belongs to project 'q' but request used project 'p'"));

    let (mut o, _) = ChatOpening::begin(&chat("hi", Some("c9"), None));
    let a = o.on_conversation(Ok(None));
    assert!(matches!(a, OpeningAction::Fail(AppError::Request(ref m)) if m == "conversation_id not found: c9"));

    let (mut o, _) = ChatOpening::begin(&chat("hi", Some("c1"), None));
    let a = o.on_conversation(Err(AppError::Database("locked".to_string())));
    assert!(matches!(a, OpeningAction::Fail(AppError::Database(ref m)) if m == "locked"));
    assert_eq!(o.stage, OpeningStage::Failed);
}

#[test]
fn opening_a_new_conversation() {
    let (mut o, a) = ChatOpening::begin(&chat("hello", None, Some("p")));
    assert!(matches!(a, OpeningAction::CreateConversation(ref t, Some(ref p)) if t == "hello" && p == "p"));
    let a = o.on_created(Ok("new".to_string()));
    assert!(matches!(a, OpeningAction::SaveUserMessage(ref c, Some(ref p)) if c == "new" && p == "p"));

    let long = "x".repeat(50);
    let (mut o, a) = ChatOpening::begin(&chat(&long, None, None));
    assert!(matches!(a, OpeningAction::ReadActiveProject));
    let a = o.on_active_project(Some("a".to_string()));
    assert!(matches!(a, OpeningAction::CreateConversation(ref t, Some(ref p)) if t.len() == 42 && p == "a"));
    assert_eq!(o.stage, OpeningStage::AwaitingCreation);
    let a = o.on_created(Err(AppError::Database("full".to_string())));
    assert!(matches!(a, OpeningAction::Fail(_)));

    let (mut o, _) = ChatOpening::begin(&chat("hi", None, None));
    let a = o.on_active_project(None);
    assert!(matches!(a, OpeningAction::CreateConversation(_, None)));
    let a = o.on_created(Ok("c2".to_string()));
    assert!(matches!(a, OpeningAction::SaveUserMessage(ref c, None) if c == "c2"));
}
