use logixa_brain_core::brain::modes::BrainMode;
use logixa_brain_core::context::assembler::{context_memories, resolve_context_project, AssembledContext};
use logixa_brain_core::error::AppError;
use logixa_brain_core::context::prompt_builder::PromptBuilder;
use logixa_brain_core::context::prompt_loader::{PromptLoader, PromptSet};
use logixa_brain_core::memory::db::{MemoryRecord, MessageRecord};

fn msg(role: &str, content: &str) -> MessageRecord {
    MessageRecord {
        id: content.to_string(),
        conversation_id: "c".to_string(),
        role: role.to_string(),
        content: content.to_string(),
        mode: None,
        created_at: "t".to_string(),
    }
}

fn mem(scope: &str, kind: &str, content: &str) -> MemoryRecord {
    MemoryRecord {
        id: "m".to_string(),
        scope: scope.to_string(),
        project_id: None,
        kind: kind.to_string(),
        content: content.to_string(),
        tags: None,
        importance: 5,
        created_at: "t".to_string(),
        updated_at: "t".to_string(),
    }
}

fn context(recent: Vec<MessageRecord>, memories: Vec<MemoryRecord>) -> AssembledContext {
    AssembledContext {
        project_id: "logixa_brain".to_string(),
        recent_messages: recent,
        memories,
        system_prompt: "SYSTEM".to_string(),
    }
}

fn prompts() -> PromptSet {
    PromptSet {
        identity: "I".to_string(),
        style: "S".to_string(),
        execution: "E".to_string(),
        memory: "M".to_string(),
        tools: "T".to_string(),
        chat: "chat-policy".to_string(),
        task: "task-policy".to_string(),
        code: "code-policy".to_string(),
        planning: "planning-policy".to_string(),
        memory_mode: "memory-policy".to_string(),
        tool: "tool-policy".to_string(),
    }
}

#[test]
fn system_content_lists_memories() {
    let c = context(vec![], vec![mem("user", "preferred_name", "مصطفى"), mem("project", "decision", "headless")]);
    assert_eq!(
        PromptBuilder::build_system_content(&c),
        "SYSTEM\n# Relevant Long-Term Memory\n\n- [user:preferred_name] مصطفى\n- [project:decision] headless\n"
    );
    assert_eq!(PromptBuilder::build_system_content(&context(vec![], vec![])), "SYSTEM");
}

#[test]
fn build_keeps_history_and_ends_with_user() {
    let c = context(
        vec![msg("user", "my name is Mostafa"), msg("assistant", "hi"), msg("tool", "x"), msg("user", "what is my name?")],
        vec![],
    );
    let ms = PromptBuilder::build(&c, "what is my name?");
    let pairs: Vec<(&str, &str)> = ms.iter().map(|m| (m.role.as_str(), m.content.as_str())).collect();
    assert_eq!(
        pairs,
        vec![
            ("system", "SYSTEM"),
            ("user", "my name is Mostafa"),
            ("assistant", "hi"),
            ("user", "what is my name?"),
        ]
    );
}

#[test]
fn build_appends_user_message_when_missing() {
    let ms = PromptBuilder::build(&context(vec![], vec![]), "hello");
    assert_eq!(ms.len(), 2);
    assert_eq!(ms[0].role, "system");
    assert_eq!(ms[1].role, "user");
    assert_eq!(ms[1].content, "hello");
}

#[test]
fn prompt_selection() {
    assert_eq!(PromptLoader::resolve_prompt(Some("disk".to_string()), "builtin"), "disk");
    assert_eq!(PromptLoader::resolve_prompt(Some(" \n ".to_string()), "builtin"), "builtin");
    assert_eq!(PromptLoader::resolve_prompt(None, "builtin"), "builtin");
    assert_eq!(PromptLoader::mode_prompt_path(&BrainMode::Planning), "prompts/modes/planning.md");
    assert_eq!(PromptLoader::load_mode_prompt(&BrainMode::Memory, &prompts()), "memory-policy");
}

#[test]
fn system_prompt_layout() {
    let p = PromptLoader::load_system_prompt(&BrainMode::Code, "logixa_brain", &prompts()).unwrap();
    assert_eq!(
        p,
        "I\n\nS\n\nE\n\nM\n\nT\n\ncode-policy\n\n# Runtime Context\n\nProject ID: logixa_brain\nMode: code\n\nالتزمي بالسياسات السابقة في الرد القادم.\n"
    );
}

#[test]
fn context_project_choice() {
    assert_eq!(resolve_context_project(Some("a".to_string()), Some("b".to_string()), "d"), "a");
    assert_eq!(resolve_context_project(None, Some("b".to_string()), "d"), "b");
    assert_eq!(resolve_context_project(None, None, "d"), "d");
}

#[test]
fn memories_only_when_memory_is_on() {
    let found = vec![mem("user", "fact", "a"), mem("user", "fact", "b")];
    assert_eq!(context_memories(false, Ok(found.clone()), 6), vec![]);
    assert_eq!(context_memories(true, Ok(found.clone()), 6), found);
    assert_eq!(context_memories(true, Ok(found.clone()), 0), vec![found[0].clone()]);
    assert_eq!(
        context_memories(true, Err(AppError::Internal("db".to_string())), 6),
        vec![]
    );
    let many: Vec<MemoryRecord> = (0..30).map(|i| mem("user", "fact", &i.to_string())).collect();
    let kept = context_memories(true, Ok(many.clone()), 100);
    assert_eq!(kept.len(), 24);
    assert_eq!(kept[..], many[..24]);
}
