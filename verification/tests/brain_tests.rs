use logixa_brain_core::brain::intent_router::IntentRouter;
use logixa_brain_core::brain::modes::BrainMode;
use logixa_brain_core::brain::response_pipeline::ResponsePipeline;

#[test]
fn mode_names_round_trip() {
    for m in [
        BrainMode::Chat,
        BrainMode::Task,
        BrainMode::Code,
        BrainMode::Planning,
        BrainMode::Memory,
        BrainMode::Tool,
    ] {
        assert_eq!(BrainMode::from_optional(Some(m.as_str())), Some(m));
        assert_eq!(BrainMode::from_lowercase(m.as_str()), Some(m));
    }
}

#[test]
fn mode_lookup_cases() {
    assert_eq!(BrainMode::Planning.as_str(), "planning");
    assert_eq!(BrainMode::from_optional(Some("PLAN")), Some(BrainMode::Planning));
    assert_eq!(BrainMode::from_optional(Some("Code")), Some(BrainMode::Code));
    assert_eq!(BrainMode::from_optional(Some("auto")), None);
    assert_eq!(BrainMode::from_optional(Some("")), None);
    assert_eq!(BrainMode::from_optional(Some("poetry")), None);
    assert_eq!(BrainMode::from_optional(None), None);
    assert_eq!(BrainMode::from_lowercase("Chat"), None);
}

#[test]
fn classify_by_markers() {
    assert_eq!(IntentRouter::classify("please run git status"), BrainMode::Tool);
    assert_eq!(IntentRouter::classify("open a terminal"), BrainMode::Tool);
    assert_eq!(IntentRouter::classify("REMEMBER my name"), BrainMode::Memory);
    assert_eq!(IntentRouter::classify("افتكر اسمي"), BrainMode::Memory);
    assert_eq!(IntentRouter::classify("fix this Rust function"), BrainMode::Code);
    assert_eq!(IntentRouter::classify("اكتب كود"), BrainMode::Code);
    assert_eq!(IntentRouter::classify("commit the work"), BrainMode::Task);
    assert_eq!(IntentRouter::classify("نفذ الخطوة"), BrainMode::Task);
    assert_eq!(IntentRouter::classify("draw the roadmap"), BrainMode::Planning);
    assert_eq!(IntentRouter::classify("إنت مين؟"), BrainMode::Chat);
    assert_eq!(IntentRouter::classify(""), BrainMode::Chat);
}

#[test]
fn tool_markers_take_precedence() {
    assert_eq!(
        IntentRouter::classify("remember to show the git status of the rust code"),
        BrainMode::Tool
    );
    assert_eq!(IntentRouter::classify("memory of the code"), BrainMode::Memory);
    assert_eq!(IntentRouter::classify_lowercase("ls -la"), BrainMode::Tool);
    assert_eq!(IntentRouter::classify_lowercase("LS -la"), BrainMode::Chat);
}

#[test]
fn clean_removes_markers_and_margins() {
    assert_eq!(ResponsePipeline::clean("  hello world<|im_end|>  "), "hello world");
    assert_eq!(ResponsePipeline::clean("a<|end|>b"), "ab");
    assert_eq!(ResponsePipeline::clean("answer <|im_end|>\n<|end|>"), "answer");
    assert_eq!(ResponsePipeline::clean("   "), "");
    assert_eq!(ResponsePipeline::clean("<|e<|end|>nd|>"), "<|end|>");
}

#[test]
fn clean_output_is_trimmed() {
    for s in ["  x  ", "<|end|> y <|im_end|>", "\n\tz\n", "plain"] {
        let c = ResponsePipeline::clean(s);
        assert_eq!(c.trim(), c);
    }
}
