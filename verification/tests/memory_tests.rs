use logixa_brain_core::clock::{new_id, now_rfc3339};
use logixa_brain_core::dto::{MemorySaveRequest, MemorySearchRequest, TagItem, TagsInput};
use logixa_brain_core::error::AppError;
use logixa_brain_core::memory::db::{
    after_full_text, after_like, bounded_list_limit, bounded_search_limit, chronological,
    first_search_action, like_pattern, seed_project, seed_project_state, MemoryRecord,
    MessageRecord, SearchAction,
};
use logixa_brain_core::memory::memory_manager::{
    build_memory_record, check_required, default_importance, normalize_kind, normalize_required,
    normalize_tags, pick_kind, prepare_memory, resolve_content,
};
use logixa_brain_core::memory::search::{clean_token, is_query_punctuation, normalize_fts_query};

fn request(scope: &str) -> MemorySaveRequest {
    MemorySaveRequest {
        scope: scope.to_string(),
        project_id: None,
        kind: None,
        content: None,
        key: None,
        value: None,
        tags: None,
        importance: None,
    }
}

fn memory(id: &str) -> MemoryRecord {
    MemoryRecord {
        id: id.to_string(),
        scope: "user".to_string(),
        project_id: None,
        kind: "note".to_string(),
        content: "c".to_string(),
        tags: None,
        importance: 3,
        created_at: "t".to_string(),
        updated_at: "t".to_string(),
    }
}

fn message(id: &str) -> MessageRecord {
    MessageRecord {
        id: id.to_string(),
        conversation_id: "c1".to_string(),
        role: "user".to_string(),
        content: id.to_string(),
        mode: None,
        created_at: id.to_string(),
    }
}

#[test]
fn fts_query_from_words() {
    assert_eq!(
        normalize_fts_query("headless local service"),
        "headless* OR local* OR service*"
    );
    assert_eq!(normalize_fts_query("مصطفى؟"), "مصطفى*");
    assert_eq!(normalize_fts_query("a b cd"), "cd*");
    assert_eq!(normalize_fts_query("«Brain», core!"), "Brain* OR core*");
    assert_eq!(normalize_fts_query("   "), "");
    assert_eq!(normalize_fts_query("!! ?"), "");
}

#[test]
fn fts_query_keeps_at_most_24_words() {
    let words: Vec<String> = (0..30).map(|i| format!("w{:02}", i)).collect();
    let q = normalize_fts_query(&words.join(" "));
    let terms: Vec<&str> = q.split(" OR ").collect();
    assert_eq!(terms.len(), 24);
    assert_eq!(terms[0], "w00*");
    assert_eq!(terms[23], "w23*");
}

#[test]
fn query_punctuation() {
    for c in ['!', '/', ':', '@', '[', '`', '{', '~', '،', '؛', '؟', 'ـ', '“', '”', '‘', '’', '«', '»', '…'] {
        assert!(is_query_punctuation(c), "{c}");
    }
    for c in ['a', 'Z', '0', ' ', 'م'] {
        assert!(!is_query_punctuation(c), "{c}");
    }
    for u in 0u8..128 {
        let c = u as char;
        assert_eq!(is_query_punctuation(c), c.is_ascii_punctuation());
    }
    assert_eq!(clean_token("«hello»"), "hello");
    assert_eq!(clean_token("x.y"), "xy");
}

#[test]
fn required_fields() {
    assert_eq!(normalize_required("scope", "  User "), Ok("user".to_string()));
    assert_eq!(
        normalize_required("scope", "   "),
        Err(AppError::Request("scope cannot be empty".to_string()))
    );
    assert_eq!(
        check_required("field", String::new()),
        Err(AppError::Request("field cannot be empty".to_string()))
    );
}

#[test]
fn kinds() {
    assert_eq!(normalize_kind(Some(" Decision ".to_string()), Some("k")), "decision");
    assert_eq!(normalize_kind(Some("  ".to_string()), Some(" Preferred_Name ")), "preferred_name");
    assert_eq!(normalize_kind(None, Some("  ")), "note");
    assert_eq!(normalize_kind(None, None), "note");
    assert_eq!(pick_kind(Some(String::new()), Some("key".to_string())), "key");
}

#[test]
fn contents() {
    assert_eq!(resolve_content(Some("  text ".to_string()), Some("k"), Some("v")), Ok("text".to_string()));
    assert_eq!(resolve_content(Some(" ".to_string()), Some(" k "), Some(" v ")), Ok("k: v".to_string()));
    assert_eq!(resolve_content(None, None, Some(" v ")), Ok("v".to_string()));
    let err = Err(AppError::Request(
        "memory requires either non-empty content or key/value".to_string(),
    ));
    assert_eq!(resolve_content(None, Some(" "), Some("v")), err);
    assert_eq!(resolve_content(None, Some("k"), None), err);
    assert_eq!(resolve_content(None, None, None), err);
}

#[test]
fn tags() {
    assert_eq!(normalize_tags(None), None);
    assert_eq!(normalize_tags(Some(TagsInput::Text(" a,b ".to_string()))), Some("a,b".to_string()));
    assert_eq!(normalize_tags(Some(TagsInput::Text("  ".to_string()))), None);
    let list = TagsInput::List(vec![
        TagItem::Text(" identity ".to_string()),
        TagItem::Text(" ".to_string()),
        TagItem::Json("3".to_string()),
        TagItem::Text("user".to_string()),
    ]);
    assert_eq!(normalize_tags(Some(list)), Some("identity,3,user".to_string()));
    assert_eq!(normalize_tags(Some(TagsInput::List(vec![TagItem::Text("".to_string())]))), None);
    assert_eq!(normalize_tags(Some(TagsInput::Json("true".to_string()))), Some("true".to_string()));
}

#[test]
fn importances() {
    assert_eq!(default_importance("project", "preferred_name"), 5);
    assert_eq!(default_importance("project", "preference"), 5);
    assert_eq!(default_importance("user", "note"), 4);
    assert_eq!(default_importance("style", "note"), 4);
    assert_eq!(default_importance("project", "decision"), 3);
}

#[test]
fn record_from_key_value_request() {
    let mut req = request(" User ");
    req.key = Some("preferred_name".to_string());
    req.value = Some("مصطفى".to_string());
    req.tags = Some(TagsInput::List(vec![
        TagItem::Text("identity".to_string()),
        TagItem::Text("user".to_string()),
    ]));
    req.project_id = Some("  ".to_string());
    let r = build_memory_record(req, "id-1".to_string(), "2024-01-01T00:00:00+00:00".to_string())
        .unwrap();
    assert_eq!(r.id, "id-1");
    assert_eq!(r.scope, "user");
    assert_eq!(r.kind, "preferred_name");
    assert_eq!(r.content, "preferred_name: مصطفى");
    assert_eq!(r.tags.as_deref(), Some("identity,user"));
    assert_eq!(r.importance, 5);
    assert_eq!(r.project_id, None);
    assert_eq!(r.created_at, r.updated_at);
}

#[test]
fn record_importance_is_clamped() {
    let mut req = request("project");
    req.content = Some("Brain Core is a headless local service.".to_string());
    req.importance = Some(9);
    req.project_id = Some(" logixa_brain ".to_string());
    let r = build_memory_record(req.clone(), "i".to_string(), "n".to_string()).unwrap();
    assert_eq!(r.importance, 5);
    assert_eq!(r.kind, "note");
    assert_eq!(r.project_id.as_deref(), Some("logixa_brain"));
    req.importance = Some(-3);
    assert_eq!(build_memory_record(req, "i".to_string(), "n".to_string()).unwrap().importance, 1);
}

#[test]
fn refused_records() {
    let mut req = request("  ");
    req.content = Some("x".to_string());
    assert_eq!(
        build_memory_record(req, "i".to_string(), "n".to_string()),
        Err(AppError::Request("scope cannot be empty".to_string()))
    );
    assert_eq!(
        prepare_memory(request("user")),
        Err(AppError::Request(
            "memory requires either non-empty content or key/value".to_string()
        ))
    );
}

#[test]
fn prepared_record_gets_id_and_time() {
    let mut req = request("user");
    req.content = Some("likes tea".to_string());
    let r = prepare_memory(req).unwrap();
    assert_eq!(r.id.len(), 36);
    assert!(!r.created_at.is_empty());
    assert_eq!(r.created_at, r.updated_at);
    let id: Vec<char> = r.id.chars().collect();
    for (i, c) in id.iter().enumerate() {
        if [8, 13, 18, 23].contains(&i) {
            assert_eq!(*c, '-');
        } else {
            assert!(c.is_ascii_digit() || ('a'..='f').contains(c));
        }
    }
    assert_eq!(id[14], '4');
    assert!(['8', '9', 'a', 'b'].contains(&id[19]));
    assert!(r.created_at.ends_with("+00:00"));
    assert!(r.created_at.len() >= 25);
    assert_eq!(&r.created_at[10..11], "T");
}

#[test]
fn clock_values_have_their_shapes() {
    let a = new_id();
    let b = new_id();
    assert_ne!(a, b);
    assert_eq!(a.len(), 36);
    assert_eq!(a.matches('-').count(), 4);
    assert_eq!(a, a.to_lowercase());
    let t = now_rfc3339();
    assert!(t.ends_with("+00:00"));
    assert_eq!(&t[4..5], "-");
    assert_eq!(&t[16..17], ":");
}

#[test]
fn limits() {
    assert_eq!(bounded_search_limit(0), 1);
    assert_eq!(bounded_search_limit(6), 6);
    assert_eq!(bounded_search_limit(500), 24);
    assert_eq!(bounded_list_limit(0), 1);
    assert_eq!(bounded_list_limit(100), 100);
    assert_eq!(bounded_list_limit(101), 100);
    let req = MemorySearchRequest {
        query: "q".to_string(),
        project_id: None,
        scope: None,
        kind: None,
        limit: None,
    };
    assert_eq!(req.requested_limit(), 6);
    assert_eq!(like_pattern("abc"), "%abc%");
}

#[test]
fn search_fallback_steps() {
    assert_eq!(first_search_action("   "), SearchAction::ListFiltered);
    assert_eq!(
        first_search_action("  headless service "),
        SearchAction::FullText("headless* OR service*".to_string())
    );
    assert_eq!(first_search_action(" ! "), SearchAction::Like("!".to_string()));
    assert_eq!(
        after_full_text(" q ", Some(vec![memory("m1")])),
        SearchAction::Return(vec![memory("m1")])
    );
    assert_eq!(after_full_text(" q ", Some(vec![])), SearchAction::Like("q".to_string()));
    assert_eq!(after_full_text(" q ", None), SearchAction::Like("q".to_string()));
    assert_eq!(after_like(vec![memory("m2")]), SearchAction::Return(vec![memory("m2")]));
    assert_eq!(after_like(vec![]), SearchAction::ListFiltered);
}

#[test]
fn messages_back_in_written_order() {
    let newest_first = vec![message("3"), message("2"), message("1")];
    let ids: Vec<String> = chronological(newest_first).into_iter().map(|m| m.id).collect();
    assert_eq!(ids, vec!["1", "2", "3"]);
    assert!(chronological(vec![]).is_empty());
}

#[test]
fn seeded_project() {
    let p = seed_project("logixa_brain", "now".to_string());
    assert_eq!(p.id, "logixa_brain");
    assert_eq!(p.name, "Logixa Brain");
    assert_eq!(p.kind.as_deref(), Some("brain-core"));
    assert_eq!(p.status, "active");
    let s = seed_project_state("logixa_brain", "now".to_string());
    assert_eq!(s.current_step.as_deref(), Some("Step 5 — Project State Memory"));
    assert_eq!(s.last_tag.as_deref(), Some("brain-step4-long-term-memory"));
    assert_eq!(s.last_commit, None);
    assert_eq!(s.created_at, "now");
}

#[test]
fn fts_terms_hold_no_space_or_punctuation() {
    let q = normalize_fts_query("  «Logixa»,  brain-core!!  x  ؟؟ ");
    assert_eq!(q, "Logixa* OR braincore*");
    for term in q.split(" OR ") {
        let body: Vec<char> = term.chars().collect();
        assert_eq!(*body.last().unwrap(), '*');
        assert!(body.len() >= 3);
        for c in &body[..body.len() - 1] {
            assert!(!c.is_whitespace() && !is_query_punctuation(*c));
        }
    }
    assert_eq!(normalize_fts_query("a , b ! ؟"), "");
    assert_ne!(normalize_fts_query("a , bc"), "");
}
