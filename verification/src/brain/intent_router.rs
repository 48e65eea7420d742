//! Choosing an answering mode from the words of a message.
use crate::brain::modes::BrainMode;
use crate::text::{chars_of, contains_chars, has_sub, spec_to_lowercase, to_lowercase};
use vstd::prelude::*;

verus! {

/// Some marker of `markers` occurs in `s`.
pub open spec fn mentions_any(s: Seq<char>, markers: Seq<&str>) -> bool {
    exists|i: int| 0 <= i < markers.len() && #[trigger] has_sub(s, markers[i]@)
}

/// Words that point at tool use.
pub open spec fn tool_markers() -> Seq<&'static str> {
    seq!["git status", "ls ", "run command", "terminal", "شغل الأمر"]
}

/// Words that point at memory.
pub open spec fn memory_markers() -> Seq<&'static str> {
    seq!["افتكر", "ذاكرة", "remember", "memory", "احفظ"]
}

/// Words that point at code.
pub open spec fn code_markers() -> Seq<&'static str> {
    seq![
        "code",
        "كود",
        "rust",
        "flutter",
        "dart",
        "sql",
        "cargo",
        "function",
        "class",
        "error:",
        "stacktrace",
    ]
}

/// Words that point at a task to carry out.
pub open spec fn task_markers() -> Seq<&'static str> {
    seq!["نفذ", "اعمل", "ابني", "صلح", "step", "خطوة", "شغل", "commit", "tag"]
}

/// Words that point at planning.
pub open spec fn plan_markers() -> Seq<&'static str> {
    seq!["خطة", "roadmap", "architecture", "معمارية", "حلل", "تصميم"]
}

/// The mode for a lowercased message: the first of tool, memory, code, task
/// and planning whose markers it mentions, else chat.
pub open spec fn spec_classify_lowercase(s: Seq<char>) -> BrainMode {
    if mentions_any(s, tool_markers()) {
        BrainMode::Tool
    } else if mentions_any(s, memory_markers()) {
        BrainMode::Memory
    } else if mentions_any(s, code_markers()) {
        BrainMode::Code
    } else if mentions_any(s, task_markers()) {
        BrainMode::Task
    } else if mentions_any(s, plan_markers()) {
        BrainMode::Planning
    } else {
        BrainMode::Chat
    }
}

fn mentions_any_of(s: &Vec<char>, markers: &Vec<&str>) -> (b: bool)
    ensures
        b == mentions_any(s@, markers@),
{
    let mut i: usize = 0;
    while i < markers.len()
        invariant
            i <= markers.len(),
            forall|k: int| 0 <= k < i ==> !has_sub(s@, #[trigger] markers@[k]@),
        decreases markers.len() - i,
    {
        let m = chars_of(markers[i]);
        if contains_chars(s, &m) {
            assert(has_sub(s@, markers@[i as int]@));
            return true;
        }
        i += 1;
    }
    false
}

/// Keyword-based choice of the answering mode.
pub struct IntentRouter;

impl IntentRouter {
    /// The mode for a message that is already lowercased.
    pub fn classify_lowercase(lower: &str) -> (m: BrainMode)
        ensures
            m == spec_classify_lowercase(lower@),
    {
        let s = chars_of(lower);
        let tools = vec!["git status", "ls ", "run command", "terminal", "شغل الأمر"];
        assert(tools@ == tool_markers());
        if mentions_any_of(&s, &tools) {
            return BrainMode::Tool;
        }
        let memory = vec!["افتكر", "ذاكرة", "remember", "memory", "احفظ"];
        assert(memory@ == memory_markers());
        if mentions_any_of(&s, &memory) {
            return BrainMode::Memory;
        }
        let code = vec![
            "code",
            "كود",
            "rust",
            "flutter",
            "dart",
            "sql",
            "cargo",
            "function",
            "class",
            "error:",
            "stacktrace",
        ];
        assert(code@ == code_markers());
        if mentions_any_of(&s, &code) {
            return BrainMode::Code;
        }
        let task = vec!["نفذ", "اعمل", "ابني", "صلح", "step", "خطوة", "شغل", "commit", "tag"];
        assert(task@ == task_markers());
        if mentions_any_of(&s, &task) {
            return BrainMode::Task;
        }
        let plan = vec!["خطة", "roadmap", "architecture", "معمارية", "حلل", "تصميم"];
        assert(plan@ == plan_markers());
        if mentions_any_of(&s, &plan) {
            return BrainMode::Planning;
        }
        BrainMode::Chat
    }

    /// The mode for a message: its lowercase form classified by markers.
    pub fn classify(message: &str) -> (m: BrainMode)
        ensures
            m == spec_classify_lowercase(spec_to_lowercase(message@)),
    {
        let lower = to_lowercase(message);
        IntentRouter::classify_lowercase(lower.as_str())
    }
}

/// A message that mentions a tool marker is routed to the tool mode, whatever
/// else it mentions.
pub proof fn lemma_tool_markers_win(s: Seq<char>, i: int)
    requires
        0 <= i < tool_markers().len(),
        has_sub(s, tool_markers()[i]@),
    ensures
        spec_classify_lowercase(s) == BrainMode::Tool,
{
}

/// A message that mentions none of the markers is answered in chat mode.
pub proof fn lemma_no_marker_means_chat(s: Seq<char>)
    requires
        !mentions_any(s, tool_markers()),
        !mentions_any(s, memory_markers()),
        !mentions_any(s, code_markers()),
        !mentions_any(s, task_markers()),
        !mentions_any(s, plan_markers()),
    ensures
        spec_classify_lowercase(s) == BrainMode::Chat,
{
}

/// Some word of `words` occurs in `s`.
pub open spec fn mentions_some(s: Seq<char>, words: Seq<Seq<char>>) -> bool {
    exists|i: int| 0 <= i < words.len() && #[trigger] has_sub(s, words[i])
}

proof fn lemma_mentions_as_texts(s: Seq<char>, markers: Seq<&str>, words: Seq<Seq<char>>)
    requires
        markers.map_values(|m: &str| m@) == words,
    ensures
        mentions_any(s, markers) == mentions_some(s, words),
{
    if mentions_any(s, markers) {
        let i = choose|i: int| 0 <= i < markers.len() && #[trigger] has_sub(s, markers[i]@);
        assert(words[i] == markers[i]@);
    }
    if mentions_some(s, words) {
        let i = choose|i: int| 0 <= i < words.len() && #[trigger] has_sub(s, words[i]);
        assert(words[i] == markers[i]@);
    }
}

/// How a lowercased message is routed, word by word: to the tool mode when
/// it mentions "git status", "ls ", "run command", "terminal" or "شغل الأمر";
/// else to memory for "افتكر", "ذاكرة", "remember", "memory" or "احفظ"; else
/// to code for "code", "كود", "rust", "flutter", "dart", "sql", "cargo",
/// "function", "class", "error:" or "stacktrace"; else to task for "نفذ",
/// "اعمل", "ابني", "صلح", "step", "خطوة", "شغل", "commit" or "tag"; else to
/// planning for "خطة", "roadmap", "architecture", "معمارية", "حلل" or
/// "تصميم"; and to chat when it mentions none of these.
pub proof fn lemma_routing_by_listed_words(s: Seq<char>)
    ensures
        spec_classify_lowercase(s) == if mentions_some(
            s,
            seq!["git status"@, "ls "@, "run command"@, "terminal"@, "شغل الأمر"@],
        ) {
            BrainMode::Tool
        } else if mentions_some(s, seq!["افتكر"@, "ذاكرة"@, "remember"@, "memory"@, "احفظ"@]) {
            BrainMode::Memory
        } else if mentions_some(
            s,
            seq![
                "code"@,
                "كود"@,
                "rust"@,
                "flutter"@,
                "dart"@,
                "sql"@,
                "cargo"@,
                "function"@,
                "class"@,
                "error:"@,
                "stacktrace"@,
            ],
        ) {
            BrainMode::Code
        } else if mentions_some(
            s,
            seq!["نفذ"@, "اعمل"@, "ابني"@, "صلح"@, "step"@, "خطوة"@, "شغل"@, "commit"@, "tag"@],
        ) {
            BrainMode::Task
        } else if mentions_some(
            s,
            seq!["خطة"@, "roadmap"@, "architecture"@, "معمارية"@, "حلل"@, "تصميم"@],
        ) {
            BrainMode::Planning
        } else {
            BrainMode::Chat
        },
{
    let tools = seq!["git status"@, "ls "@, "run command"@, "terminal"@, "شغل الأمر"@];
    let memory = seq!["افتكر"@, "ذاكرة"@, "remember"@, "memory"@, "احفظ"@];
    let code = seq![
        "code"@,
        "كود"@,
        "rust"@,
        "flutter"@,
        "dart"@,
        "sql"@,
        "cargo"@,
        "function"@,
        "class"@,
        "error:"@,
        "stacktrace"@,
    ];
    let task = seq!["نفذ"@, "اعمل"@, "ابني"@, "صلح"@, "step"@, "خطوة"@, "شغل"@, "commit"@, "tag"@];
    let plan = seq!["خطة"@, "roadmap"@, "architecture"@, "معمارية"@, "حلل"@, "تصميم"@];
    assert(tool_markers().map_values(|m: &str| m@) =~= tools);
    assert(memory_markers().map_values(|m: &str| m@) =~= memory);
    assert(code_markers().map_values(|m: &str| m@) =~= code);
    assert(task_markers().map_values(|m: &str| m@) =~= task);
    assert(plan_markers().map_values(|m: &str| m@) =~= plan);
    lemma_mentions_as_texts(s, tool_markers(), tools);
    lemma_mentions_as_texts(s, memory_markers(), memory);
    lemma_mentions_as_texts(s, code_markers(), code);
    lemma_mentions_as_texts(s, task_markers(), task);
    lemma_mentions_as_texts(s, plan_markers(), plan);
}

/// A message that mentions "sql", and no tool or memory word, is routed to
/// the code mode.
pub proof fn lemma_sql_routes_to_code(s: Seq<char>)
    requires
        has_sub(s, "sql"@),
        !mentions_some(s, seq!["git status"@, "ls "@, "run command"@, "terminal"@, "شغل الأمر"@]),
        !mentions_some(s, seq!["افتكر"@, "ذاكرة"@, "remember"@, "memory"@, "احفظ"@]),
    ensures
        spec_classify_lowercase(s) == BrainMode::Code,
{
    lemma_routing_by_listed_words(s);
    let code = seq![
        "code"@,
        "كود"@,
        "rust"@,
        "flutter"@,
        "dart"@,
        "sql"@,
        "cargo"@,
        "function"@,
        "class"@,
        "error:"@,
        "stacktrace"@,
    ];
    assert(has_sub(s, code[5]));
}

} // verus!
