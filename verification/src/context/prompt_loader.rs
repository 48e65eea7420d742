//! Composing the system prompt from its policy texts.
use crate::brain::modes::BrainMode;
use crate::error::AppResult;
use crate::text::{is_blank, owned, trim};
use vstd::prelude::*;

verus! {

/// The policy texts the system prompt is made of, one per file.
#[derive(Debug, Clone, PartialEq, Eq)]
pub struct PromptSet {
    pub identity: String,
    pub style: String,
    pub execution: String,
    pub memory: String,
    pub tools: String,
    pub chat: String,
    pub task: String,
    pub code: String,
    pub planning: String,
    pub memory_mode: String,
    pub tool: String,
}

/// The policy text of a mode.
pub open spec fn spec_mode_prompt(mode: BrainMode, p: PromptSet) -> String {
    match mode {
        BrainMode::Chat => p.chat,
        BrainMode::Task => p.task,
        BrainMode::Code => p.code,
        BrainMode::Planning => p.planning,
        BrainMode::Memory => p.memory_mode,
        BrainMode::Tool => p.tool,
    }
}

/// The file holding the policy text of a mode.
pub open spec fn spec_mode_prompt_path(mode: BrainMode) -> Seq<char> {
    match mode {
        BrainMode::Chat => "prompts/modes/chat.md"@,
        BrainMode::Task => "prompts/modes/task.md"@,
        BrainMode::Code => "prompts/modes/code.md"@,
        BrainMode::Planning => "prompts/modes/planning.md"@,
        BrainMode::Memory => "prompts/modes/memory.md"@,
        BrainMode::Tool => "prompts/modes/tool.md"@,
    }
}

/// The system prompt: the five base policies and the mode policy separated
/// by blank lines, then the runtime context naming the project and the mode,
/// then the closing instruction.
pub open spec fn spec_system_prompt(
    p: PromptSet,
    mode_policy: Seq<char>,
    project_id: Seq<char>,
    mode_name: Seq<char>,
) -> Seq<char> {
    p.identity@ + "\n\n"@ + p.style@ + "\n\n"@ + p.execution@ + "\n\n"@ + p.memory@ + "\n\n"@
        + p.tools@ + "\n\n"@ + mode_policy + "\n\n# Runtime Context\n\nProject ID: "@ + project_id
        + "\nMode: "@ + mode_name + "\n\nالتزمي بالسياسات السابقة في الرد القادم.\n"@
}

/// Loads and composes the policy texts of the system prompt.
pub struct PromptLoader;

impl PromptLoader {
    /// The text of a policy: what was read from its file when that is not
    /// blank, else the built-in text.
    pub fn resolve_prompt(disk: Option<String>, fallback: &str) -> (r: String)
        ensures
            match disk {
                Some(c) if trim(c@).len() > 0 => r == c,
                _ => r@ == fallback@,
            },
    {
        match disk {
            Some(c) if !is_blank(c.as_str()) => c,
            _ => owned(fallback),
        }
    }

    /// The file holding the policy text of a mode.
    pub fn mode_prompt_path(mode: &BrainMode) -> (r: &'static str)
        ensures
            r@ == spec_mode_prompt_path(*mode),
    {
        match mode {
            BrainMode::Chat => "prompts/modes/chat.md",
            BrainMode::Task => "prompts/modes/task.md",
            BrainMode::Code => "prompts/modes/code.md",
            BrainMode::Planning => "prompts/modes/planning.md",
            BrainMode::Memory => "prompts/modes/memory.md",
            BrainMode::Tool => "prompts/modes/tool.md",
        }
    }

    /// The policy text of a mode.
    pub fn load_mode_prompt(mode: &BrainMode, prompts: &PromptSet) -> (r: String)
        ensures
            r == spec_mode_prompt(*mode, *prompts),
    {
        match mode {
            BrainMode::Chat => prompts.chat.clone(),
            BrainMode::Task => prompts.task.clone(),
            BrainMode::Code => prompts.code.clone(),
            BrainMode::Planning => prompts.planning.clone(),
            BrainMode::Memory => prompts.memory_mode.clone(),
            BrainMode::Tool => prompts.tool.clone(),
        }
    }

    /// The system prompt for a mode and project.
    pub fn load_system_prompt(mode: &BrainMode, project_id: &str, prompts: &PromptSet) -> (r:
        AppResult<String>)
        ensures
            r matches Ok(s) && s@ == spec_system_prompt(
                *prompts,
                spec_mode_prompt(*mode, *prompts)@,
                project_id@,
                mode.spec_name(),
            ),
    {
        let mode_policy = PromptLoader::load_mode_prompt(mode, prompts);
        let mut out = prompts.identity.clone();
        out.append("\n\n");
        out.append(prompts.style.as_str());
        out.append("\n\n");
        out.append(prompts.execution.as_str());
        out.append("\n\n");
        out.append(prompts.memory.as_str());
        out.append("\n\n");
        out.append(prompts.tools.as_str());
        out.append("\n\n");
        out.append(mode_policy.as_str());
        out.append("\n\n# Runtime Context\n\nProject ID: ");
        out.append(project_id);
        out.append("\nMode: ");
        out.append(mode.as_str());
        out.append("\n\nالتزمي بالسياسات السابقة في الرد القادم.\n");
        Ok(out)
    }
}

/// The policy file of each mode is named after the mode:
/// `prompts/modes/<name>.md`, so distinct modes read distinct files.
pub proof fn lemma_mode_prompt_path_named(m: BrainMode)
    ensures
        spec_mode_prompt_path(m) == "prompts/modes/"@ + m.spec_name() + ".md"@,
{
    reveal_strlit("prompts/modes/");
    reveal_strlit(".md");
    reveal_strlit("chat");
    reveal_strlit("task");
    reveal_strlit("code");
    reveal_strlit("planning");
    reveal_strlit("memory");
    reveal_strlit("tool");
    reveal_strlit("prompts/modes/chat.md");
    reveal_strlit("prompts/modes/task.md");
    reveal_strlit("prompts/modes/code.md");
    reveal_strlit("prompts/modes/planning.md");
    reveal_strlit("prompts/modes/memory.md");
    reveal_strlit("prompts/modes/tool.md");
    assert(spec_mode_prompt_path(m) =~= "prompts/modes/"@ + m.spec_name() + ".md"@);
}

/// The policy texts of a prompt set are pairwise different.
pub open spec fn mode_policies_distinct(p: PromptSet) -> bool {
    let t = seq![p.chat, p.task, p.code, p.planning, p.memory_mode, p.tool];
    forall|i: int, j: int| 0 <= i < j < 6 ==> #[trigger] t[i] != #[trigger] t[j]
}

/// Each mode answers under its own policy, the text of its own file: chat
/// (chat.md), task (task.md), code (code.md), planning (planning.md), memory
/// (memory.md, the set's `memory_mode`, not the base memory rules) and tool
/// (tool.md). So when the texts differ, distinct modes get distinct
/// policies.
pub proof fn lemma_mode_policy_is_own(p: PromptSet, m1: BrainMode, m2: BrainMode)
    ensures
        spec_mode_prompt(BrainMode::Chat, p) == p.chat,
        spec_mode_prompt(BrainMode::Task, p) == p.task,
        spec_mode_prompt(BrainMode::Code, p) == p.code,
        spec_mode_prompt(BrainMode::Planning, p) == p.planning,
        spec_mode_prompt(BrainMode::Memory, p) == p.memory_mode,
        spec_mode_prompt(BrainMode::Tool, p) == p.tool,
        mode_policies_distinct(p) && m1 != m2 ==> spec_mode_prompt(m1, p) != spec_mode_prompt(m2, p),
{
    let t = seq![p.chat, p.task, p.code, p.planning, p.memory_mode, p.tool];
    let idx = |m: BrainMode|
        match m {
            BrainMode::Chat => 0int,
            BrainMode::Task => 1int,
            BrainMode::Code => 2int,
            BrainMode::Planning => 3int,
            BrainMode::Memory => 4int,
            BrainMode::Tool => 5int,
        };
    if mode_policies_distinct(p) && m1 != m2 {
        assert(spec_mode_prompt(m1, p) == t[idx(m1)]);
        assert(spec_mode_prompt(m2, p) == t[idx(m2)]);
        assert(idx(m1) != idx(m2));
        if idx(m1) < idx(m2) {
            assert(t[idx(m1)] != t[idx(m2)]);
        } else {
            assert(t[idx(m2)] != t[idx(m1)]);
        }
    }
}

/// The system prompt of a mode starts with the identity policy and ends
/// with that mode's own policy, followed by the runtime context naming the
/// project and the mode, and the closing instruction.
pub proof fn lemma_system_prompt_ends_with_mode(p: PromptSet, m: BrainMode, project_id: Seq<char>)
    ensures
        ({
            let prompt = spec_system_prompt(p, spec_mode_prompt(m, p)@, project_id, m.spec_name());
            &&& p.identity@.is_prefix_of(prompt)
            &&& ("\n\n"@ + spec_mode_prompt(m, p)@ + "\n\n# Runtime Context\n\nProject ID: "@
                + project_id + "\nMode: "@ + m.spec_name()
                + "\n\nالتزمي بالسياسات السابقة في الرد القادم.\n"@).is_suffix_of(prompt)
        }),
{
    let pol = spec_mode_prompt(m, p)@;
    let prompt = spec_system_prompt(p, pol, project_id, m.spec_name());
    let pre = p.identity@ + "\n\n"@ + p.style@ + "\n\n"@ + p.execution@ + "\n\n"@ + p.memory@
        + "\n\n"@ + p.tools@;
    let tail = "\n\n"@ + pol + "\n\n# Runtime Context\n\nProject ID: "@ + project_id
        + "\nMode: "@ + m.spec_name() + "\n\nالتزمي بالسياسات السابقة في الرد القادم.\n"@;
    assert(prompt =~= pre + tail);
    assert(p.identity@ =~= prompt.subrange(0, p.identity@.len() as int));
    assert(tail =~= prompt.subrange(prompt.len() - tail.len(), prompt.len() as int));
}

} // verus!
