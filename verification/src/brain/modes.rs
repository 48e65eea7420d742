//! The answering modes of the brain and their names.
use crate::text::{spec_to_lowercase, str_eq, to_lowercase};
use vstd::prelude::*;

verus! {

/// How the brain answers a message.
#[derive(Debug, Clone, Copy, PartialEq, Eq)]
pub enum BrainMode {
    Chat,
    Task,
    Code,
    Planning,
    Memory,
    Tool,
}

/// The mode a lowercase name selects; `None` for "auto", "" and unknown names.
pub open spec fn spec_mode_from_lowercase(s: Seq<char>) -> Option<BrainMode> {
    if s == "chat"@ {
        Some(BrainMode::Chat)
    } else if s == "task"@ {
        Some(BrainMode::Task)
    } else if s == "code"@ {
        Some(BrainMode::Code)
    } else if s == "planning"@ || s == "plan"@ {
        Some(BrainMode::Planning)
    } else if s == "memory"@ {
        Some(BrainMode::Memory)
    } else if s == "tool"@ {
        Some(BrainMode::Tool)
    } else {
        None
    }
}

/// The text a request carries for the mode: the given value, or "auto".
pub open spec fn requested_mode_text(value: Option<&str>) -> Seq<char> {
    match value {
        Some(v) => v@,
        None => "auto"@,
    }
}

impl BrainMode {
    /// The name of the mode.
    pub open spec fn spec_name(self) -> Seq<char> {
        match self {
            BrainMode::Chat => "chat"@,
            BrainMode::Task => "task"@,
            BrainMode::Code => "code"@,
            BrainMode::Planning => "planning"@,
            BrainMode::Memory => "memory"@,
            BrainMode::Tool => "tool"@,
        }
    }

    /// The name of the mode.
    pub fn as_str(&self) -> (s: &'static str)
        ensures
            s@ == self.spec_name(),
    {
        match self {
            BrainMode::Chat => "chat",
            BrainMode::Task => "task",
            BrainMode::Code => "code",
            BrainMode::Planning => "planning",
            BrainMode::Memory => "memory",
            BrainMode::Tool => "tool",
        }
    }

    /// The mode selected by an already lowercased name.
    pub fn from_lowercase(s: &str) -> (m: Option<BrainMode>)
        ensures
            m == spec_mode_from_lowercase(s@),
    {
        if str_eq(s, "chat") {
            Some(BrainMode::Chat)
        } else if str_eq(s, "task") {
            Some(BrainMode::Task)
        } else if str_eq(s, "code") {
            Some(BrainMode::Code)
        } else if str_eq(s, "planning") || str_eq(s, "plan") {
            Some(BrainMode::Planning)
        } else if str_eq(s, "memory") {
            Some(BrainMode::Memory)
        } else if str_eq(s, "tool") {
            Some(BrainMode::Tool)
        } else {
            None
        }
    }

    /// The mode a request asks for: the lowercased value (or "auto" when
    /// absent) looked up by name; `None` means the brain picks the mode.
    pub fn from_optional(value: Option<&str>) -> (m: Option<BrainMode>)
        ensures
            m == spec_mode_from_lowercase(spec_to_lowercase(requested_mode_text(value))),
    {
        let text = match value {
            Some(v) => v,
            None => "auto",
        };
        let lower = to_lowercase(text);
        BrainMode::from_lowercase(lower.as_str())
    }
}

/// The names the modes are looked up by, with their first characters spelled out.
proof fn lemma_mode_names_spelled()
    ensures
        "chat"@ =~= seq!['c', 'h', 'a', 't'],
        "task"@ =~= seq!['t', 'a', 's', 'k'],
        "code"@ =~= seq!['c', 'o', 'd', 'e'],
        "planning"@ =~= seq!['p', 'l', 'a', 'n', 'n', 'i', 'n', 'g'],
        "plan"@ =~= seq!['p', 'l', 'a', 'n'],
        "memory"@ =~= seq!['m', 'e', 'm', 'o', 'r', 'y'],
        "tool"@ =~= seq!['t', 'o', 'o', 'l'],
        "auto"@ =~= seq!['a', 'u', 't', 'o'],
{
    reveal_strlit("chat");
    reveal_strlit("task");
    reveal_strlit("code");
    reveal_strlit("planning");
    reveal_strlit("plan");
    reveal_strlit("memory");
    reveal_strlit("tool");
    reveal_strlit("auto");
}

/// Every mode's name selects that mode again.
pub proof fn lemma_mode_name_round_trip(m: BrainMode)
    ensures
        spec_mode_from_lowercase(m.spec_name()) == Some(m),
{
    lemma_mode_names_spelled();
    let n = m.spec_name();
    assert(n[0] == m.spec_name()[0]);
    assert(n[1] == m.spec_name()[1]);
    if n == "chat"@ {
        assert(n[1] == 'h');
    }
    if n == "task"@ {
        assert(n[0] == 't' && n[1] == 'a');
    }
    if n == "code"@ {
        assert(n[1] == 'o' && n[0] == 'c');
    }
    if n == "plan"@ {
        assert(n.len() == 4 && n[0] == 'p');
    }
    if n == "planning"@ {
        assert(n.len() == 8);
    }
    if n == "memory"@ {
        assert(n[0] == 'm');
    }
}

/// "auto" and the empty name select no mode, so the brain classifies the message.
pub proof fn lemma_auto_selects_nothing()
    ensures
        spec_mode_from_lowercase("auto"@) is None,
        spec_mode_from_lowercase(Seq::<char>::empty()) is None,
{
    lemma_mode_names_spelled();
    let a = "auto"@;
    assert(a[0] == 'a' && a[1] == 'u');
    let e = Seq::<char>::empty();
    assert(e.len() == 0);
}

/// The modes are named chat, task, code, planning, memory and tool; a name
/// selects a mode only when it is that mode's name, or "plan" for planning.
pub proof fn lemma_mode_names(s: Seq<char>)
    ensures
        BrainMode::Chat.spec_name() == "chat"@,
        BrainMode::Task.spec_name() == "task"@,
        BrainMode::Code.spec_name() == "code"@,
        BrainMode::Planning.spec_name() == "planning"@,
        BrainMode::Memory.spec_name() == "memory"@,
        BrainMode::Tool.spec_name() == "tool"@,
        spec_mode_from_lowercase(s) matches Some(m) ==> s == m.spec_name() || (m
            == BrainMode::Planning && s == "plan"@),
        s == "plan"@ ==> spec_mode_from_lowercase(s) == Some(BrainMode::Planning),
{
    lemma_mode_names_spelled();
    if s == "plan"@ {
        assert(s.len() == 4 && s[0] == 'p');
    }
}

} // verus!
