//! The tools the brain offers, which of them need approval, and the input
//! fields a tool call carries.
use crate::error::{is_not_found_error, is_request_error, AppError, AppResult};
use crate::text::{concat_str, owned, str_eq};
use vstd::prelude::*;

verus! {

/// A tool and its approval policy.
#[derive(Debug, Clone, PartialEq, Eq)]
pub struct ToolDefinition {
    pub name: String,
    pub description: String,
    pub requires_approval: bool,
    pub danger_level: String,
}

/// The fields of a tool call's JSON input that the tools read; a field of
/// another JSON type counts as absent.
#[derive(Debug, Clone, PartialEq, Eq)]
pub struct ToolInput {
    pub path: Option<String>,
    pub command: Option<String>,
    pub cwd: Option<String>,
    pub timeout_seconds: Option<u64>,
    pub max_bytes: Option<u64>,
}

/// A tool the registry can run.
#[derive(Debug, Clone, Copy, PartialEq, Eq)]
pub enum ToolKind {
    ListFiles,
    GitStatus,
    GitDiff,
}

/// A definition seen as (name, description, requires approval, danger level).
pub open spec fn definition_view(d: ToolDefinition) -> (Seq<char>, Seq<char>, bool, Seq<char>) {
    (d.name@, d.description@, d.requires_approval, d.danger_level@)
}

/// The definitions seen as tuples.
pub open spec fn table_view(defs: Seq<ToolDefinition>) -> Seq<(Seq<char>, Seq<char>, bool, Seq<char>)> {
    defs.map_values(|d: ToolDefinition| definition_view(d))
}

/// The standard tools: three read-only ones of low danger, each of which
/// runs only after approval.
pub open spec fn standard_tools() -> Seq<(Seq<char>, Seq<char>, bool, Seq<char>)> {
    seq![
        ("list_files"@, "List files inside an allowed path"@, true, "low"@),
        ("git_status"@, "Run git status --short in a repo"@, true, "low"@),
        ("git_diff"@, "Run git diff --stat in a repo"@, true, "low"@),
    ]
}

/// The first entry of the table with this name, if any.
pub open spec fn lookup(table: Seq<(Seq<char>, Seq<char>, bool, Seq<char>)>, name: Seq<char>) -> Option<
    (Seq<char>, Seq<char>, bool, Seq<char>),
>
    decreases table.len(),
{
    if table.len() == 0 {
        None
    } else if table[0].0 == name {
        Some(table[0])
    } else {
        lookup(table.drop_first(), name)
    }
}

/// Whether a call of `name` needs approval: the flag of the first tool of
/// that name; an unknown tool always needs it.
pub open spec fn approval_needed(table: Seq<(Seq<char>, Seq<char>, bool, Seq<char>)>, name: Seq<char>) -> bool {
    match lookup(table, name) {
        Some(e) => e.2,
        None => true,
    }
}

/// The tool a name selects.
pub open spec fn spec_tool_kind(name: Seq<char>) -> Option<ToolKind> {
    if name == "list_files"@ {
        Some(ToolKind::ListFiles)
    } else if name == "git_status"@ {
        Some(ToolKind::GitStatus)
    } else if name == "git_diff"@ {
        Some(ToolKind::GitDiff)
    } else {
        None
    }
}

impl ToolDefinition {
    /// A copy of this definition.
    pub fn duplicate(&self) -> (r: ToolDefinition)
        ensures
            r == *self,
    {
        ToolDefinition {
            name: self.name.clone(),
            description: self.description.clone(),
            requires_approval: self.requires_approval,
            danger_level: self.danger_level.clone(),
        }
    }
}

fn definition(name: &str, description: &str, requires_approval: bool, danger_level: &str) -> (r:
    ToolDefinition)
    ensures
        definition_view(r) == (name@, description@, requires_approval, danger_level@),
{
    ToolDefinition {
        name: owned(name),
        description: owned(description),
        requires_approval,
        danger_level: owned(danger_level),
    }
}

/// The tools the brain can run.
pub struct ToolRegistry {
    definitions: Vec<ToolDefinition>,
}

impl View for ToolRegistry {
    type V = Seq<ToolDefinition>;

    closed spec fn view(&self) -> Seq<ToolDefinition> {
        self.definitions@
    }
}

impl ToolRegistry {
    /// The registry of the standard tools.
    pub fn new() -> (r: ToolRegistry)
        ensures
            table_view(r@) == standard_tools(),
    {
        let mut definitions: Vec<ToolDefinition> = Vec::new();
        definitions.push(definition("list_files", "List files inside an allowed path", true, "low"));
        definitions.push(definition("git_status", "Run git status --short in a repo", true, "low"));
        definitions.push(definition("git_diff", "Run git diff --stat in a repo", true, "low"));
        let r = ToolRegistry { definitions };
        assert(table_view(r@) =~= standard_tools());
        r
    }

    /// The definitions, in order.
    pub fn list(&self) -> (r: Vec<ToolDefinition>)
        ensures
            r@ == self@,
    {
        let mut r: Vec<ToolDefinition> = Vec::new();
        let mut i: usize = 0;
        while i < self.definitions.len()
            invariant
                i <= self.definitions@.len(),
                r@ == self.definitions@.take(i as int),
            decreases self.definitions.len() - i,
        {
            r.push(self.definitions[i].duplicate());
            assert(r@ =~= self.definitions@.take(i + 1));
            i += 1;
        }
        assert(r@ =~= self.definitions@);
        r
    }

    /// The first definition with this name, if any.
    pub fn find(&self, name: &str) -> (r: Option<ToolDefinition>)
        ensures
            match r {
                Some(d) => lookup(table_view(self@), name@) == Some(definition_view(d)),
                None => lookup(table_view(self@), name@) is None,
            },
    {
        let mut i: usize = 0;
        assert(table_view(self@).skip(0) =~= table_view(self@));
        while i < self.definitions.len()
            invariant
                i <= self.definitions@.len(),
                lookup(table_view(self@), name@) == lookup(table_view(self@).skip(i as int), name@),
            decreases self.definitions.len() - i,
        {
            let ghost rest = table_view(self@).skip(i as int);
            assert(rest[0] == definition_view(self.definitions@[i as int]));
            assert(rest.drop_first() =~= table_view(self@).skip(i + 1));
            if str_eq(self.definitions[i].name.as_str(), name) {
                return Some(self.definitions[i].duplicate());
            }
            i += 1;
        }
        assert(table_view(self@).skip(i as int).len() == 0);
        None
    }

    /// Whether a call of `name` needs approval.
    pub fn requires_approval(&self, name: &str) -> (b: bool)
        ensures
            b == approval_needed(table_view(self@), name@),
    {
        match self.find(name) {
            Some(d) => d.requires_approval,
            None => true,
        }
    }

    /// Refuses a call that needs approval but was not approved.
    pub fn check_approval(&self, name: &str, approved: bool) -> (r: AppResult<()>)
        ensures
            (approval_needed(table_view(self@), name@) && !approved) ==> (r matches Err(e)
                && is_request_error(e, "tool `"@ + name@ + "` requires approval=true"@)),
            !(approval_needed(table_view(self@), name@) && !approved) ==> r is Ok,
    {
        if self.requires_approval(name) && !approved {
            let mut m = concat_str("tool `", name);
            m.append("` requires approval=true");
            Err(AppError::Request(m))
        } else {
            Ok(())
        }
    }
}

/// The tool a name selects, or a not-found error for an unknown name.
pub fn tool_kind(name: &str) -> (r: AppResult<ToolKind>)
    ensures
        spec_tool_kind(name@) matches Some(k) ==> r == Ok::<ToolKind, AppError>(k),
        spec_tool_kind(name@) is None ==> (r matches Err(e) && is_not_found_error(
            e,
            "unknown tool `"@ + name@ + "`"@,
        )),
{
    if str_eq(name, "list_files") {
        Ok(ToolKind::ListFiles)
    } else if str_eq(name, "git_status") {
        Ok(ToolKind::GitStatus)
    } else if str_eq(name, "git_diff") {
        Ok(ToolKind::GitDiff)
    } else {
        let mut m = concat_str("unknown tool `", name);
        m.append("`");
        Err(AppError::NotFound(m))
    }
}

/// A tool that no definition names always needs approval.
pub proof fn lemma_unknown_tool_needs_approval(
    table: Seq<(Seq<char>, Seq<char>, bool, Seq<char>)>,
    name: Seq<char>,
)
    requires
        forall|i: int| 0 <= i < table.len() ==> (#[trigger] table[i]).0 != name,
    ensures
        lookup(table, name) is None,
        approval_needed(table, name),
    decreases table.len(),
{
    if table.len() > 0 {
        assert(table[0].0 != name);
        assert forall|i: int| 0 <= i < table.drop_first().len() implies (
        #[trigger] table.drop_first()[i]).0 != name by {
            assert(table.drop_first()[i] == table[i + 1]);
        }
        lemma_unknown_tool_needs_approval(table.drop_first(), name);
    }
}

/// What `lookup` finds is an entry of the table with that name.
pub proof fn lemma_lookup_finds_entry(
    table: Seq<(Seq<char>, Seq<char>, bool, Seq<char>)>,
    name: Seq<char>,
)
    ensures
        lookup(table, name) matches Some(e) ==> e.0 == name && exists|i: int|
            0 <= i < table.len() && #[trigger] table[i] == e,
    decreases table.len(),
{
    if table.len() > 0 && table[0].0 != name {
        lemma_lookup_finds_entry(table.drop_first(), name);
        if let Some(e) = lookup(table, name) {
            let i = choose|i: int| 0 <= i < table.drop_first().len() && #[trigger] table.drop_first()[i] == e;
            assert(table[i + 1] == e);
        }
    }
}

/// In a table whose every tool needs approval, every call needs approval,
/// of a known tool or an unknown one.
pub proof fn lemma_all_need_approval(table: Seq<(Seq<char>, Seq<char>, bool, Seq<char>)>, name: Seq<char>)
    requires
        forall|i: int| 0 <= i < table.len() ==> (#[trigger] table[i]).2,
    ensures
        approval_needed(table, name),
{
    lemma_lookup_finds_entry(table, name);
}

/// The standard tool names, spelled out.
proof fn lemma_standard_names_spelled()
    ensures
        "list_files"@.len() == 10 && "list_files"@[0] == 'l',
        "git_status"@.len() == 10 && "git_status"@[0] == 'g' && "git_status"@[4] == 's',
        "git_diff"@.len() == 8,
{
    reveal_strlit("list_files");
    reveal_strlit("git_status");
    reveal_strlit("git_diff");
}

/// Every call of the standard registry needs approval, and the tools it
/// knows are exactly those that `tool_kind` selects, each of low danger.
pub proof fn lemma_standard_tools(name: Seq<char>)
    ensures
        approval_needed(standard_tools(), name),
        (lookup(standard_tools(), name) is Some) == (spec_tool_kind(name) is Some),
        lookup(standard_tools(), name) matches Some(e) ==> e.3 == "low"@,
{
    let t = standard_tools();
    lemma_all_need_approval(t, name);
    lemma_standard_names_spelled();
    reveal_with_fuel(lookup, 4);
    let t1 = t.drop_first();
    let t2 = t1.drop_first();
    let t3 = t2.drop_first();
    assert(t3.len() == 0);
    assert(t[0].0 == "list_files"@);
    assert(t1[0].0 == "git_status"@);
    assert(t2[0].0 == "git_diff"@);
    if name == "git_status"@ {
        assert(name[0] != "list_files"@[0]);
    }
    if name == "git_diff"@ {
        assert(name.len() != "list_files"@.len());
        assert(name.len() != "git_status"@.len());
    }
}

} // verus!
