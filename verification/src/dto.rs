//! Requests and responses exchanged with clients of the brain.
use crate::text::owned;
use vstd::prelude::*;

verus! {

/// A chat message from a client.
#[derive(Debug, Clone, PartialEq, Eq)]
pub struct ChatRequest {
    pub message: String,
    pub conversation_id: Option<String>,
    pub project_id: Option<String>,
    pub mode: Option<String>,
    pub use_memory: Option<bool>,
}

impl ChatRequest {
    /// Whether long-term memory is consulted: as asked, and by default yes.
    pub fn wants_memory(&self) -> (b: bool)
        ensures
            b == match self.use_memory {
                Some(u) => u,
                None => true,
            },
    {
        match self.use_memory {
            Some(u) => u,
            None => true,
        }
    }
}

/// The brain's answer to a chat message.
#[derive(Debug, Clone, PartialEq, Eq)]
pub struct ChatResponse {
    pub answer: String,
    pub conversation_id: String,
    pub project_id: String,
    pub mode_used: String,
    pub model_used: String,
    pub memory_used: bool,
    pub memory_items_used: usize,
    pub history_used: bool,
    pub history_messages_used: usize,
    pub project_state_used: bool,
    pub events: Vec<String>,
    pub tool_calls: Vec<String>,
    pub mocked: bool,
}

/// The service status.
#[derive(Debug, Clone, PartialEq, Eq)]
pub struct StatusResponse {
    pub ok: bool,
    pub service: String,
    pub version: String,
    pub database_ready: bool,
    pub model_status: String,
    pub active_model: String,
}

impl StatusResponse {
    /// The status report of the service `logixa-brain-core` at `version`.
    pub fn report(version: &str, database_ready: bool, model_status: String, active_model: String) -> (r:
        StatusResponse)
        ensures
            r.ok,
            r.service@ == "logixa-brain-core"@,
            r.version@ == version@,
            r.database_ready == database_ready,
            r.model_status == model_status,
            r.active_model == active_model,
    {
        StatusResponse {
            ok: true,
            service: owned("logixa-brain-core"),
            version: owned(version),
            database_ready,
            model_status,
            active_model,
        }
    }
}

/// One entry of a tag list: a text, or any other JSON value in its JSON form.
#[derive(Debug, Clone, PartialEq, Eq)]
pub enum TagItem {
    Text(String),
    Json(String),
}

/// The tags of a memory as sent: a text, a list, or any other JSON value in
/// its JSON form.
#[derive(Debug, Clone, PartialEq, Eq)]
pub enum TagsInput {
    Text(String),
    List(Vec<TagItem>),
    Json(String),
}

/// A request to store a long-term memory.
#[derive(Debug, Clone, PartialEq, Eq)]
pub struct MemorySaveRequest {
    pub scope: String,
    pub project_id: Option<String>,
    pub kind: Option<String>,
    pub content: Option<String>,
    pub key: Option<String>,
    pub value: Option<String>,
    pub tags: Option<TagsInput>,
    pub importance: Option<i64>,
}

/// A request to search long-term memory.
#[derive(Debug, Clone, PartialEq, Eq)]
pub struct MemorySearchRequest {
    pub query: String,
    pub project_id: Option<String>,
    pub scope: Option<String>,
    pub kind: Option<String>,
    pub limit: Option<usize>,
}

impl MemorySearchRequest {
    /// The number of results asked for: as given, and by default 6.
    pub fn requested_limit(&self) -> (n: usize)
        ensures
            n == match self.limit {
                Some(l) => l,
                None => 6,
            },
    {
        match self.limit {
            Some(l) => l,
            None => 6,
        }
    }
}

/// A request to register or update a project.
#[derive(Debug, Clone, PartialEq, Eq)]
pub struct ProjectUpsertRequest {
    pub id: String,
    pub name: String,
    pub path: Option<String>,
    pub kind: Option<String>,
    pub rules: Option<String>,
}

/// A request to change fields of a project's state; absent fields are kept.
#[derive(Debug, Clone, PartialEq, Eq)]
pub struct ProjectStateUpdateRequest {
    pub current_step: Option<String>,
    pub last_commit: Option<String>,
    pub last_tag: Option<String>,
    pub summary: Option<String>,
    pub next_step: Option<String>,
    pub status: Option<String>,
}

/// A decision on a pending tool call.
#[derive(Debug, Clone, PartialEq, Eq)]
pub struct ToolDecisionRequest {
    pub note: Option<String>,
}

} // verus!
