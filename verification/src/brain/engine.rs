//! The decisions of answering one chat message: validating it, choosing the
//! mode, scoping it to a conversation and project, measuring the context
//! used, falling back to a stand-in answer, and the progress events.
use crate::brain::intent_router::{spec_classify_lowercase, IntentRouter};
use crate::brain::modes::{requested_mode_text, spec_mode_from_lowercase, BrainMode};
use crate::brain::response_pipeline::{spec_clean, ResponsePipeline};
use crate::context::assembler::spec_context_memories;
use crate::memory::db::{clamp, MemoryRecord};
use crate::dto::{ChatRequest, ChatResponse};
use crate::error::{is_request_error, AppError, AppResult};
use crate::model::runtime_manager::{mock_answer, mock_prefix, mock_suffix};
use crate::text::{
    chars_of, clone_opt, concat_str, is_blank, owned, push_range, spec_to_lowercase, str_eq, trim,
    trim_str,
};
use vstd::prelude::*;

verus! {

/// Refuses a message that is empty or only whitespace.
pub fn validate_message(message: &str) -> (r: AppResult<()>)
    ensures
        trim(message@).len() == 0 ==> (r matches Err(e) && is_request_error(
            e,
            "message cannot be empty"@,
        )),
        trim(message@).len() > 0 ==> r is Ok,
{
    if is_blank(message) {
        Err(AppError::Request(owned("message cannot be empty")))
    } else {
        Ok(())
    }
}

/// The mode a message is answered in: the one the request names, else the
/// one its words point to.
pub open spec fn spec_choose_mode(mode: Option<&str>, message: Seq<char>) -> BrainMode {
    match spec_mode_from_lowercase(spec_to_lowercase(requested_mode_text(mode))) {
        Some(m) => m,
        None => spec_classify_lowercase(spec_to_lowercase(message)),
    }
}

/// The mode a message is answered in.
pub fn choose_mode(mode: Option<&str>, message: &str) -> (m: BrainMode)
    ensures
        m == spec_choose_mode(mode, message@),
{
    match BrainMode::from_optional(mode) {
        Some(m) => m,
        None => IntentRouter::classify(message),
    }
}

/// The id of an existing conversation a request names: trimmed, and refused
/// when empty.
pub fn conversation_key(raw_id: &str) -> (r: AppResult<String>)
    ensures
        trim(raw_id@).len() == 0 ==> (r matches Err(e) && is_request_error(
            e,
            "conversation_id cannot be empty"@,
        )),
        trim(raw_id@).len() > 0 ==> (r matches Ok(s) && s@ == trim(raw_id@)),
{
    let t = trim_str(raw_id);
    if t.as_str().is_empty() {
        Err(AppError::Request(owned("conversation_id cannot be empty")))
    } else {
        Ok(t)
    }
}

/// `r` is the scope of a message in the existing conversation
/// `conversation_id`, as `scope_for_existing` decides it.
pub open spec fn scope_result_ok(
    conversation_id: String,
    found: Option<Option<String>>,
    requested: Option<String>,
    r: AppResult<(String, Option<String>)>,
) -> bool {
    match found {
        None => r matches Err(e) && is_request_error(
            e,
            "conversation_id not found: "@ + conversation_id@,
        ),
        Some(existing) => match (existing, requested) {
            (Some(ex), Some(req)) if ex@ != req@ => r matches Err(e) && is_request_error(
                e,
                "conversation_id belongs to project '"@ + ex@ + "' but request used project '"@
                    + req@ + "'"@,
            ),
            _ => r matches Ok(p) && p.0 == conversation_id && p.1 == match existing {
                Some(x) => Some(x),
                None => requested,
            },
        },
    }
}

/// The scope of a message in an existing conversation, given the project the
/// conversation was stored with (`found`, `None` when there is no such
/// conversation) and the project the request names. A missing conversation,
/// or a project other than the conversation's, is refused; otherwise the
/// conversation's project is used, or else the requested one.
pub fn scope_for_existing(
    conversation_id: String,
    found: Option<Option<String>>,
    requested: Option<String>,
) -> (r: AppResult<(String, Option<String>)>)
    ensures
        scope_result_ok(conversation_id, found, requested, r),
{
    let existing = match found {
        Some(x) => x,
        None => {
            return Err(AppError::Request(concat_str("conversation_id not found: ", conversation_id.as_str())));
        },
    };
    if let (Some(req), Some(ex)) = (&requested, &existing) {
        if !str_eq(req.as_str(), ex.as_str()) {
            let mut m = concat_str("conversation_id belongs to project '", ex.as_str());
            m.append("' but request used project '");
            m.append(req.as_str());
            m.append("'");
            return Err(AppError::Request(m));
        }
    }
    let project = match existing {
        Some(x) => Some(x),
        None => requested,
    };
    Ok((conversation_id, project))
}

/// The project of a new conversation: the requested one, else the active one.
pub fn new_conversation_project(requested: Option<String>, active: Option<String>) -> (r: Option<
    String,
>)
    ensures
        r == match requested {
            Some(p) => Some(p),
            None => active,
        },
{
    match requested {
        Some(p) => Some(p),
        None => active,
    }
}

/// The title of a new conversation: the first 42 characters of the message.
pub open spec fn spec_conversation_title(message: Seq<char>) -> Seq<char> {
    if message.len() <= 42 {
        message
    } else {
        message.take(42)
    }
}

/// The title of a new conversation: the first 42 characters of the message.
pub fn conversation_title(message: &str) -> (r: String)
    ensures
        r@ == spec_conversation_title(message@),
{
    let v = chars_of(message);
    let n = if v.len() <= 42 {
        v.len()
    } else {
        42
    };
    let mut r = String::new();
    push_range(&mut r, &v, 0, n);
    assert(v@.subrange(0, n as int) =~= if message@.len() <= 42 {
        message@
    } else {
        message@.take(42)
    });
    r
}

/// Where the opening of a chat turn stands.
#[derive(Debug, Clone, Copy, PartialEq, Eq)]
pub enum OpeningStage {
    /// Waiting for the project stored with the named conversation.
    AwaitingConversation,
    /// Waiting for the active project, for a new conversation.
    AwaitingActiveProject,
    /// Waiting for the id of the conversation being created.
    AwaitingCreation,
    /// The scope is settled and the user's message is to be saved.
    Settled,
    /// The turn failed.
    Failed,
}

/// What to do next while opening a chat turn.
#[derive(Debug)]
pub enum OpeningAction {
    /// Read the project stored with the existing conversation of this id.
    LookUpConversation(String),
    /// Read the active project.
    ReadActiveProject,
    /// Create a conversation with this title and project.
    CreateConversation(String, Option<String>),
    /// Save the user's message in this conversation; the turn goes on in
    /// this conversation and project.
    SaveUserMessage(String, Option<String>),
    /// The turn fails with this error.
    Fail(AppError),
}

/// The opening of a chat turn: validating the message and settling the
/// conversation and project it belongs to, before anything of it is saved.
#[derive(Debug)]
pub struct ChatOpening {
    pub stage: OpeningStage,
    pub message: String,
    pub requested_project: Option<String>,
    pub conversation_id: String,
    pub project_id: Option<String>,
}

/// Whether an action writes to the store.
pub open spec fn writes(a: OpeningAction) -> bool {
    a is CreateConversation || a is SaveUserMessage
}

/// `o` and `a` are how a turn for `req` opens: a blank message fails at
/// once; a named conversation is trimmed (and refused when empty) and
/// looked up; a new conversation is created in the requested project, or
/// the active project is read first when none is requested.
pub open spec fn opening_begun(req: ChatRequest, o: ChatOpening, a: OpeningAction) -> bool {
    if trim(req.message@).len() == 0 {
        (a matches OpeningAction::Fail(e) && is_request_error(e, "message cannot be empty"@))
            && o.stage == OpeningStage::Failed
    } else {
        &&& o.message == req.message
        &&& o.requested_project == req.project_id
        &&& match req.conversation_id {
            Some(raw) => if trim(raw@).len() == 0 {
                (a matches OpeningAction::Fail(e) && is_request_error(
                    e,
                    "conversation_id cannot be empty"@,
                )) && o.stage == OpeningStage::Failed
            } else {
                (a matches OpeningAction::LookUpConversation(k) && k@ == trim(raw@))
                    && o.stage == OpeningStage::AwaitingConversation && o.conversation_id@ == trim(
                    raw@,
                )
            },
            None => match req.project_id {
                Some(p) => (a matches OpeningAction::CreateConversation(t, q) && t@
                    == spec_conversation_title(req.message@) && q == Some(p)) && o.stage
                    == OpeningStage::AwaitingCreation && o.project_id == Some(p),
                None => a is ReadActiveProject && o.stage == OpeningStage::AwaitingActiveProject,
            },
        }
    }
}

impl ChatOpening {
    /// Opens a turn for a request.
    pub fn begin(req: &ChatRequest) -> (r: (ChatOpening, OpeningAction))
        ensures
            opening_begun(*req, r.0, r.1),
    {
        let failed = ChatOpening {
            stage: OpeningStage::Failed,
            message: req.message.clone(),
            requested_project: clone_opt(&req.project_id),
            conversation_id: String::new(),
            project_id: None,
        };
        if let Err(e) = validate_message(req.message.as_str()) {
            return (failed, OpeningAction::Fail(e));
        }
        match &req.conversation_id {
            Some(raw) => match conversation_key(raw.as_str()) {
                Err(e) => (failed, OpeningAction::Fail(e)),
                Ok(k) => {
                    let o = ChatOpening {
                        stage: OpeningStage::AwaitingConversation,
                        message: req.message.clone(),
                        requested_project: clone_opt(&req.project_id),
                        conversation_id: k.clone(),
                        project_id: None,
                    };
                    (o, OpeningAction::LookUpConversation(k))
                },
            },
            None => match &req.project_id {
                Some(p) => {
                    let o = ChatOpening {
                        stage: OpeningStage::AwaitingCreation,
                        message: req.message.clone(),
                        requested_project: clone_opt(&req.project_id),
                        conversation_id: String::new(),
                        project_id: Some(p.clone()),
                    };
                    let title = conversation_title(req.message.as_str());
                    (o, OpeningAction::CreateConversation(title, Some(p.clone())))
                },
                None => {
                    let o = ChatOpening {
                        stage: OpeningStage::AwaitingActiveProject,
                        message: req.message.clone(),
                        requested_project: None,
                        conversation_id: String::new(),
                        project_id: None,
                    };
                    (o, OpeningAction::ReadActiveProject)
                },
            },
        }
    }

    /// The step after looking up the named conversation: a failed lookup
    /// fails the turn; otherwise the scope is settled as `scope_for_existing`
    /// decides, or the turn fails with its refusal.
    pub fn on_conversation(&mut self, found: AppResult<Option<Option<String>>>) -> (a: OpeningAction)
        requires
            old(self).stage == OpeningStage::AwaitingConversation,
            trim(old(self).message@).len() > 0,
        ensures
            final(self).message == old(self).message,
            match found {
                Err(e) => (a matches OpeningAction::Fail(f) && f == e) && final(self).stage
                    == OpeningStage::Failed,
                Ok(fo) => match a {
                    OpeningAction::Fail(e) => scope_result_ok(
                        old(self).conversation_id,
                        fo,
                        old(self).requested_project,
                        Err(e),
                    ) && final(self).stage == OpeningStage::Failed,
                    OpeningAction::SaveUserMessage(c, p) => scope_result_ok(
                        old(self).conversation_id,
                        fo,
                        old(self).requested_project,
                        Ok((c, p)),
                    ) && final(self).stage == OpeningStage::Settled && final(self).conversation_id
                        == c && final(self).project_id == p,
                    _ => false,
                },
            },
    {
        let found = match found {
            Err(e) => {
                self.stage = OpeningStage::Failed;
                return OpeningAction::Fail(e);
            },
            Ok(f) => f,
        };
        let requested = clone_opt(&self.requested_project);
        match scope_for_existing(self.conversation_id.clone(), found, requested) {
            Err(e) => {
                self.stage = OpeningStage::Failed;
                OpeningAction::Fail(e)
            },
            Ok((c, p)) => {
                self.stage = OpeningStage::Settled;
                self.conversation_id = c.clone();
                self.project_id = clone_opt(&p);
                OpeningAction::SaveUserMessage(c, p)
            },
        }
    }

    /// The step after reading the active project (`None` when there is none
    /// or it cannot be read): create the new conversation in it.
    pub fn on_active_project(&mut self, active: Option<String>) -> (a: OpeningAction)
        requires
            old(self).stage == OpeningStage::AwaitingActiveProject,
            trim(old(self).message@).len() > 0,
        ensures
            final(self).message == old(self).message,
            (a matches OpeningAction::CreateConversation(t, q) && t@ == spec_conversation_title(
                old(self).message@,
            ) && q == active),
            final(self).stage == OpeningStage::AwaitingCreation,
            final(self).project_id == active,
    {
        let project = new_conversation_project(None, active);
        self.stage = OpeningStage::AwaitingCreation;
        self.project_id = clone_opt(&project);
        let title = conversation_title(self.message.as_str());
        OpeningAction::CreateConversation(title, project)
    }

    /// The step after creating the conversation: a failed creation fails
    /// the turn; otherwise the message is saved in the new conversation.
    pub fn on_created(&mut self, created: AppResult<String>) -> (a: OpeningAction)
        requires
            old(self).stage == OpeningStage::AwaitingCreation,
            trim(old(self).message@).len() > 0,
        ensures
            final(self).message == old(self).message,
            match created {
                Err(e) => (a matches OpeningAction::Fail(f) && f == e) && final(self).stage
                    == OpeningStage::Failed,
                Ok(id) => (a matches OpeningAction::SaveUserMessage(c, p) && c == id && p == old(
                    self,
                ).project_id) && final(self).stage == OpeningStage::Settled
                    && final(self).conversation_id == id,
            },
    {
        match created {
            Err(e) => {
                self.stage = OpeningStage::Failed;
                OpeningAction::Fail(e)
            },
            Ok(id) => {
                self.stage = OpeningStage::Settled;
                self.conversation_id = id.clone();
                OpeningAction::SaveUserMessage(id, clone_opt(&self.project_id))
            },
        }
    }
}

/// Nothing is written for a message that fails validation: opening the
/// turn of a blank message ends at once in that failure. Opening never
/// saves the user's message at its first step: that is asked for only
/// after the conversation was looked up or created, and only for a
/// message that passed validation (the later steps require it).
pub proof fn lemma_opening_order(req: ChatRequest, o: ChatOpening, a: OpeningAction)
    requires
        opening_begun(req, o, a),
    ensures
        !(a is SaveUserMessage),
        trim(req.message@).len() == 0 ==> !writes(a) && a is Fail && o.stage
            == OpeningStage::Failed,
        writes(a) ==> trim(req.message@).len() > 0 && o.stage == OpeningStage::AwaitingCreation,
{
}

/// How much context went into an answer.
#[derive(Debug, Clone, Copy, PartialEq, Eq)]
pub struct ContextUsage {
    pub history_messages_used: usize,
    pub history_used: bool,
    pub memory_items_used: usize,
    pub memory_used: bool,
    pub project_state_used: bool,
}

/// `u` is the usage of a context with `recent_len` recent messages (the
/// newest being the message just received), `memories_len` memories, and
/// the project's state if one was found.
pub open spec fn measured(
    u: ContextUsage,
    recent_len: int,
    memories_len: int,
    use_memory: bool,
    project_state_found: bool,
) -> bool {
    &&& u.project_state_used == project_state_found
    &&& u.history_messages_used == if recent_len > 0 {
        recent_len - 1
    } else {
        0
    }
    &&& u.history_used == (recent_len > 1)
    &&& u.memory_items_used == memories_len
    &&& u.memory_used == (use_memory && memories_len > 0)
}

impl ContextUsage {
    /// The usage of a context with `recent_len` recent messages (the newest
    /// being the message just received), `memories_len` memories, and the
    /// project's state if one was found.
    pub fn measure(
        recent_len: usize,
        memories_len: usize,
        use_memory: bool,
        project_state_found: bool,
    ) -> (u: ContextUsage)
        ensures
            measured(u, recent_len as int, memories_len as int, use_memory, project_state_found),
    {
        let history_messages_used = if recent_len > 0 {
            recent_len - 1
        } else {
            0
        };
        ContextUsage {
            history_messages_used,
            history_used: history_messages_used > 0,
            memory_items_used: memories_len,
            memory_used: use_memory && memories_len > 0,
            project_state_used: project_state_found,
        }
    }
}

/// The separator between a stand-in answer and the reason for it.
pub open spec fn fallback_separator() -> Seq<char> {
    "\n\nسبب fallback: "@
}

/// The stand-in answer to a message, with the reason the model was not used.
pub open spec fn spec_fallback_answer(message: Seq<char>, err: AppError) -> Seq<char> {
    mock_prefix() + message + mock_suffix() + fallback_separator() + err.spec_message()
}

/// The stand-in answer to a message, with the reason the model was not used.
pub fn fallback_answer(message: &str, err: &AppError) -> (r: String)
    ensures
        r@ == spec_fallback_answer(message@, *err),
{
    let mut r = mock_answer(message);
    r.append("\n\nسبب fallback: ");
    let m = err.message();
    r.append(m.as_str());
    r
}

/// What to do next in a chat turn.
#[derive(Debug)]
pub enum ChatAction {
    /// Mark the runtime as used and send the messages to the model.
    CallModel,
    /// The raw answer is known.
    Answer(String),
    /// The turn fails with this error.
    Fail(AppError),
}

/// The progress of one chat turn: its events so far and whether the answer
/// is a stand-in.
#[derive(Debug, Clone, PartialEq, Eq)]
pub struct ChatTurn {
    pub events: Vec<String>,
    pub mocked: bool,
}

/// The events as texts.
pub open spec fn events_view(events: Seq<String>) -> Seq<Seq<char>> {
    events.map_values(|e: String| e@)
}

/// The events a turn starts with: context preparation, then whether history,
/// long-term memory and the project's state were loaded.
pub open spec fn opening_events(u: ContextUsage) -> Seq<Seq<char>> {
    seq!["preparing_context"@] + (if u.history_used {
        seq!["conversation_history_loaded"@]
    } else {
        seq![]
    }) + (if u.memory_used {
        seq!["long_term_memory_loaded"@]
    } else {
        seq![]
    }) + (if u.project_state_used {
        seq!["project_state_loaded"@]
    } else {
        seq![]
    })
}

fn push_event(events: &mut Vec<String>, e: &str)
    ensures
        events_view(final(events)@) == events_view(old(events)@).push(e@),
{
    let ghost before = events@;
    events.push(owned(e));
    assert(events_view(events@) =~= events_view(before).push(e@));
}

/// The step after making the model ready, from turn `t0` to turn `t1`.
pub open spec fn runtime_step_ok(
    t0: ChatTurn,
    t1: ChatTurn,
    ready: AppResult<String>,
    should_mock: bool,
    message: Seq<char>,
    a: ChatAction,
) -> bool {
    match ready {
        Ok(_) => a is CallModel && t1.mocked == t0.mocked && events_view(t1.events@) == events_view(
            t0.events@,
        ).push("model_ready"@),
        Err(e) => if should_mock {
            (a matches ChatAction::Answer(s) && s@ == spec_fallback_answer(message, e)) && t1.mocked
                && events_view(t1.events@) == events_view(t0.events@).push(
                "model_unavailable_mock_fallback"@,
            )
        } else {
            (a matches ChatAction::Fail(f) && f == e) && t1 == t0
        },
    }
}

/// The step after the model replied, from turn `t0` to turn `t1`.
pub open spec fn reply_step_ok(
    t0: ChatTurn,
    t1: ChatTurn,
    reply: AppResult<String>,
    should_mock: bool,
    message: Seq<char>,
    a: ChatAction,
) -> bool {
    match reply {
        Ok(s) => (a matches ChatAction::Answer(t) && t == s) && t1 == t0,
        Err(e) => if should_mock {
            (a matches ChatAction::Answer(s) && s@ == spec_fallback_answer(message, e)) && t1.mocked
                && events_view(t1.events@) == events_view(t0.events@).push(
                "model_error_mock_fallback"@,
            )
        } else {
            (a matches ChatAction::Fail(f) && f == e) && t1 == t0
        },
    }
}

/// With stand-ins off, a turn never answers with a stand-in: it fails
/// exactly when the model is not ready or its reply is an error, and
/// otherwise answers with the model's reply.
pub proof fn lemma_strict_turn_never_mocks(
    t0: ChatTurn,
    t1: ChatTurn,
    t2: ChatTurn,
    ready: AppResult<String>,
    reply: AppResult<String>,
    message: Seq<char>,
    a1: ChatAction,
    a2: ChatAction,
)
    requires
        !t0.mocked,
        runtime_step_ok(t0, t1, ready, false, message, a1),
        a1 is CallModel ==> reply_step_ok(t1, t2, reply, false, message, a2),
    ensures
        !t1.mocked,
        a1 is CallModel ==> !t2.mocked,
        (a1 is Fail) == (ready is Err),
        a1 is CallModel ==> ((a2 is Fail) == (reply is Err)),
        a1 is CallModel ==> (reply matches Ok(s) ==> (a2 matches ChatAction::Answer(t) && t == s)),
{
}

/// With stand-ins on, a turn always ends with an answer, and the answer is a
/// stand-in exactly when the model was not ready or its reply was an error.
pub proof fn lemma_mock_turn_always_answers(
    t0: ChatTurn,
    t1: ChatTurn,
    t2: ChatTurn,
    ready: AppResult<String>,
    reply: AppResult<String>,
    message: Seq<char>,
    a1: ChatAction,
    a2: ChatAction,
)
    requires
        !t0.mocked,
        runtime_step_ok(t0, t1, ready, true, message, a1),
        a1 is CallModel ==> reply_step_ok(t1, t2, reply, true, message, a2),
    ensures
        !(a1 is Fail),
        a1 is CallModel ==> a2 is Answer,
        (a1 is Answer) == (ready is Err),
        a1 is Answer ==> t1.mocked,
        a1 is CallModel ==> (t2.mocked == (reply is Err)),
{
}

impl ChatTurn {
    /// A turn with its opening events.
    pub fn begin(usage: &ContextUsage) -> (t: ChatTurn)
        ensures
            events_view(t.events@) == opening_events(*usage),
            !t.mocked,
    {
        let mut events: Vec<String> = Vec::new();
        push_event(&mut events, "preparing_context");
        if usage.history_used {
            push_event(&mut events, "conversation_history_loaded");
        }
        if usage.memory_used {
            push_event(&mut events, "long_term_memory_loaded");
        }
        if usage.project_state_used {
            push_event(&mut events, "project_state_loaded");
        }
        assert(events_view(events@) =~= opening_events(*usage));
        ChatTurn { events, mocked: false }
    }

    /// The step after making the model ready: call the model when it is
    /// ready; otherwise answer with a stand-in when stand-ins are allowed, or fail.
    pub fn on_runtime_ready(&mut self, ready: AppResult<String>, should_mock: bool, message: &str) -> (a:
        ChatAction)
        ensures
            runtime_step_ok(*old(self), *final(self), ready, should_mock, message@, a),
    {
        match ready {
            Ok(_) => {
                push_event(&mut self.events, "model_ready");
                ChatAction::CallModel
            },
            Err(e) => {
                if should_mock {
                    self.mocked = true;
                    push_event(&mut self.events, "model_unavailable_mock_fallback");
                    ChatAction::Answer(fallback_answer(message, &e))
                } else {
                    ChatAction::Fail(e)
                }
            },
        }
    }

    /// The step after the model replied: its answer; on an error, a stand-in
    /// when stand-ins are allowed, or fail.
    pub fn on_model_reply(&mut self, reply: AppResult<String>, should_mock: bool, message: &str) -> (a:
        ChatAction)
        ensures
            reply_step_ok(*old(self), *final(self), reply, should_mock, message@, a),
    {
        match reply {
            Ok(s) => ChatAction::Answer(s),
            Err(e) => {
                if should_mock {
                    self.mocked = true;
                    push_event(&mut self.events, "model_error_mock_fallback");
                    ChatAction::Answer(fallback_answer(message, &e))
                } else {
                    ChatAction::Fail(e)
                }
            },
        }
    }

    /// Records that generation is done and gives the cleaned answer.
    pub fn answer_ready(&mut self, raw: &str) -> (answer: String)
        ensures
            answer@ == spec_clean(raw@),
            final(self).mocked == old(self).mocked,
            events_view(final(self).events@) == events_view(old(self).events@).push(
                "generating_done"@,
            ),
    {
        push_event(&mut self.events, "generating_done");
        ResponsePipeline::clean(raw)
    }

    /// Records that the answer was saved.
    pub fn answer_saved(&mut self)
        ensures
            final(self).mocked == old(self).mocked,
            events_view(final(self).events@) == events_view(old(self).events@).push(
                "saving_memory"@,
            ),
    {
        push_event(&mut self.events, "saving_memory");
    }

    /// The response of a finished turn.
    pub fn finish(
        self,
        answer: String,
        conversation_id: String,
        project_id: String,
        mode: &BrainMode,
        model_name: String,
        usage: &ContextUsage,
    ) -> (r: ChatResponse)
        ensures
            r.answer == answer,
            r.conversation_id == conversation_id,
            r.project_id == project_id,
            r.mode_used@ == mode.spec_name(),
            r.model_used == model_name,
            r.memory_used == usage.memory_used,
            r.memory_items_used == usage.memory_items_used,
            r.history_used == usage.history_used,
            r.history_messages_used == usage.history_messages_used,
            r.project_state_used == usage.project_state_used,
            events_view(r.events@) == events_view(self.events@).push("done"@),
            r.tool_calls@.len() == 0,
            r.mocked == self.mocked,
    {
        let mut events = self.events;
        push_event(&mut events, "done");
        ChatResponse {
            answer,
            conversation_id,
            project_id,
            mode_used: owned(mode.as_str()),
            model_used: model_name,
            memory_used: usage.memory_used,
            memory_items_used: usage.memory_items_used,
            history_used: usage.history_used,
            history_messages_used: usage.history_messages_used,
            project_state_used: usage.project_state_used,
            events,
            tool_calls: Vec::new(),
            mocked: self.mocked,
        }
    }
}

proof fn lemma_event_names_spelled()
    ensures
        "preparing_context"@.len() == 17,
        "conversation_history_loaded"@.len() == 27,
        "long_term_memory_loaded"@.len() == 23,
        "project_state_loaded"@.len() == 20,
{
    reveal_strlit("preparing_context");
    reveal_strlit("conversation_history_loaded");
    reveal_strlit("long_term_memory_loaded");
    reveal_strlit("project_state_loaded");
}

/// Memory gating: a chat with memory off loads no memory, reports none and
/// no "long_term_memory_loaded" event; with memory on it reports memory
/// used, and that event, exactly when the search gave some memory, and
/// never more memories than the search limit.
pub proof fn lemma_memory_gating(
    use_memory: bool,
    found: AppResult<Vec<MemoryRecord>>,
    limit: usize,
    recent_len: usize,
    project_state_found: bool,
    u: ContextUsage,
)
    requires
        measured(
            u,
            recent_len as int,
            spec_context_memories(use_memory, found, limit).len() as int,
            use_memory,
            project_state_found,
        ),
    ensures
        !use_memory ==> u.memory_items_used == 0 && !u.memory_used,
        u.memory_items_used <= clamp(limit as int, 1, 24),
        u.memory_used == (use_memory && u.memory_items_used > 0),
        opening_events(u).contains("long_term_memory_loaded"@) == u.memory_used,
{
    lemma_event_names_spelled();
    let e = opening_events(u);
    let m = "long_term_memory_loaded"@;
    if u.memory_used {
        let k: int = if u.history_used { 2 } else { 1 };
        assert(e[k] == m);
    } else {
        assert forall|i: int| 0 <= i < e.len() implies e[i] != m by {
            assert(e[i].len() != m.len());
        }
    }
}

/// A new conversation's title is the start of the message: the whole
/// message when it has at most 42 characters, else its first 42.
pub proof fn lemma_title_is_message_start(message: Seq<char>)
    ensures
        spec_conversation_title(message).is_prefix_of(message),
        spec_conversation_title(message).len() == if message.len() <= 42 {
            message.len()
        } else {
            42
        },
{
    assert(spec_conversation_title(message) =~= message.subrange(
        0,
        spec_conversation_title(message).len() as int,
    ));
}

/// The events a turn opens with: always "preparing_context" first, then
/// "conversation_history_loaded" exactly when history was used,
/// "long_term_memory_loaded" exactly when memory was used and
/// "project_state_loaded" exactly when the project's state was used, in
/// that order and each at most once.
pub proof fn lemma_opening_event_list(u: ContextUsage)
    ensures
        ({
            let e = opening_events(u);
            let h: int = if u.history_used { 1 } else { 0 };
            let m: int = if u.memory_used { 1 } else { 0 };
            let p: int = if u.project_state_used { 1 } else { 0 };
            &&& e.len() == 1 + h + m + p
            &&& e[0] == "preparing_context"@
            &&& u.history_used ==> e[1] == "conversation_history_loaded"@
            &&& u.memory_used ==> e[1 + h] == "long_term_memory_loaded"@
            &&& u.project_state_used ==> e[1 + h + m] == "project_state_loaded"@
            &&& e.contains("conversation_history_loaded"@) == u.history_used
            &&& e.contains("project_state_loaded"@) == u.project_state_used
            &&& e.contains("long_term_memory_loaded"@) == u.memory_used
        }),
{
    lemma_event_names_spelled();
    let e = opening_events(u);
    let hv = "conversation_history_loaded"@;
    let pv = "project_state_loaded"@;
    let mv = "long_term_memory_loaded"@;
    let h: int = if u.history_used { 1 } else { 0 };
    let m: int = if u.memory_used { 1 } else { 0 };
    if u.history_used {
        assert(e[1] == hv);
    } else {
        assert forall|i: int| 0 <= i < e.len() implies e[i] != hv by {
            assert(e[i].len() != hv.len());
        }
    }
    if u.memory_used {
        assert(e[1 + h] == mv);
    } else {
        assert forall|i: int| 0 <= i < e.len() implies e[i] != mv by {
            assert(e[i].len() != mv.len());
        }
    }
    if u.project_state_used {
        assert(e[1 + h + m] == pv);
    } else {
        assert forall|i: int| 0 <= i < e.len() implies e[i] != pv by {
            assert(e[i].len() != pv.len());
        }
    }
}

/// A stand-in answer quotes the message after the stand-in notice, then
/// tells why the model was not used: it ends with "سبب fallback: " and the
/// error's message.
pub proof fn lemma_fallback_answer_layout(message: Seq<char>, err: AppError)
    ensures
        ("[Mock Brain Response] استلمت رسالتك: "@ + message).is_prefix_of(
            spec_fallback_answer(message, err),
        ),
        ("\n\nسبب fallback: "@ + err.spec_message()).is_suffix_of(spec_fallback_answer(message, err)),
{
    let a = spec_fallback_answer(message, err);
    let pre = "[Mock Brain Response] استلمت رسالتك: "@ + message;
    let suf = "\n\nسبب fallback: "@ + err.spec_message();
    assert(a =~= pre + mock_suffix() + suf);
    assert(pre =~= a.subrange(0, pre.len() as int));
    assert(suf =~= a.subrange(a.len() - suf.len(), a.len() as int));
}

/// The event each runtime or reply step adds: "model_ready" when the model
/// is ready; "model_unavailable_mock_fallback" when it is not and a
/// stand-in is allowed; "model_error_mock_fallback" when its reply is an
/// error and a stand-in is allowed; a successful reply and a failure add
/// none.
pub proof fn lemma_step_events(
    t0: ChatTurn,
    t1: ChatTurn,
    t2: ChatTurn,
    ready: AppResult<String>,
    reply: AppResult<String>,
    should_mock: bool,
    message: Seq<char>,
    a1: ChatAction,
    a2: ChatAction,
)
    requires
        runtime_step_ok(t0, t1, ready, should_mock, message, a1),
        reply_step_ok(t1, t2, reply, should_mock, message, a2),
    ensures
        ready is Ok ==> events_view(t1.events@) == events_view(t0.events@).push("model_ready"@),
        ready is Err && should_mock ==> events_view(t1.events@) == events_view(t0.events@).push(
            "model_unavailable_mock_fallback"@,
        ),
        ready is Err && !should_mock ==> t1 == t0,
        reply is Err && should_mock ==> events_view(t2.events@) == events_view(t1.events@).push(
            "model_error_mock_fallback"@,
        ),
        reply is Ok || !should_mock ==> t2 == t1,
{
}

} // verus!
