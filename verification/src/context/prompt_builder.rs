//! Building the message list sent to the model.
use crate::context::assembler::AssembledContext;
use crate::memory::db::{MemoryRecord, MessageRecord};
use crate::text::{chars_eq, chars_of, has_sub, occurs_at, owned, str_eq};
use vstd::prelude::*;

verus! {

/// One message of the model's input.
#[derive(Debug, Clone, PartialEq, Eq)]
pub struct ChatMessage {
    pub role: String,
    pub content: String,
}

/// A message seen as (role, content).
pub open spec fn message_view(m: ChatMessage) -> (Seq<char>, Seq<char>) {
    (m.role@, m.content@)
}

/// A list of messages seen as (role, content) pairs.
pub open spec fn messages_view(ms: Seq<ChatMessage>) -> Seq<(Seq<char>, Seq<char>)> {
    ms.map_values(|m: ChatMessage| message_view(m))
}

/// The line a memory contributes to the system prompt: `- [scope:kind] content`.
pub open spec fn memory_line(m: MemoryRecord) -> Seq<char> {
    "- ["@ + m.scope@ + ":"@ + m.kind@ + "] "@ + m.content@ + "\n"@
}

/// The lines of the memories, in order.
pub open spec fn memory_lines(ms: Seq<MemoryRecord>) -> Seq<char>
    decreases ms.len(),
{
    if ms.len() == 0 {
        seq![]
    } else {
        memory_lines(ms.drop_last()) + memory_line(ms.last())
    }
}

/// The heading above the memories.
pub open spec fn memory_heading() -> Seq<char> {
    "\n# Relevant Long-Term Memory\n\n"@
}

/// The system message: the system prompt, followed by the memories under
/// their heading when there are any.
pub open spec fn spec_system_content(system: Seq<char>, ms: Seq<MemoryRecord>) -> Seq<char> {
    if ms.len() == 0 {
        system
    } else {
        system + memory_heading() + memory_lines(ms)
    }
}

/// Roles passed on from the history.
pub open spec fn kept_role(r: Seq<char>) -> bool {
    r == "user"@ || r == "assistant"@ || r == "system"@
}

/// The history messages passed on: those with a user, assistant or system
/// role, in order.
pub open spec fn history_view(recent: Seq<MessageRecord>) -> Seq<(Seq<char>, Seq<char>)>
    decreases recent.len(),
{
    if recent.len() == 0 {
        seq![]
    } else {
        let rest = history_view(recent.drop_last());
        let m = recent.last();
        if kept_role(m.role@) {
            rest.push((m.role@, m.content@))
        } else {
            rest
        }
    }
}

/// The model input: the system message, the kept history, and the user's
/// message unless the last of these already has that content.
pub open spec fn spec_build(
    system: Seq<char>,
    recent: Seq<MessageRecord>,
    user: Seq<char>,
) -> Seq<(Seq<char>, Seq<char>)> {
    let base = seq![("system"@, system)] + history_view(recent);
    if base.last().1 == user {
        base
    } else {
        base.push(("user"@, user))
    }
}

/// Builds the model input from the gathered context.
pub struct PromptBuilder;

impl PromptBuilder {
    /// The messages sent to the model for `user_message`.
    pub fn build(context: &AssembledContext, user_message: &str) -> (r: Vec<ChatMessage>)
        ensures
            messages_view(r@) == spec_build(
                spec_system_content(context.system_prompt@, context.memories@),
                context.recent_messages@,
                user_message@,
            ),
    {
        let system = PromptBuilder::build_system_content(context);
        let ghost sys = system@;
        let mut messages: Vec<ChatMessage> = Vec::new();
        messages.push(ChatMessage { role: owned("system"), content: system });
        let recent = &context.recent_messages;
        let mut i: usize = 0;
        while i < recent.len()
            invariant
                i <= recent@.len(),
                messages@.len() >= 1,
                messages_view(messages@) == seq![("system"@, sys)] + history_view(
                    recent@.take(i as int),
                ),
            decreases recent.len() - i,
        {
            assert(recent@.take(i + 1).drop_last() =~= recent@.take(i as int));
            assert(recent@.take(i + 1).last() == recent@[i as int]);
            let m = &recent[i];
            let role = m.role.as_str();
            let ghost before = messages@;
            if str_eq(role, "user") || str_eq(role, "assistant") || str_eq(role, "system") {
                messages.push(ChatMessage { role: m.role.clone(), content: m.content.clone() });
                assert(messages_view(messages@) =~= messages_view(before).push(
                    (m.role@, m.content@),
                ));
            }
            i += 1;
        }
        assert(recent@.take(recent@.len() as int) =~= recent@);
        let ghost base = messages_view(messages@);
        let last_content = chars_of(messages[messages.len() - 1].content.as_str());
        let user = chars_of(user_message);
        assert(base.last() == message_view(messages@.last()));
        if !chars_eq(&last_content, &user) {
            messages.push(ChatMessage { role: owned("user"), content: owned(user_message) });
            assert(messages_view(messages@) =~= base.push(("user"@, user_message@)));
        }
        messages
    }

    /// The system message: the system prompt and the relevant memories.
    pub fn build_system_content(context: &AssembledContext) -> (r: String)
        ensures
            r@ == spec_system_content(context.system_prompt@, context.memories@),
    {
        let mut out = context.system_prompt.clone();
        let ms = &context.memories;
        if ms.len() > 0 {
            out.append("\n# Relevant Long-Term Memory\n\n");
            let ghost head = out@;
            let mut i: usize = 0;
            assert(memory_lines(ms@.take(0)) =~= Seq::<char>::empty());
            assert(head + memory_lines(ms@.take(0)) =~= head);
            while i < ms.len()
                invariant
                    i <= ms@.len(),
                    out@ == head + memory_lines(ms@.take(i as int)),
                decreases ms.len() - i,
            {
                assert(ms@.take(i + 1).drop_last() =~= ms@.take(i as int));
                assert(ms@.take(i + 1).last() == ms@[i as int]);
                let m = &ms[i];
                out.append("- [");
                out.append(m.scope.as_str());
                out.append(":");
                out.append(m.kind.as_str());
                out.append("] ");
                out.append(m.content.as_str());
                out.append("\n");
                assert(out@ =~= head + memory_lines(ms@.take(i + 1)));
                i += 1;
            }
            assert(ms@.take(ms@.len() as int) =~= ms@);
        }
        out
    }
}

/// The model input starts with the system message, ends with the user's
/// message, passes on only user, assistant and system roles, and holds at
/// most two messages more than the history.
pub proof fn lemma_build_shape(system: Seq<char>, recent: Seq<MessageRecord>, user: Seq<char>)
    ensures
        spec_build(system, recent, user).len() >= 1,
        spec_build(system, recent, user)[0] == ("system"@, system),
        spec_build(system, recent, user).last().1 == user,
        spec_build(system, recent, user).len() <= recent.len() + 2,
        forall|i: int|
            0 <= i < spec_build(system, recent, user).len() ==> kept_role(
                #[trigger] spec_build(system, recent, user)[i].0,
            ),
{
    lemma_history_roles(recent);
    let base = seq![("system"@, system)] + history_view(recent);
    assert(base[0] == ("system"@, system));
    assert forall|i: int| 0 <= i < base.len() implies kept_role(#[trigger] base[i].0) by {
        if i > 0 {
            assert(base[i] == history_view(recent)[i - 1]);
        }
    }
}

proof fn lemma_history_roles(recent: Seq<MessageRecord>)
    ensures
        history_view(recent).len() <= recent.len(),
        forall|i: int|
            0 <= i < history_view(recent).len() ==> kept_role(#[trigger] history_view(recent)[i].0),
    decreases recent.len(),
{
    if recent.len() > 0 {
        lemma_history_roles(recent.drop_last());
    }
}

proof fn lemma_line_in_lines(ms: Seq<MemoryRecord>, k: int) -> (i: int)
    requires
        0 <= k < ms.len(),
    ensures
        occurs_at(memory_lines(ms), memory_line(ms[k]), i),
    decreases ms.len(),
{
    let init = ms.drop_last();
    let line = memory_line(ms[k]);
    if k == ms.len() - 1 {
        let i = memory_lines(init).len() as int;
        assert(memory_lines(ms).subrange(i, i + line.len()) =~= line);
        i
    } else {
        let j = lemma_line_in_lines(init, k);
        assert(init[k] == ms[k]);
        assert(memory_lines(ms).subrange(j, j + line.len()) =~= memory_lines(init).subrange(
            j,
            j + line.len(),
        ));
        j
    }
}

/// Every memory of the context shows in the system message, as the line
/// `- [scope:kind] content`: the message is the system prompt followed by
/// the heading "# Relevant Long-Term Memory" and the memory lines whenever
/// there is a memory, and the system prompt alone when there is none.
pub proof fn lemma_every_memory_shown(system: Seq<char>, ms: Seq<MemoryRecord>)
    ensures
        ms.len() == 0 ==> spec_system_content(system, ms) == system,
        ms.len() > 0 ==> (system + "\n# Relevant Long-Term Memory\n\n"@).is_prefix_of(
            spec_system_content(system, ms),
        ),
        forall|k: int|
            0 <= k < ms.len() ==> has_sub(
                spec_system_content(system, ms),
                "- ["@ + (#[trigger] ms[k]).scope@ + ":"@ + ms[k].kind@ + "] "@ + ms[k].content@
                    + "\n"@,
            ),
{
    let content = spec_system_content(system, ms);
    if ms.len() > 0 {
        let head = system + "\n# Relevant Long-Term Memory\n\n"@;
        assert(content == head + memory_lines(ms));
        assert(head =~= content.subrange(0, head.len() as int));
        assert forall|k: int| 0 <= k < ms.len() implies has_sub(
            content,
            "- ["@ + (#[trigger] ms[k]).scope@ + ":"@ + ms[k].kind@ + "] "@ + ms[k].content@
                + "\n"@,
        ) by {
            let line = memory_line(ms[k]);
            let j = lemma_line_in_lines(ms, k);
            let off = head.len() + j;
            assert(content.subrange(off, off + line.len()) =~= memory_lines(ms).subrange(
                j,
                j + line.len(),
            ));
            assert(occurs_at(content, line, off));
        }
    }
}

/// The role of a history message is one the model input passes on.
pub open spec fn passed_role(r: Seq<char>) -> bool {
    r == "user"@ || r == "assistant"@ || r == "system"@
}

/// The history passed to the model: a history whose roles are all user,
/// assistant or system is passed on whole and in order; one with none of
/// these roles is dropped whole; appending a message passes it on exactly
/// when its role is one of them.
pub proof fn lemma_history_passed_on(recent: Seq<MessageRecord>, m: MessageRecord)
    ensures
        (forall|i: int| 0 <= i < recent.len() ==> passed_role(#[trigger] recent[i].role@))
            ==> history_view(recent) == recent.map_values(|x: MessageRecord| (x.role@, x.content@)),
        (forall|i: int| 0 <= i < recent.len() ==> !passed_role(#[trigger] recent[i].role@))
            ==> history_view(recent).len() == 0,
        history_view(recent.push(m)) == if passed_role(m.role@) {
            history_view(recent).push((m.role@, m.content@))
        } else {
            history_view(recent)
        },
    decreases recent.len(),
{
    assert(recent.push(m).drop_last() =~= recent);
    if recent.len() > 0 {
        let init = recent.drop_last();
        lemma_history_passed_on(init, recent.last());
        assert(init.push(recent.last()) =~= recent);
        if forall|i: int| 0 <= i < recent.len() ==> passed_role(#[trigger] recent[i].role@) {
            assert forall|i: int| 0 <= i < init.len() implies passed_role(#[trigger] init[i].role@) by {
                assert(init[i] == recent[i]);
            }
            assert(passed_role(recent[recent.len() - 1].role@));
            assert(history_view(recent) =~= recent.map_values(
                |x: MessageRecord| (x.role@, x.content@),
            ));
        }
        if forall|i: int| 0 <= i < recent.len() ==> !passed_role(#[trigger] recent[i].role@) {
            assert forall|i: int| 0 <= i < init.len() implies !passed_role(#[trigger] init[i].role@) by {
                assert(init[i] == recent[i]);
            }
            assert(!passed_role(recent[recent.len() - 1].role@));
        }
    } else {
        assert(history_view(recent) =~= recent.map_values(|x: MessageRecord| (x.role@, x.content@)));
    }
}

/// The model input is the system message, then the passed history, then the
/// user's message, which is left out only when the last message so far
/// already has exactly its content.
pub proof fn lemma_input_order(system: Seq<char>, recent: Seq<MessageRecord>, user: Seq<char>)
    ensures
        ({
            let h = history_view(recent);
            let r = spec_build(system, recent, user);
            let last_so_far = if h.len() > 0 {
                h.last().1
            } else {
                system
            };
            &&& r.subrange(0, 1 + h.len() as int) == seq![("system"@, system)] + h
            &&& last_so_far == user ==> r.len() == 1 + h.len()
            &&& last_so_far != user ==> r.len() == 2 + h.len() && r.last() == ("user"@, user)
        }),
{
    let h = history_view(recent);
    let base = seq![("system"@, system)] + h;
    let r = spec_build(system, recent, user);
    assert(base.last() == if h.len() > 0 {
        h.last()
    } else {
        ("system"@, system)
    });
    assert(r.subrange(0, 1 + h.len() as int) =~= base);
}

} // verus!
