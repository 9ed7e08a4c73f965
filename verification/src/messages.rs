//! Encoding of the conversation for the chat API: events become API messages,
//! consecutive tool calls are grouped into one assistant message, and both
//! events and messages are written as JSON text (object members in sorted
//! order, as `serde_json` writes them).

use vstd::prelude::*;
use vstd::string::*;

use crate::json::{json_quoted, quote};
use crate::state::{AppState, ConversationEvent, EventModel, events_model};

verus! {

/// One tool invocation inside an assistant message.
#[derive(Debug, Clone)]
pub struct ToolUse {
    pub id: String,
    pub name: String,
    /// JSON text of the tool input
    pub input: String,
}

/// Mathematical view of a [`ToolUse`].
pub struct ToolUseModel {
    pub id: Seq<char>,
    pub name: Seq<char>,
    pub input: Seq<char>,
}

impl View for ToolUse {
    type V = ToolUseModel;

    open spec fn view(&self) -> ToolUseModel {
        ToolUseModel { id: self.id@, name: self.name@, input: self.input@ }
    }
}

/// A message of the chat API.
#[derive(Debug, Clone)]
pub enum ApiMessage {
    /// `role: user` with text content
    UserText { content: String },
    /// `role: assistant` with text content
    AssistantText { content: String },
    /// `role: assistant` with a list of tool uses
    ToolUses { uses: Vec<ToolUse> },
    /// `role: user` carrying one tool result
    ToolResult { tool_use_id: String, content: String, is_error: bool },
}

/// Mathematical view of an [`ApiMessage`].
pub enum MessageModel {
    UserText { content: Seq<char> },
    AssistantText { content: Seq<char> },
    ToolUses { uses: Seq<ToolUseModel> },
    ToolResult { tool_use_id: Seq<char>, content: Seq<char>, is_error: bool },
}

/// Views a sequence of tool uses.
pub open spec fn uses_model(uses: Seq<ToolUse>) -> Seq<ToolUseModel> {
    uses.map_values(|u: ToolUse| u@)
}

impl View for ApiMessage {
    type V = MessageModel;

    open spec fn view(&self) -> MessageModel {
        match self {
            ApiMessage::UserText { content } => MessageModel::UserText { content: content@ },
            ApiMessage::AssistantText { content } => MessageModel::AssistantText {
                content: content@,
            },
            ApiMessage::ToolUses { uses } => MessageModel::ToolUses { uses: uses_model(uses@) },
            ApiMessage::ToolResult { tool_use_id, content, is_error } =>
                MessageModel::ToolResult {
                tool_use_id: tool_use_id@,
                content: content@,
                is_error: *is_error,
            },
        }
    }
}

/// Views a sequence of messages.
pub open spec fn messages_model(ms: Seq<ApiMessage>) -> Seq<MessageModel> {
    ms.map_values(|m: ApiMessage| m@)
}

/// Length of the run of tool calls at the front of `es`.
pub open spec fn tool_run(es: Seq<EventModel>) -> nat
    decreases es.len(),
{
    if es.len() > 0 && es[0] is ToolCall {
        1 + tool_run(es.drop_first())
    } else {
        0
    }
}

/// The tool use that a tool call event stands for.
pub open spec fn tool_use_of(e: EventModel) -> ToolUseModel {
    match e {
        EventModel::ToolCall { id, name, input } => ToolUseModel { id, name, input },
        _ => ToolUseModel { id: Seq::empty(), name: Seq::empty(), input: Seq::empty() },
    }
}

/// The tool uses that a sequence of tool call events stands for.
pub open spec fn tool_uses_of(es: Seq<EventModel>) -> Seq<ToolUseModel> {
    es.map_values(|e: EventModel| tool_use_of(e))
}

/// The run of tool calls never exceeds the events.
pub proof fn lemma_tool_run_bound(es: Seq<EventModel>)
    ensures
        tool_run(es) <= es.len(),
        forall|i: int| 0 <= i < tool_run(es) ==> (#[trigger] es[i]) is ToolCall,
    decreases es.len(),
{
    if es.len() > 0 && es[0] is ToolCall {
        lemma_tool_run_bound(es.drop_first());
        assert forall|i: int| 0 <= i < tool_run(es) implies (#[trigger] es[i]) is ToolCall by {
            if i > 0 {
                assert(es[i] == es.drop_first()[i - 1]);
            }
        }
    }
}

/// The event right after the run of tool calls is not a tool call.
pub proof fn lemma_tool_run_maximal(es: Seq<EventModel>)
    ensures
        tool_run(es) < es.len() ==> !(es[tool_run(es) as int] is ToolCall),
    decreases es.len(),
{
    if es.len() > 0 && es[0] is ToolCall {
        lemma_tool_run_maximal(es.drop_first());
        lemma_tool_run_bound(es.drop_first());
        if tool_run(es) < es.len() {
            assert(es[tool_run(es) as int] == es.drop_first()[tool_run(es.drop_first()) as int]);
        }
    }
}

/// The run of tool calls ends at the first event that is not a tool call.
pub proof fn lemma_tool_run_exact(es: Seq<EventModel>, n: int)
    requires
        0 <= n <= es.len(),
        forall|i: int| 0 <= i < n ==> (#[trigger] es[i]) is ToolCall,
        n == es.len() || !(es[n] is ToolCall),
    ensures
        tool_run(es) == n,
    decreases n,
{
    if n > 0 {
        assert(es[0] is ToolCall);
        lemma_tool_run_exact(es.drop_first(), n - 1);
    }
}

/// The API messages for a conversation: user and assistant texts map one to
/// one, every maximal run of tool calls becomes one assistant message with
/// their tool uses, and every tool result becomes a user message.
pub open spec fn messages_of(es: Seq<EventModel>) -> Seq<MessageModel>
    decreases es.len(),
{
    if es.len() == 0 {
        Seq::empty()
    } else {
        match es[0] {
            EventModel::UserMessage { content } => seq![MessageModel::UserText { content }]
                + messages_of(es.drop_first()),
            EventModel::Text { content } => seq![MessageModel::AssistantText { content }]
                + messages_of(es.drop_first()),
            EventModel::ToolResult { tool_use_id, content, is_error } => seq![
                MessageModel::ToolResult { tool_use_id, content, is_error },
            ] + messages_of(es.drop_first()),
            EventModel::ToolCall { .. } => {
                proof {
                    lemma_tool_run_bound(es);
                }
                let k = tool_run(es);
                seq![
                    MessageModel::ToolUses {
                        uses: tool_uses_of(es.take(k as int)),
                    },
                ] + messages_of(es.skip(k as int))
            },
        }
    }
}

/// The events that a message was made from.
pub open spec fn events_of_message(m: MessageModel) -> Seq<EventModel> {
    match m {
        MessageModel::UserText { content } => seq![EventModel::UserMessage { content }],
        MessageModel::AssistantText { content } => seq![EventModel::Text { content }],
        MessageModel::ToolUses { uses } => uses.map_values(
            |u: ToolUseModel| EventModel::ToolCall { id: u.id, name: u.name, input: u.input },
        ),
        MessageModel::ToolResult { tool_use_id, content, is_error } => seq![
            EventModel::ToolResult { tool_use_id, content, is_error },
        ],
    }
}

/// The events of a sequence of messages, in order.
pub open spec fn events_of_messages(ms: Seq<MessageModel>) -> Seq<EventModel>
    decreases ms.len(),
{
    if ms.len() == 0 {
        Seq::empty()
    } else {
        events_of_message(ms[0]) + events_of_messages(ms.drop_first())
    }
}

/// Unfolding the events of a message list at its first message.
proof fn lemma_events_of_messages_cons(m: MessageModel, rest: Seq<MessageModel>)
    ensures
        events_of_messages(seq![m] + rest) == events_of_message(m) + events_of_messages(rest),
{
    let ms = seq![m] + rest;
    assert(ms[0] == m);
    assert(ms.drop_first() =~= rest);
}

/// The first message of a conversation is a tool-use message exactly when the
/// conversation starts with a tool call.
proof fn lemma_first_message(es: Seq<EventModel>)
    ensures
        messages_of(es).len() == 0 <==> es.len() == 0,
        es.len() > 0 ==> (messages_of(es)[0] is ToolUses <==> es[0] is ToolCall),
{
}

/// Lossless grouping: the events that the API messages were made from are the
/// conversation's events, in order. Nothing is dropped, duplicated or
/// reordered when the conversation is sent.
pub proof fn law_messages_keep_events(es: Seq<EventModel>)
    ensures
        events_of_messages(messages_of(es)) == es,
    decreases es.len(),
{
    if es.len() > 0 {
        if es[0] is ToolCall {
            lemma_tool_run_bound(es);
            let k = tool_run(es);
            let uses = tool_uses_of(es.take(k as int));
            let m = MessageModel::ToolUses { uses };
            law_messages_keep_events(es.skip(k as int));
            lemma_events_of_messages_cons(m, messages_of(es.skip(k as int)));
            assert(events_of_message(m) =~= es.take(k as int)) by {
                assert forall|i: int| 0 <= i < k implies #[trigger] events_of_message(m)[i]
                    == es.take(k as int)[i] by {
                    assert(es[i] is ToolCall);
                }
            }
            assert(es.take(k as int) + es.skip(k as int) =~= es);
        } else {
            law_messages_keep_events(es.drop_first());
            let m = messages_of(es)[0];
            assert(messages_of(es) =~= seq![m] + messages_of(es.drop_first()));
            lemma_events_of_messages_cons(m, messages_of(es.drop_first()));
            assert(events_of_message(m) =~= seq![es[0]]);
            assert(seq![es[0]] + es.drop_first() =~= es);
        }
    }
}

/// The events of two message lists in a row are the events of the first
/// followed by the events of the second.
pub proof fn law_events_of_messages_concat(ms1: Seq<MessageModel>, ms2: Seq<MessageModel>)
    ensures
        events_of_messages(ms1 + ms2) == events_of_messages(ms1) + events_of_messages(ms2),
    decreases ms1.len(),
{
    if ms1.len() == 0 {
        assert(ms1 + ms2 =~= ms2);
        assert(events_of_messages(ms1) + events_of_messages(ms2) =~= events_of_messages(ms2));
    } else {
        law_events_of_messages_concat(ms1.drop_first(), ms2);
        assert((ms1 + ms2)[0] == ms1[0]);
        assert((ms1 + ms2).drop_first() =~= ms1.drop_first() + ms2);
        assert(events_of_message(ms1[0]) + (events_of_messages(ms1.drop_first())
            + events_of_messages(ms2)) =~= events_of_message(ms1[0]) + events_of_messages(
            ms1.drop_first(),
        ) + events_of_messages(ms2));
    }
}

/// The messages of two conversations in a row are the messages of the first
/// followed by those of the second, unless a run of tool calls continues
/// across the seam (then the two runs travel as one message).
pub proof fn law_messages_concat(a: Seq<EventModel>, b: Seq<EventModel>)
    requires
        !(a.len() > 0 && b.len() > 0 && a.last() is ToolCall && b[0] is ToolCall),
    ensures
        messages_of(a + b) == messages_of(a) + messages_of(b),
    decreases a.len(),
{
    let ab = a + b;
    if a.len() == 0 {
        assert(ab =~= b);
        assert(messages_of(a) =~= Seq::<MessageModel>::empty());
        assert(messages_of(a) + messages_of(b) =~= messages_of(b));
    } else {
        assert(ab[0] == a[0]);
        if a[0] is ToolCall {
            lemma_tool_run_bound(a);
            lemma_tool_run_maximal(a);
            let k = tool_run(a) as int;
            if k < a.len() {
                assert forall|t: int| 0 <= t < k implies (#[trigger] ab[t]) is ToolCall by {
                    assert(ab[t] == a[t]);
                }
                assert(ab[k] == a[k]);
                lemma_tool_run_exact(ab, k);
                assert(ab.take(k) =~= a.take(k));
                assert(ab.skip(k) =~= a.skip(k) + b);
                if a.skip(k).len() > 0 && b.len() > 0 {
                    assert(a.skip(k).last() == a.last());
                }
                law_messages_concat(a.skip(k), b);
                assert(messages_of(ab) =~= messages_of(a) + messages_of(b));
            } else {
                assert forall|t: int| 0 <= t < k implies (#[trigger] ab[t]) is ToolCall by {
                    assert(ab[t] == a[t]);
                }
                if b.len() > 0 {
                    assert(a.last() == a[a.len() - 1]);
                    assert(ab[k] == b[0]);
                }
                lemma_tool_run_exact(ab, k);
                assert(ab.take(k) =~= a.take(k));
                assert(ab.skip(k) =~= b);
                assert(a.skip(k) =~= Seq::<EventModel>::empty());
                assert(messages_of(a.skip(k)) =~= Seq::<MessageModel>::empty());
                assert(messages_of(ab) =~= messages_of(a) + messages_of(b));
            }
        } else {
            assert(ab.drop_first() =~= a.drop_first() + b);
            if a.drop_first().len() > 0 && b.len() > 0 {
                assert(a.drop_first().last() == a.last());
            }
            law_messages_concat(a.drop_first(), b);
            assert(messages_of(ab) =~= messages_of(a) + messages_of(b));
        }
    }
}

/// Maximal grouping: every tool-use message holds at least one tool use, and
/// no two tool-use messages are adjacent (consecutive tool calls always travel
/// in one assistant message).
pub proof fn law_tool_calls_grouped(es: Seq<EventModel>)
    ensures
        forall|i: int|
            0 <= i < messages_of(es).len() && (#[trigger] messages_of(es)[i]) is ToolUses
                ==> messages_of(es)[i]->uses.len() > 0,
        forall|i: int|
            0 <= i < messages_of(es).len() - 1 && (#[trigger] messages_of(es)[i]) is ToolUses
                ==> !(messages_of(es)[i + 1] is ToolUses),
    decreases es.len(),
{
    if es.len() > 0 {
        let ms = messages_of(es);
        if es[0] is ToolCall {
            lemma_tool_run_bound(es);
            lemma_tool_run_maximal(es);
            let k = tool_run(es);
            let rest = es.skip(k as int);
            law_tool_calls_grouped(rest);
            lemma_first_message(rest);
            let m = ms[0];
            assert(ms =~= seq![m] + messages_of(rest));
            assert(k >= 1);
            if rest.len() > 0 {
                assert(rest[0] == es[k as int]);
            }
            assert forall|i: int|
                0 <= i < ms.len() && (#[trigger] ms[i]) is ToolUses implies ms[i]->uses.len()
                > 0 by {
                if i > 0 {
                    assert(ms[i] == messages_of(rest)[i - 1]);
                }
            }
            assert forall|i: int| 0 <= i < ms.len() - 1 && (#[trigger] ms[i]) is ToolUses implies !(
            ms[i + 1] is ToolUses) by {
                assert(ms[i + 1] == messages_of(rest)[i]);
                if i > 0 {
                    assert(ms[i] == messages_of(rest)[i - 1]);
                }
            }
        } else {
            let rest = es.drop_first();
            law_tool_calls_grouped(rest);
            let m = ms[0];
            assert(ms =~= seq![m] + messages_of(rest));
            assert forall|i: int|
                0 <= i < ms.len() && (#[trigger] ms[i]) is ToolUses implies ms[i]->uses.len()
                > 0 by {
                if i > 0 {
                    assert(ms[i] == messages_of(rest)[i - 1]);
                }
            }
            assert forall|i: int| 0 <= i < ms.len() - 1 && (#[trigger] ms[i]) is ToolUses implies !(
            ms[i + 1] is ToolUses) by {
                assert(ms[i + 1] == messages_of(rest)[i]);
                if i > 0 {
                    assert(ms[i] == messages_of(rest)[i - 1]);
                }
            }
        }
    }
}

// ----- JSON text -------------------------------------------------------------

/// JSON literal of a boolean.
pub open spec fn json_bool(b: bool) -> Seq<char> {
    if b {
        "true"@
    } else {
        "false"@
    }
}

/// JSON text of an event, as `ConversationEvent::to_json` writes it.
pub open spec fn event_json(e: EventModel) -> Seq<char> {
    match e {
        EventModel::UserMessage { content } => "{\"content\":"@ + json_quoted(content)
            + ",\"type\":\"user_message\"}"@,
        EventModel::Text { content } => "{\"content\":"@ + json_quoted(content)
            + ",\"type\":\"text\"}"@,
        EventModel::ToolCall { id, name, input } => "{\"id\":"@ + json_quoted(id)
            + ",\"input\":"@ + input + ",\"name\":"@ + json_quoted(name)
            + ",\"type\":\"tool_call\"}"@,
        EventModel::ToolResult { tool_use_id, content, is_error } => "{\"content\":"@
            + json_quoted(content) + ",\"is_error\":"@ + json_bool(is_error)
            + ",\"tool_use_id\":"@ + json_quoted(tool_use_id) + ",\"type\":\"tool_result\"}"@,
    }
}

/// JSON text of a tool use.
pub open spec fn tool_use_json(u: ToolUseModel) -> Seq<char> {
    "{\"id\":"@ + json_quoted(u.id) + ",\"input\":"@ + u.input + ",\"name\":"@ + json_quoted(
        u.name,
    ) + ",\"type\":\"tool_use\"}"@
}

/// Tool uses written as JSON, separated by commas.
pub open spec fn tool_uses_json(uses: Seq<ToolUseModel>) -> Seq<char>
    decreases uses.len(),
{
    if uses.len() == 0 {
        Seq::empty()
    } else if uses.len() == 1 {
        tool_use_json(uses[0])
    } else {
        tool_uses_json(uses.drop_last()) + ","@ + tool_use_json(uses.last())
    }
}

/// JSON text of a message, as `ApiMessage::to_json` writes it.
pub open spec fn message_json(m: MessageModel) -> Seq<char> {
    match m {
        MessageModel::UserText { content } => "{\"content\":"@ + json_quoted(content)
            + ",\"role\":\"user\"}"@,
        MessageModel::AssistantText { content } => "{\"content\":"@ + json_quoted(content)
            + ",\"role\":\"assistant\"}"@,
        MessageModel::ToolUses { uses } => "{\"content\":["@ + tool_uses_json(uses)
            + "],\"role\":\"assistant\"}"@,
        MessageModel::ToolResult { tool_use_id, content, is_error } =>
            "{\"content\":[{\"content\":"@ + json_quoted(content) + ",\"is_error\":"@
                + json_bool(is_error) + ",\"tool_use_id\":"@ + json_quoted(tool_use_id)
                + ",\"type\":\"tool_result\"}],\"role\":\"user\"}"@,
    }
}

/// Appends the JSON literal of a boolean.
fn push_json_bool(out: &mut String, b: bool)
    ensures
        final(out)@ == old(out)@ + json_bool(b),
{
    if b {
        out.append("true");
    } else {
        out.append("false");
    }
}

/// Appends the JSON string literal of `s`.
fn push_quoted(out: &mut String, s: &str)
    ensures
        final(out)@ == old(out)@ + json_quoted(s@),
{
    let q = quote(s);
    out.append(q.as_str());
}

impl ConversationEvent {
    /// Convert to JSON (text) for API calls
    pub fn to_json(&self) -> (r: String)
        ensures
            r@ == event_json(self@),
    {
        let mut out = String::new();
        match self {
            ConversationEvent::UserMessage { content } => {
                out.append("{\"content\":");
                push_quoted(&mut out, content.as_str());
                out.append(",\"type\":\"user_message\"}");
            },
            ConversationEvent::Text { content } => {
                out.append("{\"content\":");
                push_quoted(&mut out, content.as_str());
                out.append(",\"type\":\"text\"}");
            },
            ConversationEvent::ToolCall { id, name, input } => {
                out.append("{\"id\":");
                push_quoted(&mut out, id.as_str());
                out.append(",\"input\":");
                out.append(input.as_str());
                out.append(",\"name\":");
                push_quoted(&mut out, name.as_str());
                out.append(",\"type\":\"tool_call\"}");
            },
            ConversationEvent::ToolResult { tool_use_id, content, is_error } => {
                out.append("{\"content\":");
                push_quoted(&mut out, content.as_str());
                out.append(",\"is_error\":");
                push_json_bool(&mut out, *is_error);
                out.append(",\"tool_use_id\":");
                push_quoted(&mut out, tool_use_id.as_str());
                out.append(",\"type\":\"tool_result\"}");
            },
        }
        proof {
            reveal_strlit("");
        }
        out
    }
}

impl ToolUse {
    /// JSON text of this tool use.
    pub fn to_json(&self) -> (r: String)
        ensures
            r@ == tool_use_json(self@),
    {
        let mut out = String::new();
        out.append("{\"id\":");
        push_quoted(&mut out, self.id.as_str());
        out.append(",\"input\":");
        out.append(self.input.as_str());
        out.append(",\"name\":");
        push_quoted(&mut out, self.name.as_str());
        out.append(",\"type\":\"tool_use\"}");
        out
    }
}

impl ApiMessage {
    /// JSON text of this message.
    pub fn to_json(&self) -> (r: String)
        ensures
            r@ == message_json(self@),
    {
        let mut out = String::new();
        match self {
            ApiMessage::UserText { content } => {
                out.append("{\"content\":");
                push_quoted(&mut out, content.as_str());
                out.append(",\"role\":\"user\"}");
            },
            ApiMessage::AssistantText { content } => {
                out.append("{\"content\":");
                push_quoted(&mut out, content.as_str());
                out.append(",\"role\":\"assistant\"}");
            },
            ApiMessage::ToolUses { uses } => {
                out.append("{\"content\":[");
                let ghost head = out@;
                let n = uses.len();
                let mut i: usize = 0;
                proof {
                    reveal_strlit("");
                    assert(uses_model(uses@).take(0) =~= Seq::<ToolUseModel>::empty());
                }
                while i < n
                    invariant
                        i <= n,
                        n == uses@.len(),
                        out@ == head + tool_uses_json(uses_model(uses@).take(i as int)),
                    decreases n - i,
                {
                    let ghost um = uses_model(uses@);
                    assert(um.take(i + 1).drop_last() =~= um.take(i as int));
                    assert(um.take(i + 1).last() == uses@[i as int]@);
                    if i > 0 {
                        out.append(",");
                    } else {
                        assert(um.take(0) =~= Seq::<ToolUseModel>::empty());
                    }
                    let u = uses[i].to_json();
                    out.append(u.as_str());
                    i = i + 1;
                }
                assert(uses_model(uses@).take(n as int) =~= uses_model(uses@));
                out.append("],\"role\":\"assistant\"}");
            },
            ApiMessage::ToolResult { tool_use_id, content, is_error } => {
                out.append("{\"content\":[{\"content\":");
                push_quoted(&mut out, content.as_str());
                out.append(",\"is_error\":");
                push_json_bool(&mut out, *is_error);
                out.append(",\"tool_use_id\":");
                push_quoted(&mut out, tool_use_id.as_str());
                out.append(",\"type\":\"tool_result\"}],\"role\":\"user\"}");
            },
        }
        proof {
            reveal_strlit("");
        }
        out
    }
}

/// The API message for a single event that is not a tool call.
fn single_message(e: &ConversationEvent) -> (r: ApiMessage)
    requires
        !(e@ is ToolCall),
    ensures
        seq![r@] == messages_of(seq![e@]),
{
    let r = match e {
        ConversationEvent::UserMessage { content } => ApiMessage::UserText {
            content: content.clone(),
        },
        ConversationEvent::Text { content } => ApiMessage::AssistantText {
            content: content.clone(),
        },
        ConversationEvent::ToolResult { tool_use_id, content, is_error } =>
            ApiMessage::ToolResult {
            tool_use_id: tool_use_id.clone(),
            content: content.clone(),
            is_error: *is_error,
        },
        ConversationEvent::ToolCall { .. } => {
            proof {
                assert(false);
            }
            ApiMessage::ToolUses { uses: Vec::new() }
        },
    };
    proof {
        assert(seq![e@].drop_first() =~= Seq::<EventModel>::empty());
        assert(messages_of(seq![e@].drop_first()) =~= Seq::<MessageModel>::empty());
        assert(seq![r@] =~= messages_of(seq![e@]));
    }
    r
}

/// Splitting off the first message of a non-empty conversation.
proof fn lemma_messages_unfold(es: Seq<EventModel>)
    requires
        es.len() > 0,
        !(es[0] is ToolCall),
    ensures
        messages_of(es) == messages_of(seq![es[0]]) + messages_of(es.drop_first()),
{
    let s1 = seq![es[0]];
    assert(s1.drop_first() =~= Seq::<EventModel>::empty());
    assert(messages_of(s1.drop_first()) =~= Seq::<MessageModel>::empty());
    assert(messages_of(s1) =~= messages_of(s1) + messages_of(s1.drop_first()));
}

/// Convert conversation events to the chat API message list
pub fn messages_for(events: &Vec<ConversationEvent>) -> (r: Vec<ApiMessage>)
    ensures
        messages_model(r@) == messages_of(events_model(events@)),
{
    let ghost es = events_model(events@);
    let n = events.len();
    let mut messages: Vec<ApiMessage> = Vec::new();
    let mut i: usize = 0;
    assert(es.skip(0) =~= es);
    while i < n
        invariant
            i <= n,
            n == es.len(),
            es == events_model(events@),
            messages_model(messages@) + messages_of(es.skip(i as int)) == messages_of(es),
        decreases n - i,
    {
        let ghost before = messages_model(messages@);
        let ghost rest = es.skip(i as int);
        assert(rest[0] == events@[i as int]@);
        if !is_tool_call(&events[i]) {
            let m = single_message(&events[i]);
            proof {
                lemma_messages_unfold(rest);
                assert(rest.drop_first() =~= es.skip(i + 1));
                assert(seq![rest[0]] =~= seq![events@[i as int]@]);
            }
            messages.push(m);
            assert(messages_model(messages@) =~= before.push(m@));
            assert(messages_model(messages@) + messages_of(es.skip(i + 1)) =~= before + (
            messages_of(seq![rest[0]]) + messages_of(rest.drop_first())));
            i = i + 1;
        } else {
            let mut uses: Vec<ToolUse> = Vec::new();
            let mut j = i;
            while j < n && is_tool_call(&events[j])
                invariant
                    i <= j <= n,
                    n == es.len(),
                    es == events_model(events@),
                    forall|t: int| i <= t < j ==> (#[trigger] es[t]) is ToolCall,
                    uses_model(uses@) == tool_uses_of(es.subrange(i as int, j as int)),
                decreases n - j,
            {
                assert(es[j as int] == events@[j as int]@);
                let u = tool_use_from(&events[j]);
                let ghost old_uses = uses_model(uses@);
                uses.push(u);
                assert(uses_model(uses@) =~= old_uses.push(u@));
                assert(es.subrange(i as int, j + 1) =~= es.subrange(i as int, j as int).push(
                    es[j as int],
                ));
                assert(tool_uses_of(es.subrange(i as int, j + 1)) =~= tool_uses_of(
                    es.subrange(i as int, j as int),
                ).push(tool_use_of(es[j as int])));
                j = j + 1;
            }
            proof {
                assert(forall|t: int| 0 <= t < j - i ==> #[trigger] rest[t] == es[i + t]);
                if j < n {
                    assert(rest[j - i] == es[j as int]);
                }
                lemma_tool_run_exact(rest, j - i);
                assert(rest.take(j - i) =~= es.subrange(i as int, j as int));
                assert(rest.skip(j - i) =~= es.skip(j as int));
            }
            let m = ApiMessage::ToolUses { uses };
            messages.push(m);
            assert(messages_model(messages@) =~= before.push(m@));
            assert(messages_model(messages@) + messages_of(es.skip(j as int)) =~= before
                + messages_of(rest));
            i = j;
        }
    }
    assert(es.skip(n as int) =~= Seq::<EventModel>::empty());
    assert(messages_model(messages@) + messages_of(es.skip(n as int)) =~= messages_model(
        messages@,
    ));
    messages
}

/// Whether an event is a tool call.
fn is_tool_call(e: &ConversationEvent) -> (r: bool)
    ensures
        r == e@ is ToolCall,
{
    match e {
        ConversationEvent::ToolCall { .. } => true,
        _ => false,
    }
}

/// The tool use of a tool call event.
fn tool_use_from(e: &ConversationEvent) -> (r: ToolUse)
    requires
        e@ is ToolCall,
    ensures
        r@ == tool_use_of(e@),
{
    match e {
        ConversationEvent::ToolCall { id, name, input } => ToolUse {
            id: id.clone(),
            name: name.clone(),
            input: input.clone(),
        },
        _ => {
            proof {
                assert(false);
            }
            ToolUse { id: String::new(), name: String::new(), input: String::new() }
        },
    }
}

impl AppState {
    /// Convert conversation events to the chat API message list
    pub fn events_to_messages(&self) -> (r: Vec<ApiMessage>)
        ensures
            messages_model(r@) == messages_of(self@.events),
    {
        messages_for(&self.events)
    }
}

} // verus!
