//! The chat stream: the request body sent to the chat endpoint, the decoding
//! of the server-sent events it answers with, and their effect on the state.

use vstd::prelude::*;
use vstd::string::*;

use crate::json::{
    bool_member, json_bool_member, json_member_text, json_parses, json_quoted, json_string_member,
    member_text, parses_as_json, quote, string_member,
};
use crate::messages::{ApiMessage, MessageModel, message_json, messages_model};
use crate::state::{AppMode, AppState, AppStateModel, EventModel, StreamingStatus};
use crate::text::{opt_view, text_eq, trim_start};

verus! {

/// An event of the chat stream.
#[derive(Debug, Clone)]
pub enum ChatStreamEvent {
    TextChunk(String),
    ToolCall { id: String, name: String, input: String },
    ToolResult { tool_use_id: String, content: String, is_error: bool },
    Status(String),
    Done { session_id: String },
    Error(String),
}

/// Mathematical view of a [`ChatStreamEvent`].
pub enum StreamEventModel {
    TextChunk(Seq<char>),
    ToolCall { id: Seq<char>, name: Seq<char>, input: Seq<char> },
    ToolResult { tool_use_id: Seq<char>, content: Seq<char>, is_error: bool },
    Status(Seq<char>),
    Done { session_id: Seq<char> },
    Error(Seq<char>),
}

impl View for ChatStreamEvent {
    type V = StreamEventModel;

    open spec fn view(&self) -> StreamEventModel {
        match self {
            ChatStreamEvent::TextChunk(t) => StreamEventModel::TextChunk(t@),
            ChatStreamEvent::ToolCall { id, name, input } => StreamEventModel::ToolCall {
                id: id@,
                name: name@,
                input: input@,
            },
            ChatStreamEvent::ToolResult { tool_use_id, content, is_error } =>
                StreamEventModel::ToolResult {
                tool_use_id: tool_use_id@,
                content: content@,
                is_error: *is_error,
            },
            ChatStreamEvent::Status(s) => StreamEventModel::Status(s@),
            ChatStreamEvent::Done { session_id } => StreamEventModel::Done {
                session_id: session_id@,
            },
            ChatStreamEvent::Error(m) => StreamEventModel::Error(m@),
        }
    }
}

/// What one server-sent event yields: maybe a stream event, and whether the
/// stream ends with it.
#[derive(Debug)]
pub struct SseOutcome {
    pub event: Option<ChatStreamEvent>,
    pub end: bool,
}

/// Views an optional stream event.
pub open spec fn opt_stream_event(e: Option<ChatStreamEvent>) -> Option<StreamEventModel> {
    match e {
        Some(e) => Some(e@),
        None => None,
    }
}

/// A string member of a JSON text, empty where absent.
pub open spec fn string_or_empty(data: Seq<char>, key: Seq<char>) -> Seq<char> {
    match json_string_member(data, key) {
        Some(v) => v,
        None => Seq::empty(),
    }
}

/// The stream event that a server-sent event of type `event_type` with payload
/// `data` yields.
pub open spec fn decoded_event(event_type: Seq<char>, data: Seq<char>) -> Option<StreamEventModel> {
    if event_type == "text"@ {
        if json_parses(data) && json_string_member(data, "content"@) is Some {
            Some(StreamEventModel::TextChunk(json_string_member(data, "content"@)->0))
        } else {
            None
        }
    } else if event_type == "tool_call"@ {
        if json_parses(data) {
            Some(
                StreamEventModel::ToolCall {
                    id: string_or_empty(data, "id"@),
                    name: string_or_empty(data, "name"@),
                    input: match json_member_text(data, "input"@) {
                        Some(t) => t,
                        None => "{}"@,
                    },
                },
            )
        } else {
            None
        }
    } else if event_type == "tool_result"@ {
        if json_parses(data) {
            Some(
                StreamEventModel::ToolResult {
                    tool_use_id: string_or_empty(data, "tool_use_id"@),
                    content: string_or_empty(data, "content"@),
                    is_error: match json_bool_member(data, "is_error"@) {
                        Some(b) => b,
                        None => false,
                    },
                },
            )
        } else {
            None
        }
    } else if event_type == "status"@ {
        if json_parses(data) && json_string_member(data, "state"@) is Some {
            Some(StreamEventModel::Status(json_string_member(data, "state"@)->0))
        } else {
            None
        }
    } else if event_type == "done"@ {
        Some(
            StreamEventModel::Done {
                session_id: if json_parses(data) {
                    string_or_empty(data, "session_id"@)
                } else {
                    Seq::empty()
                },
            },
        )
    } else if event_type == "error"@ {
        Some(
            StreamEventModel::Error(
                if json_parses(data) {
                    match json_string_member(data, "message"@) {
                        Some(m) => m,
                        None => "Unknown error"@,
                    }
                } else {
                    data
                },
            ),
        )
    } else {
        None
    }
}

/// Whether a server-sent event of this type ends the stream.
pub open spec fn ends_stream(event_type: Seq<char>) -> bool {
    event_type == "done"@ || event_type == "error"@
}

/// A string member of a JSON text, empty where absent.
fn member_or_empty(data: &str, key: &str) -> (r: String)
    ensures
        r@ == string_or_empty(data@, key@),
{
    match string_member(data, key) {
        Some(v) => v,
        None => String::new(),
    }
}

/// Decodes one server-sent event of the chat endpoint.
pub fn decode_sse_event(event_type: &str, data: &str) -> (r: SseOutcome)
    ensures
        opt_stream_event(r.event) == decoded_event(event_type@, data@),
        r.end == ends_stream(event_type@),
{
    proof {
        reveal_strlit("text");
        reveal_strlit("tool_call");
        reveal_strlit("tool_result");
        reveal_strlit("status");
        reveal_strlit("done");
        reveal_strlit("error");
        assert("text"@[0] != "done"@[0]);
        assert("tool_call"@.len() == 9);
        assert("done"@.len() == 4);
        assert("error"@.len() == 5);
        assert("tool_call"@ != "done"@);
        assert("text"@ != "done"@);
        assert("text"@ != "error"@);
    }
    if text_eq(event_type, "text") {
        let content = string_member(data, "content");
        let event = if parses_as_json(data) && content.is_some() {
            Some(ChatStreamEvent::TextChunk(content.unwrap()))
        } else {
            None
        };
        SseOutcome { event, end: false }
    } else if text_eq(event_type, "tool_call") {
        if parses_as_json(data) {
            let id = member_or_empty(data, "id");
            let name = member_or_empty(data, "name");
            let input = match member_text(data, "input") {
                Some(t) => t,
                None => "{}".to_owned(),
            };
            SseOutcome { event: Some(ChatStreamEvent::ToolCall { id, name, input }), end: false }
        } else {
            SseOutcome { event: None, end: false }
        }
    } else if text_eq(event_type, "tool_result") {
        if parses_as_json(data) {
            let tool_use_id = member_or_empty(data, "tool_use_id");
            let content = member_or_empty(data, "content");
            let is_error = match bool_member(data, "is_error") {
                Some(b) => b,
                None => false,
            };
            SseOutcome {
                event: Some(ChatStreamEvent::ToolResult { tool_use_id, content, is_error }),
                end: false,
            }
        } else {
            SseOutcome { event: None, end: false }
        }
    } else if text_eq(event_type, "status") {
        let state = string_member(data, "state");
        let event = if parses_as_json(data) && state.is_some() {
            Some(ChatStreamEvent::Status(state.unwrap()))
        } else {
            None
        };
        SseOutcome { event, end: false }
    } else if text_eq(event_type, "done") {
        let session_id = if parses_as_json(data) {
            member_or_empty(data, "session_id")
        } else {
            String::new()
        };
        SseOutcome { event: Some(ChatStreamEvent::Done { session_id }), end: true }
    } else if text_eq(event_type, "error") {
        let message = if parses_as_json(data) {
            match string_member(data, "message") {
                Some(m) => m,
                None => "Unknown error".to_owned(),
            }
        } else {
            data.to_owned()
        };
        SseOutcome { event: Some(ChatStreamEvent::Error(message)), end: true }
    } else {
        SseOutcome { event: None, end: false }
    }
}

/// The state after a stream event is applied.
pub open spec fn apply_event(m: AppStateModel, e: StreamEventModel) -> AppStateModel {
    match e {
        StreamEventModel::TextChunk(t) => m.append_streaming_text(t),
        StreamEventModel::ToolCall { id, name, input } => m.add_tool_call(id, name, input),
        StreamEventModel::ToolResult { tool_use_id, content, is_error } => m.add_tool_result(
            tool_use_id,
            content,
            is_error,
        ),
        StreamEventModel::Status(s) => m.update_streaming_status(s),
        StreamEventModel::Done { session_id } => if session_id.len() > 0 {
            m.store_session_id(session_id).finalize_streaming()
        } else {
            m.finalize_streaming()
        },
        StreamEventModel::Error(msg) => m.streaming_error(msg),
    }
}

/// Whether a stream event is the last one processed.
pub open spec fn is_final_event(e: StreamEventModel) -> bool {
    e is Done || e is Error
}

/// The events after the streamed text (trimmed of leading whitespace) is
/// flushed to a text event, when anything is left of it.
pub open spec fn events_with_flushed_text(m: AppStateModel) -> Seq<EventModel> {
    if trim_start(m.streaming_text).len() > 0 {
        m.events.push(EventModel::Text { content: trim_start(m.streaming_text) })
    } else {
        m.events
    }
}

/// A text chunk only grows the streamed text: the first chunk without its
/// leading whitespace, later chunks as they are; nothing else changes.
pub proof fn law_text_chunk_appends(m: AppStateModel, t: Seq<char>)
    ensures
        apply_event(m, StreamEventModel::TextChunk(t)) == (AppStateModel {
            streaming_text: if m.streaming_text.len() == 0 {
                trim_start(t)
            } else {
                m.streaming_text + t
            },
            ..m
        }),
{
}

/// A tool result is recorded as it came, error flag included, at the end of
/// the conversation; nothing else changes.
pub proof fn law_tool_result_recorded(
    m: AppStateModel,
    tool_use_id: Seq<char>,
    content: Seq<char>,
    is_error: bool,
)
    ensures
        apply_event(m, StreamEventModel::ToolResult { tool_use_id, content, is_error }) == (
        AppStateModel {
            events: m.events.push(EventModel::ToolResult { tool_use_id, content, is_error }),
            ..m
        }),
{
}

/// A tool call flushes the streamed text and is recorded after it; only a
/// `suggest_command` call ends the streaming (review mode, no status).
pub proof fn law_tool_call_recorded(
    m: AppStateModel,
    id: Seq<char>,
    name: Seq<char>,
    input: Seq<char>,
)
    ensures
        ({
            let r = apply_event(m, StreamEventModel::ToolCall { id, name, input });
            &&& r.events == events_with_flushed_text(m).push(
                EventModel::ToolCall { id, name, input },
            )
            &&& r.streaming_text.len() == 0
            &&& name == "suggest_command"@ ==> r.mode == AppMode::Review
                && r.streaming_status is None
            &&& name != "suggest_command"@ ==> r.mode == m.mode && r.streaming_status
                == m.streaming_status
            &&& r.error == m.error && r.session_id == m.session_id && r.input == m.input
            &&& r.exit_action == m.exit_action && r.exiting == m.exiting
            &&& r.confirmation_pending == m.confirmation_pending
            &&& r.was_interrupted == m.was_interrupted
        }),
{
    assert(trim_start(m.streaming_text) + Seq::<char>::empty() =~= trim_start(m.streaming_text));
}

/// A status event sets the status to the one its word names.
pub proof fn law_status_recorded(m: AppStateModel, word: Seq<char>)
    ensures
        apply_event(m, StreamEventModel::Status(word)) == (AppStateModel {
            streaming_status: Some(StreamingStatus::of_word(word)),
            ..m
        }),
{
}

/// The done event flushes the streamed text, moves to review, and keeps the
/// session id it carries (an empty one leaves the session as it was).
pub proof fn law_done_finalizes(m: AppStateModel, session_id: Seq<char>)
    ensures
        apply_event(m, StreamEventModel::Done { session_id }) == (AppStateModel {
            events: events_with_flushed_text(m),
            streaming_text: Seq::empty(),
            streaming_status: None,
            mode: AppMode::Review,
            session_id: if session_id.len() > 0 {
                Some(session_id)
            } else {
                m.session_id
            },
            ..m
        }),
{
    assert(trim_start(m.streaming_text) + Seq::<char>::empty() =~= trim_start(m.streaming_text));
}

/// The error event drops the streamed text and shows the error; the
/// conversation is kept.
pub proof fn law_error_recorded(m: AppStateModel, message: Seq<char>)
    ensures
        apply_event(m, StreamEventModel::Error(message)) == (AppStateModel {
            streaming_text: Seq::empty(),
            error: Some(message),
            mode: AppMode::Error,
            ..m
        }),
{
}

/// Processing stops exactly at a done or an error event.
pub proof fn law_final_events(e: StreamEventModel)
    ensures
        is_final_event(e) <==> (e is Done || e is Error),
        !is_final_event(StreamEventModel::TextChunk(Seq::empty())),
        !is_final_event(
            StreamEventModel::ToolCall { id: Seq::empty(), name: Seq::empty(), input: Seq::empty() },
        ),
        !is_final_event(
            StreamEventModel::ToolResult {
                tool_use_id: Seq::empty(),
                content: Seq::empty(),
                is_error: false,
            },
        ),
        !is_final_event(StreamEventModel::Status(Seq::empty())),
{
}

/// Only the done and error event types end the stream; text, tool calls, tool
/// results and status events keep it going.
pub proof fn law_only_done_and_error_end(event_type: Seq<char>)
    ensures
        ends_stream(event_type) <==> (event_type == "done"@ || event_type == "error"@),
        ends_stream("done"@),
        ends_stream("error"@),
        !ends_stream("text"@),
        !ends_stream("tool_call"@),
        !ends_stream("tool_result"@),
        !ends_stream("status"@),
{
    lemma_event_types_distinct();
}

/// How each event type is decoded from a payload that parses: text and
/// status need their string member; a tool call takes its id, name (empty
/// when absent) and input (`{}` when absent); a tool result its id, content
/// and error flag (false unless `true`); done its session id; error its
/// message (`Unknown error` when absent).
pub proof fn law_decode_parsed(data: Seq<char>)
    requires
        json_parses(data),
    ensures
        decoded_event("text"@, data) == match json_string_member(data, "content"@) {
            Some(c) => Some(StreamEventModel::TextChunk(c)),
            None => None,
        },
        decoded_event("status"@, data) == match json_string_member(data, "state"@) {
            Some(s) => Some(StreamEventModel::Status(s)),
            None => None,
        },
        decoded_event("tool_call"@, data) == Some(
            StreamEventModel::ToolCall {
                id: string_or_empty(data, "id"@),
                name: string_or_empty(data, "name"@),
                input: match json_member_text(data, "input"@) {
                    Some(t) => t,
                    None => "{}"@,
                },
            },
        ),
        decoded_event("tool_result"@, data) == Some(
            StreamEventModel::ToolResult {
                tool_use_id: string_or_empty(data, "tool_use_id"@),
                content: string_or_empty(data, "content"@),
                is_error: json_bool_member(data, "is_error"@) == Some(true),
            },
        ),
        decoded_event("done"@, data) == Some(
            StreamEventModel::Done { session_id: string_or_empty(data, "session_id"@) },
        ),
        decoded_event("error"@, data) == Some(
            StreamEventModel::Error(
                match json_string_member(data, "message"@) {
                    Some(msg) => msg,
                    None => "Unknown error"@,
                },
            ),
        ),
{
    lemma_event_types_distinct();
}

/// A payload that does not parse yields nothing, except that done still ends
/// the stream (without a session id) and error carries the payload itself as
/// its message.
pub proof fn law_decode_unparsed(data: Seq<char>)
    requires
        !json_parses(data),
    ensures
        decoded_event("text"@, data) is None,
        decoded_event("status"@, data) is None,
        decoded_event("tool_call"@, data) is None,
        decoded_event("tool_result"@, data) is None,
        decoded_event("done"@, data) == Some(StreamEventModel::Done { session_id: Seq::empty() }),
        decoded_event("error"@, data) == Some(StreamEventModel::Error(data)),
{
    lemma_event_types_distinct();
}

/// The six event types of the chat endpoint are distinct words.
proof fn lemma_event_types_distinct()
    ensures
        "text"@ != "tool_call"@,
        "text"@ != "tool_result"@,
        "text"@ != "status"@,
        "text"@ != "done"@,
        "text"@ != "error"@,
        "tool_call"@ != "tool_result"@,
        "tool_call"@ != "status"@,
        "tool_call"@ != "done"@,
        "tool_call"@ != "error"@,
        "tool_result"@ != "status"@,
        "tool_result"@ != "done"@,
        "tool_result"@ != "error"@,
        "status"@ != "done"@,
        "status"@ != "error"@,
        "done"@ != "error"@,
{
    reveal_strlit("text");
    reveal_strlit("tool_call");
    reveal_strlit("tool_result");
    reveal_strlit("status");
    reveal_strlit("done");
    reveal_strlit("error");
    assert("text"@.len() == 4);
    assert("tool_call"@.len() == 9);
    assert("tool_result"@.len() == 11);
    assert("status"@.len() == 6);
    assert("done"@.len() == 4);
    assert("error"@.len() == 5);
    assert("text"@[0] != "done"@[0]);
}

/// Event types other than the six known ones yield nothing and do not end
/// the stream.
pub proof fn law_unknown_event_types(event_type: Seq<char>, data: Seq<char>)
    requires
        event_type != "text"@,
        event_type != "tool_call"@,
        event_type != "tool_result"@,
        event_type != "status"@,
        event_type != "done"@,
        event_type != "error"@,
    ensures
        decoded_event(event_type, data) is None,
        !ends_stream(event_type),
{
}

/// Applies a stream event to the state; returns whether the stream is over.
pub fn apply_stream_event(state: &mut AppState, event: ChatStreamEvent) -> (stop: bool)
    ensures
        final(state)@ == apply_event(old(state)@, event@),
        stop == is_final_event(event@),
{
    match event {
        ChatStreamEvent::TextChunk(text) => {
            state.append_streaming_text(text.as_str());
            false
        },
        ChatStreamEvent::ToolCall { id, name, input } => {
            state.add_tool_call(id, name, input);
            false
        },
        ChatStreamEvent::ToolResult { tool_use_id, content, is_error } => {
            state.add_tool_result(tool_use_id, content, is_error);
            false
        },
        ChatStreamEvent::Status(status) => {
            state.update_streaming_status(status.as_str());
            false
        },
        ChatStreamEvent::Done { session_id } => {
            if session_id.as_str().unicode_len() > 0 {
                state.store_session_id(session_id);
            }
            state.finalize_streaming();
            true
        },
        ChatStreamEvent::Error(msg) => {
            state.streaming_error(msg);
            true
        },
    }
}

// ----- request body ----------------------------------------------------------

/// Messages written as JSON, separated by commas.
pub open spec fn messages_json(ms: Seq<MessageModel>) -> Seq<char>
    decreases ms.len(),
{
    if ms.len() == 0 {
        Seq::empty()
    } else if ms.len() == 1 {
        message_json(ms[0])
    } else {
        messages_json(ms.drop_last()) + ","@ + message_json(ms.last())
    }
}

/// The request body sent to the chat endpoint: the messages and the context
/// (the distribution only on Linux, `pwd` null when not sent), with the
/// session id when there is one.
pub open spec fn request_body_json(
    ms: Seq<MessageModel>,
    os: Seq<char>,
    shell: Seq<char>,
    pwd: Option<Seq<char>>,
    distro: Seq<char>,
    session_id: Option<Seq<char>>,
) -> Seq<char> {
    "{\"context\":{"@ + (if os == "linux"@ {
        "\"distro\":"@ + json_quoted(distro) + ","@
    } else {
        Seq::empty()
    }) + "\"os\":"@ + json_quoted(os) + ",\"pwd\":"@ + (match pwd {
        Some(p) => json_quoted(p),
        None => "null"@,
    }) + ",\"shell\":"@ + json_quoted(shell) + "},\"messages\":["@ + messages_json(ms) + "]"@
        + (match session_id {
        Some(s) => ",\"session_id\":"@ + json_quoted(s),
        None => Seq::empty(),
    }) + "}"@
}

/// The working directory, when one is given, is sent whatever the system:
/// the body with a directory and the body without one differ exactly in the
/// value after `"pwd":`, which is the quoted directory in the first and `null`
/// in the second.
pub proof fn law_pwd_sent_when_given(
    ms: Seq<MessageModel>,
    os: Seq<char>,
    shell: Seq<char>,
    pwd: Seq<char>,
    distro: Seq<char>,
    session_id: Option<Seq<char>>,
)
    ensures
        exists|before: Seq<char>, after: Seq<char>|
            {
                &&& request_body_json(ms, os, shell, Some(pwd), distro, session_id) == before
                    + ",\"pwd\":"@ + json_quoted(pwd) + after
                &&& request_body_json(ms, os, shell, None, distro, session_id) == before
                    + ",\"pwd\":"@ + "null"@ + after
            },
{
    let before = "{\"context\":{"@ + (if os == "linux"@ {
        "\"distro\":"@ + json_quoted(distro) + ","@
    } else {
        Seq::empty()
    }) + "\"os\":"@ + json_quoted(os);
    let after = ",\"shell\":"@ + json_quoted(shell) + "},\"messages\":["@ + messages_json(ms)
        + "]"@ + (match session_id {
        Some(s) => ",\"session_id\":"@ + json_quoted(s),
        None => Seq::empty(),
    }) + "}"@;
    assert(request_body_json(ms, os, shell, Some(pwd), distro, session_id) =~= before
        + ",\"pwd\":"@ + json_quoted(pwd) + after);
    assert(request_body_json(ms, os, shell, None, distro, session_id) =~= before + ",\"pwd\":"@
        + "null"@ + after);
}

/// The distribution is sent only from Linux: on any other system the body
/// does not depend on it.
pub proof fn law_distro_only_on_linux(
    ms: Seq<MessageModel>,
    os: Seq<char>,
    shell: Seq<char>,
    pwd: Option<Seq<char>>,
    d1: Seq<char>,
    d2: Seq<char>,
    session_id: Option<Seq<char>>,
)
    requires
        os != "linux"@,
    ensures
        request_body_json(ms, os, shell, pwd, d1, session_id) == request_body_json(
            ms,
            os,
            shell,
            pwd,
            d2,
            session_id,
        ),
{
}

/// Views an optional string slice.
pub open spec fn opt_str(o: Option<&str>) -> Option<Seq<char>> {
    match o {
        Some(s) => Some(s@),
        None => None,
    }
}

/// The working directory sent with a request: only when sending it is
/// enabled, and only when it is known.
pub fn request_pwd(send_cwd: bool, cwd: Option<&str>) -> (r: Option<String>)
    ensures
        opt_view(r) == (if send_cwd {
            opt_str(cwd)
        } else {
            None
        }),
        !send_cwd ==> r is None,
{
    if send_cwd {
        match cwd {
            Some(d) => Some(d.to_owned()),
            None => None,
        }
    } else {
        None
    }
}

/// Builds the JSON body of a chat request.
#[verifier::rlimit(40)]
#[verifier::spinoff_prover]
pub fn request_body(
    messages: &Vec<ApiMessage>,
    os: &str,
    shell: &str,
    pwd: Option<&str>,
    distro: &str,
    session_id: Option<&str>,
) -> (r: String)
    ensures
        r@ == request_body_json(
            messages_model(messages@),
            os@,
            shell@,
            opt_str(pwd),
            distro@,
            opt_str(session_id),
        ),
{
    let mut out = String::new();
    out.append("{\"context\":{");
    let ghost a0 = out@;
    if text_eq(os, "linux") {
        out.append("\"distro\":");
        let q = quote(distro);
        out.append(q.as_str());
        out.append(",");
    }
    out.append("\"os\":");
    let q = quote(os);
    out.append(q.as_str());
    out.append(",\"pwd\":");
    match pwd {
        Some(p) => {
            let q = quote(p);
            out.append(q.as_str());
        },
        None => {
            out.append("null");
        },
    }
    out.append(",\"shell\":");
    let q = quote(shell);
    out.append(q.as_str());
    out.append("},\"messages\":[");
    let ghost head = out@;
    let ghost ms = messages_model(messages@);
    let n = messages.len();
    let mut i: usize = 0;
    assert(ms.take(0) =~= Seq::<MessageModel>::empty());
    proof {
        reveal_strlit("");
    }
    while i < n
        invariant
            i <= n,
            n == ms.len(),
            ms == messages_model(messages@),
            out@ == head + messages_json(ms.take(i as int)),
        decreases n - i,
    {
        assert(ms.take(i + 1).drop_last() =~= ms.take(i as int));
        assert(ms.take(i + 1).last() == messages@[i as int]@);
        if i > 0 {
            out.append(",");
        } else {
            assert(ms.take(0) =~= Seq::<MessageModel>::empty());
        }
        let m = messages[i].to_json();
        out.append(m.as_str());
        i = i + 1;
    }
    assert(ms.take(n as int) =~= ms);
    out.append("]");
    match session_id {
        Some(s) => {
            out.append(",\"session_id\":");
            let q = quote(s);
            out.append(q.as_str());
        },
        None => {},
    }
    out.append("}");
    out
}

// ----- answers of the chat endpoint ------------------------------------------

/// What to do with the HTTP status of the chat endpoint's answer.
#[derive(Debug, Clone, Copy, PartialEq, Eq, Structural)]
pub enum ResponseCheck {
    /// A success status: read the event stream
    Proceed,
    /// 401: the Hub session is no longer valid
    SessionExpired,
    /// Any other status outside 200..=299
    Failed,
}

/// The decision for an HTTP status code.
pub open spec fn response_check_of(status: u16) -> ResponseCheck {
    if status == 401 {
        ResponseCheck::SessionExpired
    } else if 200 <= status <= 299 {
        ResponseCheck::Proceed
    } else {
        ResponseCheck::Failed
    }
}

/// Decides what to do with the HTTP status of the chat endpoint's answer.
pub fn check_response(status: u16) -> (r: ResponseCheck)
    ensures
        r == response_check_of(status),
{
    if status == 401 {
        ResponseCheck::SessionExpired
    } else if 200 <= status && status <= 299 {
        ResponseCheck::Proceed
    } else {
        ResponseCheck::Failed
    }
}

/// The error shown when the Hub session has expired.
pub fn session_expired_message() -> (r: String)
    ensures
        r@ == "Hub session expired. Re-run to authenticate again."@,
{
    "Hub session expired. Re-run to authenticate again.".to_owned()
}

/// The error shown for an answer with a failure status: the status and the
/// body of the answer.
pub fn request_failed_message(status: &str, body: &str) -> (r: String)
    ensures
        r@ == "SSE request failed ("@ + status@ + "): "@ + body@,
{
    let mut r = "SSE request failed (".to_owned();
    r.append(status);
    r.append("): ");
    r.append(body);
    r
}

/// The error shown when the request could not be sent.
pub fn send_failed_message(detail: &str) -> (r: String)
    ensures
        r@ == "Failed to send SSE request: "@ + detail@,
{
    let mut r = "Failed to send SSE request: ".to_owned();
    r.append(detail);
    r
}

/// The error shown when the event stream breaks.
pub fn stream_failed_message(detail: &str) -> (r: String)
    ensures
        r@ == "SSE error: "@ + detail@,
{
    let mut r = "SSE error: ".to_owned();
    r.append(detail);
    r
}

} // verus!
