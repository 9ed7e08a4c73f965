use atuin_ai::messages::ApiMessage;
use atuin_ai::state::{AppMode, AppState, ConversationEvent, StreamingStatus};
use atuin_ai::stream::{
    apply_stream_event, check_response, decode_sse_event, request_body, request_failed_message,
    send_failed_message, session_expired_message, stream_failed_message, ChatStreamEvent,
    ResponseCheck,
};
use serde_json::Value;

fn parse(s: &str) -> Value {
    serde_json::from_str(s).expect("valid JSON")
}

#[test]
fn decode_text_chunks() {
    let o = decode_sse_event("text", r#"{"content":"Hel"}"#);
    assert!(!o.end);
    match o.event {
        Some(ChatStreamEvent::TextChunk(t)) => assert_eq!(t, "Hel"),
        other => panic!("unexpected {other:?}"),
    }
    assert!(decode_sse_event("text", r#"{"other":1}"#).event.is_none());
    assert!(decode_sse_event("text", "garbage").event.is_none());
}

#[test]
fn decode_tool_call_and_result() {
    match decode_sse_event("tool_call", r#"{"id":"t1","name":"search","input":{"q":"a b"}}"#).event {
        Some(ChatStreamEvent::ToolCall { id, name, input }) => {
            assert_eq!(id, "t1");
            assert_eq!(name, "search");
            assert_eq!(parse(&input), parse(r#"{"q":"a b"}"#));
        }
        other => panic!("unexpected {other:?}"),
    }
    match decode_sse_event("tool_call", r#"{"name":"x"}"#).event {
        Some(ChatStreamEvent::ToolCall { id, input, .. }) => {
            assert_eq!(id, "");
            assert_eq!(input, "{}");
        }
        other => panic!("unexpected {other:?}"),
    }
    match decode_sse_event("tool_result", r#"{"tool_use_id":"t1","content":"ok","is_error":true}"#).event {
        Some(ChatStreamEvent::ToolResult { tool_use_id, content, is_error }) => {
            assert_eq!(tool_use_id, "t1");
            assert_eq!(content, "ok");
            assert!(is_error);
        }
        other => panic!("unexpected {other:?}"),
    }
    match decode_sse_event("tool_result", r#"{"tool_use_id":"t1"}"#).event {
        Some(ChatStreamEvent::ToolResult { is_error, .. }) => assert!(!is_error),
        other => panic!("unexpected {other:?}"),
    }
    assert!(decode_sse_event("tool_result", "{").event.is_none());
}

#[test]
fn decode_status_done_error() {
    match decode_sse_event("status", r#"{"state":"searching"}"#).event {
        Some(ChatStreamEvent::Status(s)) => assert_eq!(s, "searching"),
        other => panic!("unexpected {other:?}"),
    }
    let d = decode_sse_event("done", r#"{"session_id":"abc"}"#);
    assert!(d.end);
    match d.event {
        Some(ChatStreamEvent::Done { session_id }) => assert_eq!(session_id, "abc"),
        other => panic!("unexpected {other:?}"),
    }
    match decode_sse_event("done", "not json").event {
        Some(ChatStreamEvent::Done { session_id }) => assert_eq!(session_id, ""),
        other => panic!("unexpected {other:?}"),
    }
    let e = decode_sse_event("error", r#"{"message":"quota"}"#);
    assert!(e.end);
    match e.event {
        Some(ChatStreamEvent::Error(m)) => assert_eq!(m, "quota"),
        other => panic!("unexpected {other:?}"),
    }
    match decode_sse_event("error", r#"{}"#).event {
        Some(ChatStreamEvent::Error(m)) => assert_eq!(m, "Unknown error"),
        other => panic!("unexpected {other:?}"),
    }
    match decode_sse_event("error", "plain failure").event {
        Some(ChatStreamEvent::Error(m)) => assert_eq!(m, "plain failure"),
        other => panic!("unexpected {other:?}"),
    }
    let u = decode_sse_event("ping", "{}");
    assert!(u.event.is_none() && !u.end);
}

#[test]
fn applying_a_stream() {
    let mut s = AppState::new();
    s.start_streaming();
    assert!(!apply_stream_event(&mut s, ChatStreamEvent::Status("processing".into())));
    assert_eq!(s.streaming_status, Some(StreamingStatus::Processing));
    assert!(!apply_stream_event(&mut s, ChatStreamEvent::TextChunk(" Hi".into())));
    assert!(!apply_stream_event(&mut s, ChatStreamEvent::ToolCall {
        id: "1".into(),
        name: "search".into(),
        input: "{}".into()
    }));
    assert!(!apply_stream_event(&mut s, ChatStreamEvent::ToolResult {
        tool_use_id: "1".into(),
        content: "r".into(),
        is_error: false
    }));
    assert!(!apply_stream_event(&mut s, ChatStreamEvent::TextChunk("Done.".into())));
    assert!(apply_stream_event(&mut s, ChatStreamEvent::Done { session_id: "s1".into() }));
    assert_eq!(s.mode, AppMode::Review);
    assert_eq!(s.session_id.as_deref(), Some("s1"));
    assert_eq!(s.events.len(), 4);
    match &s.events[3] {
        ConversationEvent::Text { content } => assert_eq!(content, "Done."),
        other => panic!("unexpected {other:?}"),
    }
    assert!(apply_stream_event(&mut s, ChatStreamEvent::Done { session_id: "".into() }));
    assert_eq!(s.session_id.as_deref(), Some("s1"));
    assert!(apply_stream_event(&mut s, ChatStreamEvent::Error("bad".into())));
    assert_eq!(s.mode, AppMode::Error);
    assert_eq!(s.error.as_deref(), Some("bad"));
}

#[test]
fn request_body_shape() {
    let ms = vec![
        ApiMessage::UserText { content: "hi".into() },
        ApiMessage::AssistantText { content: "yo".into() },
    ];
    let body = request_body(&ms, "linux", "zsh", Some("/home/u"), "Arch Linux", Some("sid"));
    assert_eq!(
        parse(&body),
        parse(
            r#"{"messages":[{"role":"user","content":"hi"},{"role":"assistant","content":"yo"}],
                "context":{"os":"linux","shell":"zsh","pwd":"/home/u","distro":"Arch Linux"},
                "session_id":"sid"}"#
        )
    );
    let body = request_body(&Vec::new(), "macos", "fish", None, "ignored", None);
    assert_eq!(
        body,
        r#"{"context":{"os":"macos","pwd":null,"shell":"fish"},"messages":[]}"#
    );
}

#[test]
fn response_status_decisions() {
    assert_eq!(check_response(200), ResponseCheck::Proceed);
    assert_eq!(check_response(299), ResponseCheck::Proceed);
    assert_eq!(check_response(401), ResponseCheck::SessionExpired);
    assert_eq!(check_response(500), ResponseCheck::Failed);
    assert_eq!(check_response(199), ResponseCheck::Failed);
    assert_eq!(check_response(300), ResponseCheck::Failed);
    assert_eq!(session_expired_message(), "Hub session expired. Re-run to authenticate again.");
    assert_eq!(
        request_failed_message("500 Internal Server Error", "oops"),
        "SSE request failed (500 Internal Server Error): oops"
    );
    assert_eq!(send_failed_message("timeout"), "Failed to send SSE request: timeout");
    assert_eq!(stream_failed_message("eof"), "SSE error: eof");
}

#[test]
fn streamed_chunks_accumulate() {
    let mut s = AppState::new();
    s.start_streaming();
    let chunks = ["\n ", " \t", "  first", " second", "", "\nthird "];
    for c in chunks {
        s.append_streaming_text(c);
    }
    let joined: String = chunks.concat();
    assert_eq!(s.streaming_text, joined.trim_start());
    assert_eq!(s.mode, AppMode::Streaming);
    assert!(s.events.is_empty());
}

#[test]
fn working_directory_only_when_enabled() {
    assert_eq!(atuin_ai::stream::request_pwd(false, Some("/home/u")), None);
    assert_eq!(atuin_ai::stream::request_pwd(true, Some("/home/u")).as_deref(), Some("/home/u"));
    assert_eq!(atuin_ai::stream::request_pwd(true, None), None);
}
