use atuin_ai::messages::{ApiMessage, ToolUse};
use atuin_ai::state::{AppState, ConversationEvent};
use serde_json::Value;

fn parse(s: &str) -> Value {
    serde_json::from_str(s).expect("valid JSON")
}

fn call(id: &str, name: &str, input: &str) -> ConversationEvent {
    ConversationEvent::ToolCall { id: id.into(), name: name.into(), input: input.into() }
}

#[test]
fn event_json_texts() {
    let u = ConversationEvent::UserMessage { content: "say \"hi\"\n".into() };
    assert_eq!(u.to_json(), r#"{"content":"say \"hi\"\n","type":"user_message"}"#);
    let t = ConversationEvent::Text { content: "ok".into() };
    assert_eq!(parse(&t.to_json()), parse(r#"{"type":"text","content":"ok"}"#));
    let c = call("id1", "search", r#"{"q":"files"}"#);
    assert_eq!(
        parse(&c.to_json()),
        parse(r#"{"type":"tool_call","id":"id1","name":"search","input":{"q":"files"}}"#)
    );
    let r = ConversationEvent::ToolResult {
        tool_use_id: "id1".into(),
        content: "done".into(),
        is_error: true,
    };
    assert_eq!(
        r.to_json(),
        r#"{"content":"done","is_error":true,"tool_use_id":"id1","type":"tool_result"}"#
    );
}

#[test]
fn consecutive_tool_calls_are_grouped() {
    let mut s = AppState::new();
    s.events.push(ConversationEvent::UserMessage { content: "q".into() });
    s.events.push(ConversationEvent::Text { content: "a".into() });
    s.events.push(call("1", "search", "{}"));
    s.events.push(call("2", "read", r#"{"path":"/tmp"}"#));
    s.events.push(ConversationEvent::ToolResult {
        tool_use_id: "1".into(),
        content: "r1".into(),
        is_error: false,
    });
    s.events.push(call("3", "suggest_command", r#"{"command":"ls"}"#));
    let ms = s.events_to_messages();
    assert_eq!(ms.len(), 5);
    let json: Vec<Value> = ms.iter().map(|m| parse(&m.to_json())).collect();
    assert_eq!(json[0], parse(r#"{"role":"user","content":"q"}"#));
    assert_eq!(json[1], parse(r#"{"role":"assistant","content":"a"}"#));
    assert_eq!(
        json[2],
        parse(
            r#"{"role":"assistant","content":[
            {"type":"tool_use","id":"1","name":"search","input":{}},
            {"type":"tool_use","id":"2","name":"read","input":{"path":"/tmp"}}]}"#
        )
    );
    assert_eq!(
        json[3],
        parse(
            r#"{"role":"user","content":[{"type":"tool_result","tool_use_id":"1","content":"r1","is_error":false}]}"#
        )
    );
    assert_eq!(
        json[4],
        parse(
            r#"{"role":"assistant","content":[{"type":"tool_use","id":"3","name":"suggest_command","input":{"command":"ls"}}]}"#
        )
    );
}

#[test]
fn empty_conversation_has_no_messages() {
    let s = AppState::new();
    assert!(s.events_to_messages().is_empty());
}

#[test]
fn grouping_keeps_all_events() {
    let mut s = AppState::new();
    for i in 0..3 {
        s.events.push(call(&format!("c{i}"), "search", "{}"));
    }
    s.events.push(ConversationEvent::Text { content: "x".into() });
    s.events.push(call("c9", "search", "{}"));
    let ms = s.events_to_messages();
    assert_eq!(ms.len(), 3);
    match &ms[0] {
        ApiMessage::ToolUses { uses } => {
            let ids: Vec<&str> = uses.iter().map(|u| u.id.as_str()).collect();
            assert_eq!(ids, vec!["c0", "c1", "c2"]);
        }
        other => panic!("unexpected {other:?}"),
    }
    match &ms[2] {
        ApiMessage::ToolUses { uses } => assert_eq!(uses.len(), 1),
        other => panic!("unexpected {other:?}"),
    }
}

#[test]
fn tool_use_json_text() {
    let u = ToolUse { id: "a".into(), name: "b".into(), input: "{}".into() };
    assert_eq!(u.to_json(), r#"{"id":"a","input":{},"name":"b","type":"tool_use"}"#);
}

#[test]
fn control_characters_are_escaped() {
    let t = ConversationEvent::Text { content: "\u{1}\u{1f}\u{8}\u{c}\r\t\\/\u{7f}é".into() };
    assert_eq!(
        t.to_json(),
        "{\"content\":\"\\u0001\\u001f\\b\\f\\r\\t\\\\/\u{7f}é\",\"type\":\"text\"}"
    );
}

#[test]
fn messages_of_concatenated_conversations() {
    let a = vec![
        ConversationEvent::UserMessage { content: "q".into() },
        call("1", "search", "{}"),
        ConversationEvent::Text { content: "t".into() },
    ];
    let b = vec![call("2", "read", "{}"), call("3", "read", "{}")];
    let mut both = AppState::new();
    both.events.extend(a.iter().cloned());
    both.events.extend(b.iter().cloned());
    let mut sa = AppState::new();
    sa.events = a;
    let mut sb = AppState::new();
    sb.events = b;
    let joined: Vec<String> = both.events_to_messages().iter().map(|m| m.to_json()).collect();
    let mut separate: Vec<String> = sa.events_to_messages().iter().map(|m| m.to_json()).collect();
    separate.extend(sb.events_to_messages().iter().map(|m| m.to_json()));
    assert_eq!(joined, separate);
}
