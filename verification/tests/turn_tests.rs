use atuin_ai::state::ConversationEvent;
use atuin_ai::turns::{build_turns, command_marker, ToolResultStatus, TurnBuilder, UiEvent, UiTurn};

fn call(id: &str, name: &str, input: &str) -> ConversationEvent {
    ConversationEvent::ToolCall { id: id.into(), name: name.into(), input: input.into() }
}

fn kinds(turns: &[UiTurn]) -> Vec<&'static str> {
    turns
        .iter()
        .map(|t| match t {
            UiTurn::UserTurn { .. } => "user",
            UiTurn::AgentTurn { .. } => "agent",
        })
        .collect()
}

fn events(t: &UiTurn) -> &Vec<UiEvent> {
    match t {
        UiTurn::UserTurn { events } | UiTurn::AgentTurn { events } => events,
    }
}

#[test]
fn turns_alternate_and_group() {
    let es = vec![
        ConversationEvent::UserMessage { content: "one".into() },
        ConversationEvent::UserMessage { content: "two".into() },
        ConversationEvent::Text { content: "answer".into() },
        call("t1", "search", "{}"),
        ConversationEvent::UserMessage { content: "three".into() },
    ];
    let turns = build_turns(&es);
    assert_eq!(kinds(&turns), vec!["user", "agent", "user"]);
    assert_eq!(events(&turns[0]).len(), 2);
    assert_eq!(events(&turns[1]).len(), 2);
    assert_eq!(events(&turns[2]).len(), 1);
}

#[test]
fn tool_result_marks_matching_call() {
    let es = vec![
        call("t1", "search", "{}"),
        call("t2", "search", "{}"),
        ConversationEvent::ToolResult { tool_use_id: "t2".into(), content: "x".into(), is_error: true },
        ConversationEvent::ToolResult { tool_use_id: "t1".into(), content: "y".into(), is_error: false },
        ConversationEvent::ToolResult { tool_use_id: "zz".into(), content: "y".into(), is_error: false },
    ];
    let turns = build_turns(&es);
    assert_eq!(kinds(&turns), vec!["agent"]);
    let statuses: Vec<ToolResultStatus> = events(&turns[0])
        .iter()
        .map(|e| match e {
            UiEvent::ToolCall { status, .. } => *status,
            _ => panic!("unexpected entry"),
        })
        .collect();
    assert_eq!(statuses, vec![ToolResultStatus::Success, ToolResultStatus::Error]);
}

#[test]
fn tool_result_alone_opens_an_empty_agent_turn() {
    let es = vec![
        ConversationEvent::UserMessage { content: "q".into() },
        ConversationEvent::ToolResult { tool_use_id: "t".into(), content: "".into(), is_error: false },
    ];
    let turns = build_turns(&es);
    assert_eq!(kinds(&turns), vec!["user", "agent"]);
    assert!(events(&turns[1]).is_empty());
}

#[test]
fn suggested_command_fields() {
    let es = vec![
        call(
            "s",
            "suggest_command",
            r#"{"command":"rm -rf build","danger":"high","danger_notes":"deletes","confidence":"medium"}"#,
        ),
        call("s2", "suggest_command", r#"{"command":""}"#),
        call("s3", "suggest_command", r#"{"danger":"low"}"#),
    ];
    let turns = build_turns(&es);
    assert_eq!(turns.len(), 1);
    let evs = events(&turns[0]);
    assert_eq!(evs.len(), 1);
    match &evs[0] {
        UiEvent::SuggestedCommand { command, danger_level, danger_notes, confidence_level, confidence_notes } => {
            assert_eq!(command, "rm -rf build");
            assert_eq!(danger_level, "high");
            assert_eq!(danger_notes, "deletes");
            assert_eq!(confidence_level, "medium");
            assert_eq!(confidence_notes, "");
        }
        _ => panic!("unexpected entry"),
    }
}

#[test]
fn empty_suggestion_only_produces_no_turn() {
    let es = vec![call("s", "suggest_command", r#"{"command":""}"#)];
    assert!(build_turns(&es).is_empty());
    assert!(build_turns(&Vec::new()).is_empty());
}

#[test]
fn builder_can_be_reused_after_build() {
    let mut b = TurnBuilder::new();
    b.add_event(&ConversationEvent::Text { content: "x".into() });
    assert_eq!(b.build().len(), 1);
    assert!(b.build().is_empty());
}

#[test]
fn markers() {
    assert_eq!(command_marker("high"), "! ");
    assert_eq!(command_marker("med"), "! ");
    assert_eq!(command_marker("low"), "$ ");
    assert_eq!(command_marker(""), "$ ");
}

#[test]
fn user_texts_kept_in_order() {
    let es = vec![
        ConversationEvent::UserMessage { content: "a".into() },
        ConversationEvent::Text { content: "x".into() },
        ConversationEvent::UserMessage { content: "b".into() },
        ConversationEvent::UserMessage { content: "c".into() },
        call("t", "search", "{}"),
    ];
    let turns = build_turns(&es);
    let mut texts = Vec::new();
    for t in &turns {
        if let UiTurn::UserTurn { events } = t {
            for e in events {
                match e {
                    UiEvent::Text { content } => texts.push(content.clone()),
                    _ => panic!("user turns hold only texts"),
                }
            }
        }
    }
    assert_eq!(texts, vec!["a", "b", "c"]);
}
