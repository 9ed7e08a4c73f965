use atuin_ai::state::{AppMode, AppState, ConversationEvent, ExitAction, StreamingStatus};

fn texts(state: &AppState) -> Vec<String> {
    state
        .events
        .iter()
        .map(|e| match e {
            ConversationEvent::UserMessage { content } => format!("user:{content}"),
            ConversationEvent::Text { content } => format!("text:{content}"),
            ConversationEvent::ToolCall { id, name, .. } => format!("call:{id}:{name}"),
            ConversationEvent::ToolResult { tool_use_id, .. } => format!("result:{tool_use_id}"),
        })
        .collect()
}

#[test]
fn status_words_map_to_statuses() {
    assert_eq!(StreamingStatus::from_status_str("processing"), StreamingStatus::Processing);
    assert_eq!(StreamingStatus::from_status_str("searching"), StreamingStatus::Searching);
    assert_eq!(
        StreamingStatus::from_status_str("waiting_for_tools"),
        StreamingStatus::WaitingForTools
    );
    assert_eq!(StreamingStatus::from_status_str("thinking"), StreamingStatus::Thinking);
    assert_eq!(StreamingStatus::from_status_str("anything else"), StreamingStatus::Thinking);
    assert_eq!(StreamingStatus::from_status_str(""), StreamingStatus::Thinking);
}

#[test]
fn status_labels() {
    assert_eq!(StreamingStatus::Processing.display_text(), "Processing...");
    assert_eq!(StreamingStatus::Searching.display_text(), "Searching...");
    assert_eq!(StreamingStatus::Thinking.display_text(), "Thinking...");
    assert_eq!(StreamingStatus::WaitingForTools.display_text(), "Waiting for tools...");
}

#[test]
fn new_state_is_empty_input_mode() {
    let s = AppState::new();
    assert_eq!(s.mode, AppMode::Input);
    assert!(s.events.is_empty());
    assert!(s.input_is_empty());
    assert_eq!(s.input(), "");
    assert!(!s.exiting && !s.was_interrupted && !s.confirmation_pending);
    let d = AppState::default();
    assert_eq!(d.mode, AppMode::Input);
}

#[test]
fn blank_input_counts_as_empty() {
    let mut s = AppState::new();
    s.set_input(" \t\n\u{3000}".to_string());
    assert!(s.input_is_empty());
    s.set_input("  ls ".to_string());
    assert!(!s.input_is_empty());
    assert_eq!(s.input(), "  ls ");
    s.clear_input();
    assert_eq!(s.input(), "");
}

#[test]
fn start_generating_records_the_message() {
    let mut s = AppState::new();
    s.set_input("list files".to_string());
    s.start_generating();
    assert_eq!(s.mode, AppMode::Generating);
    assert_eq!(texts(&s), vec!["user:list files"]);
    assert_eq!(s.input(), "");
}

#[test]
fn cancel_generation_undoes_start() {
    let mut s = AppState::new();
    s.events.push(ConversationEvent::Text { content: "earlier".to_string() });
    s.set_input("hello".to_string());
    s.start_generating();
    s.cancel_generation();
    assert_eq!(texts(&s), vec!["text:earlier"]);
    assert_eq!(s.mode, AppMode::Input);
    // nothing to withdraw when the last event is not a user message
    s.mode = AppMode::Generating;
    s.cancel_generation();
    assert_eq!(texts(&s), vec!["text:earlier"]);
}

#[test]
fn streaming_text_is_trimmed_concatenation() {
    let mut s = AppState::new();
    s.start_streaming();
    assert_eq!(s.mode, AppMode::Streaming);
    s.append_streaming_text("  \n ");
    assert_eq!(s.streaming_text, "");
    s.append_streaming_text("  Hello");
    s.append_streaming_text(" world ");
    s.append_streaming_text("\n");
    assert_eq!(s.streaming_text, "Hello world \n");
    s.finalize_streaming();
    assert_eq!(texts(&s), vec!["text:Hello world \n"]);
    assert_eq!(s.mode, AppMode::Review);
    assert_eq!(s.streaming_text, "");
    assert_eq!(s.streaming_status, None);
}

#[test]
fn finalize_without_text_adds_nothing() {
    let mut s = AppState::new();
    s.start_streaming();
    s.streaming_text = "   ".to_string();
    s.finalize_streaming();
    assert!(s.events.is_empty());
    assert_eq!(s.mode, AppMode::Review);
}

#[test]
fn cancel_streaming_preserves_context() {
    let mut s = AppState::new();
    s.start_streaming();
    s.update_streaming_status("searching");
    assert_eq!(s.streaming_status, Some(StreamingStatus::Searching));
    s.append_streaming_text("partial answer");
    s.confirmation_pending = true;
    s.cancel_streaming();
    assert_eq!(texts(&s), vec!["text:partial answer\n\n[User cancelled this generation]"]);
    assert!(s.was_interrupted);
    assert!(!s.confirmation_pending);
    assert_eq!(s.mode, AppMode::Input);
    assert_eq!(s.streaming_status, None);
    assert_eq!(s.streaming_text, "");
}

#[test]
fn cancel_streaming_without_text() {
    let mut s = AppState::new();
    s.start_streaming();
    s.cancel_streaming();
    assert!(s.events.is_empty());
    assert!(s.was_interrupted);
}

#[test]
fn tool_call_flushes_text_and_suggestion_enters_review() {
    let mut s = AppState::new();
    s.start_streaming();
    s.update_streaming_status("processing");
    s.append_streaming_text("Let me look.");
    s.add_tool_call("t1".into(), "search".into(), "{\"q\":\"x\"}".into());
    assert_eq!(texts(&s), vec!["text:Let me look.", "call:t1:search"]);
    assert_eq!(s.mode, AppMode::Streaming);
    assert_eq!(s.streaming_status, Some(StreamingStatus::Processing));
    s.add_tool_result("t1".into(), "found".into(), false);
    s.add_tool_call("t2".into(), "suggest_command".into(), "{\"command\":\"ls\"}".into());
    assert_eq!(s.mode, AppMode::Review);
    assert_eq!(s.streaming_status, None);
    assert_eq!(
        texts(&s),
        vec!["text:Let me look.", "call:t1:search", "result:t1", "call:t2:suggest_command"]
    );
}

#[test]
fn errors_retry_and_session() {
    let mut s = AppState::new();
    s.generation_error("boom".into());
    assert_eq!(s.mode, AppMode::Error);
    assert_eq!(s.error.as_deref(), Some("boom"));
    s.retry();
    assert_eq!(s.mode, AppMode::Generating);
    assert_eq!(s.error, None);
    s.start_streaming();
    s.append_streaming_text("abc");
    s.streaming_error("lost".into());
    assert_eq!(s.mode, AppMode::Error);
    assert_eq!(s.streaming_text, "");
    assert_eq!(s.error.as_deref(), Some("lost"));
    s.store_session_id("sess-1".into());
    assert_eq!(s.session_id.as_deref(), Some("sess-1"));
}

#[test]
fn edit_mode_resets_confirmation() {
    let mut s = AppState::new();
    s.mode = AppMode::Review;
    s.confirmation_pending = true;
    s.set_input("old".into());
    s.start_edit_mode();
    assert_eq!(s.mode, AppMode::Input);
    assert!(!s.confirmation_pending);
    assert_eq!(s.input(), "");
}

#[test]
fn exit_action_equality() {
    assert_eq!(ExitAction::Execute("ls".into()), ExitAction::Execute("ls".into()));
    assert_ne!(ExitAction::Execute("ls".into()), ExitAction::Insert("ls".into()));
}
