use atuin_ai::queries::is_elevated_danger;
use atuin_ai::state::{AppMode, AppState, ConversationEvent};

fn call(id: &str, name: &str, input: &str) -> ConversationEvent {
    ConversationEvent::ToolCall { id: id.into(), name: name.into(), input: input.into() }
}

fn user(text: &str) -> ConversationEvent {
    ConversationEvent::UserMessage { content: text.into() }
}

fn result(id: &str) -> ConversationEvent {
    ConversationEvent::ToolResult { tool_use_id: id.into(), content: "ok".into(), is_error: false }
}

#[test]
fn as_command_reads_suggestions_only() {
    let e = call("1", "suggest_command", r#"{"command":"ls -la","danger":"low"}"#);
    assert_eq!(e.as_command().as_deref(), Some("ls -la"));
    let other = call("2", "search", r#"{"command":"ls"}"#);
    assert_eq!(other.as_command(), None);
    let no_cmd = call("3", "suggest_command", r#"{"danger":"high"}"#);
    assert_eq!(no_cmd.as_command(), None);
    let not_string = call("4", "suggest_command", r#"{"command":42}"#);
    assert_eq!(not_string.as_command(), None);
    let broken = call("5", "suggest_command", "not json");
    assert_eq!(broken.as_command(), None);
    assert_eq!(user("ls").as_command(), None);
}

#[test]
fn current_command_is_the_latest() {
    let mut s = AppState::new();
    assert_eq!(s.current_command(), None);
    s.events.push(call("1", "suggest_command", r#"{"command":"first"}"#));
    s.events.push(user("again"));
    s.events.push(call("2", "suggest_command", r#"{"command":"second"}"#));
    s.events.push(call("3", "suggest_command", r#"{"danger":"high"}"#));
    assert_eq!(s.current_command().as_deref(), Some("second"));
}

#[test]
fn danger_of_latest_suggestion() {
    let mut s = AppState::new();
    assert!(!s.is_current_command_dangerous());
    s.events.push(call("1", "suggest_command", r#"{"command":"rm -rf /","danger":"high"}"#));
    assert!(s.is_current_command_dangerous());
    s.events.push(call("2", "suggest_command", r#"{"command":"ls","danger":"med"}"#));
    assert!(s.is_current_command_dangerous());
    s.events.push(call("3", "suggest_command", r#"{"command":"ls","danger":"medium"}"#));
    assert!(s.is_current_command_dangerous());
    s.events.push(call("4", "suggest_command", r#"{"command":"ls"}"#));
    assert!(!s.is_current_command_dangerous());
    // the latest suggestion decides even when it has no command
    s.events.push(call("5", "suggest_command", r#"{"danger":"high"}"#));
    assert!(s.is_current_command_dangerous());
    s.events.push(call("6", "search", r#"{"danger":"low"}"#));
    assert!(s.is_current_command_dangerous());
}

#[test]
fn elevated_levels() {
    assert!(is_elevated_danger("high"));
    assert!(is_elevated_danger("medium"));
    assert!(is_elevated_danger("med"));
    assert!(!is_elevated_danger("low"));
    assert!(!is_elevated_danger("HIGH"));
}

#[test]
fn tool_count_since_last_user() {
    let mut s = AppState::new();
    assert_eq!(s.tool_count_since_last_user(), 0);
    s.events.push(call("a", "search", "{}"));
    s.events.push(result("a"));
    s.events.push(user("next"));
    assert_eq!(s.tool_count_since_last_user(), 0);
    s.events.push(call("b", "read", "{}"));
    // a call still waiting for its result counts
    assert_eq!(s.tool_count_since_last_user(), 1);
    s.events.push(call("c", "read", "{}"));
    assert_eq!(s.tool_count_since_last_user(), 2);
    s.events.push(result("c"));
    assert_eq!(s.tool_count_since_last_user(), 2);
    s.events.push(call("d", "suggest_command", r#"{"command":"ls"}"#));
    assert_eq!(s.tool_count_since_last_user(), 2);
}

#[test]
fn tool_count_without_user_counts_from_start() {
    let mut s = AppState::new();
    s.events.push(call("a", "search", "{}"));
    s.events.push(result("a"));
    s.events.push(call("b", "search", "{}"));
    assert_eq!(s.tool_count_since_last_user(), 2);
}

#[test]
fn any_command_and_footer() {
    let mut s = AppState::new();
    assert_eq!(s.footer_text(), "[Enter] Send  [Esc] Exit");
    s.mode = AppMode::Generating;
    assert_eq!(s.footer_text(), "[Esc] Cancel");
    s.mode = AppMode::Streaming;
    assert_eq!(s.footer_text(), "[Esc] Cancel");
    s.mode = AppMode::Error;
    assert_eq!(s.footer_text(), "[Enter]/[r] Retry  [Esc] Exit");
    s.mode = AppMode::Review;
    assert!(!s.has_any_command());
    assert_eq!(s.footer_text(), "[f] Follow-up  [Esc] Exit");
    s.events.push(call("1", "suggest_command", r#"{"command":"ls"}"#));
    s.events.push(user("more"));
    assert!(s.has_any_command());
    assert_eq!(s.footer_text(), "[Enter] Execute  [Tab] Insert  [f] Follow-up  [Esc] Exit");
    s.confirmation_pending = true;
    assert_eq!(s.footer_text(), "[Enter] Confirm dangerous command  [Esc] Cancel");
}

#[test]
fn preview_and_error_display() {
    let mut s = AppState::new();
    assert_eq!(s.streaming_preview(), None);
    assert_eq!(s.error_display(), None);
    s.start_streaming();
    assert_eq!(s.streaming_preview(), None);
    s.append_streaming_text("partial");
    assert_eq!(s.streaming_preview().as_deref(), Some("partial"));
    s.streaming_error("broken".into());
    assert_eq!(s.streaming_preview(), None);
    assert_eq!(s.error_display().as_deref(), Some("broken"));
    s.retry();
    assert_eq!(s.error_display(), None);
}

#[test]
fn any_command_agrees_with_current_command() {
    let mut s = AppState::new();
    assert_eq!(s.has_any_command(), s.current_command().is_some());
    s.events.push(call("1", "suggest_command", r#"{"danger":"high"}"#));
    assert_eq!(s.has_any_command(), s.current_command().is_some());
    s.events.push(call("2", "suggest_command", r#"{"command":"ls"}"#));
    s.events.push(call("3", "suggest_command", r#"{"danger":"low"}"#));
    assert!(s.has_any_command() && s.current_command().is_some());
}
