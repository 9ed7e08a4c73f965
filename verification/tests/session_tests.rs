use atuin_ai::keys::{Key, KeyPress};
use atuin_ai::messages::ApiMessage;
use atuin_ai::session::{
    action_for_exit, disabled_action, handle_key, login_choice, shell_result_line, Action, LoopAction,
};
use atuin_ai::state::{AppMode, AppState, ConversationEvent, ExitAction};

fn press(code: Key) -> KeyPress {
    KeyPress { code, ctrl: false, alt: false, shift: false, press: true }
}

fn ctrl(c: char) -> KeyPress {
    KeyPress { code: Key::Char(c), ctrl: true, alt: false, shift: false, press: true }
}

fn review_with(input: &str) -> AppState {
    let mut s = AppState::new();
    s.mode = AppMode::Review;
    s.events.push(ConversationEvent::ToolCall {
        id: "1".into(),
        name: "suggest_command".into(),
        input: input.into(),
    });
    s
}

#[test]
fn ctrl_c_exits_from_every_mode() {
    for mode in [AppMode::Input, AppMode::Generating, AppMode::Streaming, AppMode::Review, AppMode::Error] {
        let mut s = AppState::new();
        s.mode = mode;
        assert!(matches!(handle_key(&mut s, &ctrl('c')), LoopAction::Exit));
        assert_eq!(s.exit_action, Some(ExitAction::Cancel));
        assert!(s.exiting);
    }
}

#[test]
fn releases_are_ignored() {
    let mut s = AppState::new();
    let mut k = ctrl('c');
    k.press = false;
    assert!(matches!(handle_key(&mut s, &k), LoopAction::Continue));
    assert!(!s.exiting);
}

#[test]
fn enter_sends_the_input() {
    let mut s = AppState::new();
    s.session_id = Some("sid".into());
    s.set_input("list files".into());
    match handle_key(&mut s, &press(Key::Enter)) {
        LoopAction::StartStream { messages, session_id } => {
            assert_eq!(session_id.as_deref(), Some("sid"));
            assert_eq!(messages.len(), 1);
            assert!(matches!(&messages[0], ApiMessage::UserText { content } if content == "list files"));
        }
        other => panic!("unexpected {other:?}"),
    }
    assert_eq!(s.mode, AppMode::Streaming);
    assert_eq!(s.input(), "");
}

#[test]
fn enter_on_blank_input_exits() {
    let mut s = AppState::new();
    s.set_input("   ".into());
    assert!(matches!(handle_key(&mut s, &press(Key::Enter)), LoopAction::Exit));
    assert_eq!(s.exit_action, Some(ExitAction::Cancel));
    let mut s = AppState::new();
    assert!(matches!(handle_key(&mut s, &press(Key::Esc)), LoopAction::Exit));
    let mut s = AppState::new();
    assert!(matches!(handle_key(&mut s, &press(Key::Char('x'))), LoopAction::Continue));
}

#[test]
fn esc_while_streaming_interrupts_and_keeps_message() {
    let mut s = AppState::new();
    s.set_input("question".into());
    let _ = handle_key(&mut s, &press(Key::Enter));
    s.append_streaming_text("half an");
    assert!(matches!(handle_key(&mut s, &press(Key::Esc)), LoopAction::AbortStream));
    assert_eq!(s.mode, AppMode::Input);
    assert!(s.was_interrupted);
    assert_eq!(s.events.len(), 2);
}

#[test]
fn esc_while_generating_withdraws_message() {
    let mut s = AppState::new();
    s.set_input("question".into());
    s.start_generating();
    assert!(matches!(handle_key(&mut s, &press(Key::Esc)), LoopAction::AbortStream));
    assert!(s.events.is_empty());
    assert_eq!(s.mode, AppMode::Input);
}

#[test]
fn dangerous_command_asks_for_confirmation() {
    let mut s = review_with(r#"{"command":"rm -rf /tmp/x","danger":"high"}"#);
    assert!(matches!(handle_key(&mut s, &press(Key::Enter)), LoopAction::Continue));
    assert!(s.confirmation_pending);
    assert!(!s.exiting);
    assert!(matches!(handle_key(&mut s, &press(Key::Enter)), LoopAction::Exit));
    assert_eq!(s.exit_action, Some(ExitAction::Execute("rm -rf /tmp/x".into())));
    assert!(!s.confirmation_pending);
}

#[test]
fn safe_command_executes_at_once() {
    let mut s = review_with(r#"{"command":"ls","danger":"low"}"#);
    assert!(matches!(handle_key(&mut s, &press(Key::Enter)), LoopAction::Exit));
    assert_eq!(s.exit_action, Some(ExitAction::Execute("ls".into())));
}

#[test]
fn tab_inserts_and_f_follows_up() {
    let mut s = review_with(r#"{"command":"ls","danger":"high"}"#);
    assert!(matches!(handle_key(&mut s, &press(Key::Tab)), LoopAction::Exit));
    assert_eq!(s.exit_action, Some(ExitAction::Insert("ls".into())));
    let mut s = review_with(r#"{"command":"ls"}"#);
    s.confirmation_pending = true;
    assert!(matches!(handle_key(&mut s, &press(Key::Char('f'))), LoopAction::Continue));
    assert_eq!(s.mode, AppMode::Input);
    assert!(!s.confirmation_pending);
    let mut s = review_with(r#"{"danger":"high"}"#);
    assert!(matches!(handle_key(&mut s, &press(Key::Enter)), LoopAction::Continue));
    assert!(matches!(handle_key(&mut s, &press(Key::Tab)), LoopAction::Continue));
    assert!(matches!(handle_key(&mut s, &press(Key::Esc)), LoopAction::Exit));
    assert_eq!(s.exit_action, Some(ExitAction::Cancel));
}

#[test]
fn retry_after_error() {
    let mut s = AppState::new();
    s.events.push(ConversationEvent::UserMessage { content: "q".into() });
    s.generation_error("e".into());
    match handle_key(&mut s, &press(Key::Char('r'))) {
        LoopAction::StartStream { messages, session_id } => {
            assert_eq!(messages.len(), 1);
            assert_eq!(session_id, None);
        }
        other => panic!("unexpected {other:?}"),
    }
    assert_eq!(s.mode, AppMode::Streaming);
    assert_eq!(s.error, None);
    s.mode = AppMode::Error;
    assert!(matches!(handle_key(&mut s, &press(Key::Esc)), LoopAction::Exit));
}

#[test]
fn exit_actions_and_shell_lines() {
    assert_eq!(action_for_exit(&Some(ExitAction::Execute("ls".into()))), Action::Execute("ls".into()));
    assert_eq!(action_for_exit(&Some(ExitAction::Insert("ls".into()))), Action::Insert("ls".into()));
    assert_eq!(action_for_exit(&Some(ExitAction::Cancel)), Action::Cancel);
    assert_eq!(action_for_exit(&None), Action::Cancel);
    assert_eq!(shell_result_line(&Action::Execute("ls".into()), true), "__atuin_ai_execute__:ls");
    assert_eq!(shell_result_line(&Action::Insert("ls".into()), true), "__atuin_ai_insert__:ls");
    assert_eq!(shell_result_line(&Action::Print("hi".into()), true), "__atuin_ai_print__:hi");
    assert_eq!(shell_result_line(&Action::Cancel, true), "__atuin_ai_cancel__");
    assert_eq!(shell_result_line(&Action::Execute("ls".into()), false), "ls");
    assert_eq!(shell_result_line(&Action::Cancel, false), "");
}

#[test]
fn disabled_assistant_prints_notice() {
    let notice =
        "Atuin AI is not enabled. Please enable it in your settings or run `atuin setup`.".to_string();
    assert_eq!(disabled_action(None), Some(Action::Print(notice.clone())));
    assert_eq!(disabled_action(Some(false)), Some(Action::Print(notice)));
    assert_eq!(disabled_action(Some(true)), None);
}

#[test]
fn login_prompt_keys() {
    assert_eq!(login_choice(Key::Enter), Some(true));
    assert_eq!(login_choice(Key::Esc), Some(false));
    assert_eq!(login_choice(Key::Char('y')), None);
}

#[test]
fn evicting_oldest_event() {
    let mut s = AppState::new();
    s.evict_oldest_event();
    assert!(s.events.is_empty());
    s.events.push(ConversationEvent::Text { content: "a".into() });
    s.events.push(ConversationEvent::Text { content: "b".into() });
    s.evict_oldest_event();
    assert_eq!(s.events.len(), 1);
    assert!(matches!(&s.events[0], ConversationEvent::Text { content } if content == "b"));
}
