use atuin_ai::input_box::{
    join_lines, textarea_input, BlockTitles, InputBox, InputKeyAction, TextInput, TextKey,
};
use atuin_ai::keys::{Key, KeyPress};

fn key(code: Key, ctrl: bool, shift: bool) -> KeyPress {
    KeyPress { code, ctrl, alt: false, shift, press: true }
}

fn active_box() -> InputBox {
    InputBox { title: "Ask".into(), title_right: "".into(), footer: "[Esc] Exit".into(), active: true }
}

#[test]
fn titles_are_padded_and_optional() {
    assert_eq!(
        active_box().titles(),
        BlockTitles { top_left: Some(" Ask ".into()), top_right: None, bottom_right: Some(" [Esc] Exit ".into()) }
    );
}

#[test]
fn key_actions() {
    let b = active_box();
    assert_eq!(b.key_action(&key(Key::Char('j'), true, false)), InputKeyAction::InsertNewline);
    assert_eq!(b.key_action(&key(Key::Enter, false, true)), InputKeyAction::InsertChar('!'));
    assert_eq!(b.key_action(&key(Key::Enter, false, false)), InputKeyAction::Submit);
    assert_eq!(b.key_action(&key(Key::Esc, false, false)), InputKeyAction::Ignored);
    assert_eq!(b.key_action(&key(Key::Other, false, false)), InputKeyAction::Ignored);
    assert_eq!(
        b.key_action(&key(Key::Char('j'), false, false)),
        InputKeyAction::Forward(TextInput { key: TextKey::Char('j'), ctrl: false, alt: false, shift: false })
    );
    let mut released = key(Key::Char('a'), false, false);
    released.press = false;
    assert_eq!(b.key_action(&released), InputKeyAction::Ignored);
    let inactive = InputBox { active: false, ..active_box() };
    assert_eq!(inactive.key_action(&key(Key::Enter, false, false)), InputKeyAction::Ignored);
}

#[test]
fn textarea_mapping() {
    assert_eq!(
        textarea_input(&key(Key::Left, true, false)),
        Some(TextInput { key: TextKey::Left, ctrl: true, alt: false, shift: false })
    );
    assert_eq!(textarea_input(&key(Key::Esc, false, false)), None);
    assert_eq!(textarea_input(&key(Key::Other, false, false)), None);
}

#[test]
fn sizes() {
    assert!(InputBox::can_render(4, 3));
    assert!(!InputBox::can_render(3, 10));
    assert!(!InputBox::can_render(10, 2));
    assert_eq!(InputBox::text_width(3), None);
    assert_eq!(InputBox::text_width(10), Some(6));
    assert_eq!(InputBox::desired_height(3, 2, 5), 3);
    assert_eq!(InputBox::desired_height(40, 2, 5), 7);
}

#[test]
fn joining_lines() {
    assert_eq!(join_lines(&vec![]), "");
    assert_eq!(join_lines(&vec!["a".to_string()]), "a");
    assert_eq!(join_lines(&vec!["a".to_string(), "".to_string(), "b".to_string()]), "a\n\nb");
}
