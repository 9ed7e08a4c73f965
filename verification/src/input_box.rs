//! The decisions of the bordered input box: its border titles, its size, and
//! what it does with a key press.

use vstd::prelude::*;
use vstd::string::*;

use crate::keys::{Key, KeyPress};
use crate::text::opt_view;

verus! {

/// The chrome of the bordered input box. The text area itself lives with the
/// terminal front end.
#[derive(Debug, Clone)]
pub struct InputBox {
    /// Title shown in top-left border
    pub title: String,
    /// Right-side label in top border
    pub title_right: String,
    /// Footer text shown in bottom border (keybinding hints)
    pub footer: String,
    /// Whether the input is currently active (shows cursor, accepts input)
    pub active: bool,
}

/// The texts set in the border of the input box.
#[derive(Debug, Clone, PartialEq, Eq)]
pub struct BlockTitles {
    pub top_left: Option<String>,
    pub top_right: Option<String>,
    pub bottom_right: Option<String>,
}

/// A label as it stands in the border: padded with a space on each side, and
/// left out when empty.
pub open spec fn border_label(s: Seq<char>) -> Option<Seq<char>> {
    if s.len() == 0 {
        None
    } else {
        Some(seq![' '] + s + seq![' '])
    }
}

/// A key of the text area.
#[derive(Debug, Clone, Copy, PartialEq, Eq, Structural)]
pub enum TextKey {
    Char(char),
    Backspace,
    Delete,
    Left,
    Right,
    Up,
    Down,
    Home,
    End,
    PageUp,
    PageDown,
    Tab,
    Enter,
}

/// An input of the text area: a key with its modifiers.
#[derive(Debug, Clone, Copy, PartialEq, Eq, Structural)]
pub struct TextInput {
    pub key: TextKey,
    pub ctrl: bool,
    pub alt: bool,
    pub shift: bool,
}

/// What the input box does with a key press.
#[derive(Debug, Clone, Copy, PartialEq, Eq, Structural)]
pub enum InputKeyAction {
    /// Not handled here; the application sees the key
    Ignored,
    /// Insert a line break (consumed)
    InsertNewline,
    /// Insert a character (consumed)
    InsertChar(char),
    /// Send the text to the application, clear the box, and let the
    /// application see the key
    Submit,
    /// Hand the input to the text area (consumed)
    Forward(TextInput),
}

/// The text-area key for a keyboard key, if it has one.
pub open spec fn text_key_of(k: Key) -> Option<TextKey> {
    match k {
        Key::Char(c) => Some(TextKey::Char(c)),
        Key::Backspace => Some(TextKey::Backspace),
        Key::Delete => Some(TextKey::Delete),
        Key::Left => Some(TextKey::Left),
        Key::Right => Some(TextKey::Right),
        Key::Up => Some(TextKey::Up),
        Key::Down => Some(TextKey::Down),
        Key::Home => Some(TextKey::Home),
        Key::End => Some(TextKey::End),
        Key::PageUp => Some(TextKey::PageUp),
        Key::PageDown => Some(TextKey::PageDown),
        Key::Tab => Some(TextKey::Tab),
        Key::Enter => Some(TextKey::Enter),
        _ => None,
    }
}

/// The text-area input for a key press, if the text area takes the key.
pub open spec fn text_input_of(k: KeyPress) -> Option<TextInput> {
    match text_key_of(k.code) {
        Some(key) => Some(TextInput { key, ctrl: k.ctrl, alt: k.alt, shift: k.shift }),
        None => None,
    }
}

/// Converts a key press to a text-area input.
pub fn textarea_input(key: &KeyPress) -> (r: Option<TextInput>)
    ensures
        r == text_input_of(*key),
{
    let k = match key.code {
        Key::Char(c) => TextKey::Char(c),
        Key::Backspace => TextKey::Backspace,
        Key::Delete => TextKey::Delete,
        Key::Left => TextKey::Left,
        Key::Right => TextKey::Right,
        Key::Up => TextKey::Up,
        Key::Down => TextKey::Down,
        Key::Home => TextKey::Home,
        Key::End => TextKey::End,
        Key::PageUp => TextKey::PageUp,
        Key::PageDown => TextKey::PageDown,
        Key::Tab => TextKey::Tab,
        Key::Enter => TextKey::Enter,
        _ => {
            return None;
        },
    };
    Some(TextInput { key: k, ctrl: key.ctrl, alt: key.alt, shift: key.shift })
}

/// What the input box does with a key press.
pub open spec fn key_action_of(active: bool, k: KeyPress) -> InputKeyAction {
    if !active || !k.press {
        InputKeyAction::Ignored
    } else if k.code == Key::Char('j') && k.ctrl {
        InputKeyAction::InsertNewline
    } else if k.code == Key::Enter {
        if k.shift {
            InputKeyAction::InsertChar('!')
        } else {
            InputKeyAction::Submit
        }
    } else if k.code == Key::Esc {
        InputKeyAction::Ignored
    } else {
        match text_input_of(k) {
            Some(i) => InputKeyAction::Forward(i),
            None => InputKeyAction::Ignored,
        }
    }
}

/// The lines of the text area joined by line breaks.
pub open spec fn joined_lines(lines: Seq<Seq<char>>) -> Seq<char>
    decreases lines.len(),
{
    if lines.len() == 0 {
        Seq::empty()
    } else if lines.len() == 1 {
        lines[0]
    } else {
        joined_lines(lines.drop_last()) + seq!['\n'] + lines.last()
    }
}

/// Joins the lines of the text area with line breaks (the submitted text).
pub fn join_lines(lines: &Vec<String>) -> (r: String)
    ensures
        r@ == joined_lines(lines@.map_values(|l: String| l@)),
{
    let ghost ls = lines@.map_values(|l: String| l@);
    let n = lines.len();
    let mut out = String::new();
    let mut i: usize = 0;
    assert(ls.take(0) =~= Seq::<Seq<char>>::empty());
    while i < n
        invariant
            i <= n,
            n == ls.len(),
            ls == lines@.map_values(|l: String| l@),
            out@ == joined_lines(ls.take(i as int)),
        decreases n - i,
    {
        assert(ls.take(i + 1).drop_last() =~= ls.take(i as int));
        assert(ls.take(i + 1).last() == lines@[i as int]@);
        if i > 0 {
            out.append("\n");
            proof {
                reveal_strlit("\n");
                assert("\n"@ =~= seq!['\n']);
            }
        } else {
            assert(out@ =~= Seq::<char>::empty());
        }
        let ghost before = out@;
        out.append(lines[i].as_str());
        if i == 0 {
            assert(out@ =~= lines@[0]@);
        }
        i = i + 1;
    }
    assert(ls.take(n as int) =~= ls);
    out
}

/// The rows the box asks for: three where it is too narrow to hold text,
/// else its border chrome plus the rows of its content.
pub open spec fn height_for(width: u16, chrome: u16, content_rows: u16) -> int {
    if width < 4 {
        3
    } else {
        chrome + content_rows
    }
}

impl InputBox {
    /// The border titles of the box.
    pub fn titles(&self) -> (r: BlockTitles)
        ensures
            opt_view(r.top_left) == border_label(self.title@),
            opt_view(r.top_right) == border_label(self.title_right@),
            opt_view(r.bottom_right) == border_label(self.footer@),
    {
        BlockTitles {
            top_left: padded_label(self.title.as_str()),
            top_right: padded_label(self.title_right.as_str()),
            bottom_right: padded_label(self.footer.as_str()),
        }
    }

    /// What the box does with a key press.
    pub fn key_action(&self, key: &KeyPress) -> (r: InputKeyAction)
        ensures
            r == key_action_of(self.active, *key),
    {
        if !self.active || !key.press {
            return InputKeyAction::Ignored;
        }
        if key.code == Key::Char('j') && key.ctrl {
            InputKeyAction::InsertNewline
        } else if key.code == Key::Enter {
            if key.shift {
                InputKeyAction::InsertChar('!')
            } else {
                InputKeyAction::Submit
            }
        } else if key.code == Key::Esc {
            InputKeyAction::Ignored
        } else {
            match textarea_input(key) {
                Some(i) => InputKeyAction::Forward(i),
                None => InputKeyAction::Ignored,
            }
        }
    }

    /// Whether the box can be drawn in an area of this size.
    pub fn can_render(width: u16, height: u16) -> (r: bool)
        ensures
            r == !(height < 3 || width < 4),
    {
        !(height < 3 || width < 4)
    }

    /// The width available to the text inside the border and padding, where
    /// the box is wide enough to hold any.
    pub fn text_width(width: u16) -> (r: Option<u16>)
        ensures
            r == (if width < 4 {
                None::<u16>
            } else {
                Some((width - 4) as u16)
            }),
    {
        if width < 4 {
            None
        } else {
            Some(width - 4)
        }
    }

    /// The height the box asks for.
    pub fn desired_height(width: u16, chrome: u16, content_rows: u16) -> (r: u16)
        requires
            width < 4 || chrome + content_rows <= u16::MAX,
        ensures
            r == height_for(width, chrome, content_rows),
    {
        if width < 4 {
            3
        } else {
            chrome + content_rows
        }
    }
}

/// A border label: the text padded with a space on each side, or nothing for
/// an empty text.
fn padded_label(s: &str) -> (r: Option<String>)
    ensures
        opt_view(r) == border_label(s@),
{
    if s.unicode_len() == 0 {
        None
    } else {
        let mut r = " ".to_owned();
        r.append(s);
        r.append(" ");
        proof {
            reveal_strlit(" ");
            assert(" "@ =~= seq![' ']);
        }
        Some(r)
    }
}

} // verus!
