//! Keyboard input as the screens see it, and the two basic input widgets:
//! a yes/no choice and a one-line text entry.

use vstd::prelude::*;
use crate::navigation::{StringState, YesNoState};
use crate::text::{char_count, insert_char, remove_char, string_insert_char, string_remove_char};

verus! {

/// A key.
#[derive(Clone, Copy, Debug, PartialEq, Eq, Structural)]
pub enum KeyCode {
    Char(char),
    Enter,
    Esc,
    Tab,
    BackTab,
    Backspace,
    Delete,
    Left,
    Right,
    Up,
    Down,
    Home,
    End,
    PageUp,
    PageDown,
    Other,
}

/// The modifier keys held with a key.
#[derive(Clone, Copy, Debug, PartialEq, Eq, Structural)]
pub struct KeyModifiers {
    pub control: bool,
    pub alt: bool,
    pub super_key: bool,
    pub shift: bool,
}

/// Whether a key was pressed, repeated or released.
#[derive(Clone, Copy, Debug, PartialEq, Eq, Structural)]
pub enum KeyEventKind {
    Press,
    Repeat,
    Release,
}

/// One key event.
#[derive(Clone, Copy, Debug, PartialEq, Eq, Structural)]
pub struct KeyEvent {
    pub code: KeyCode,
    pub modifiers: KeyModifiers,
    pub kind: KeyEventKind,
}

/// Handles a key on a yes/no choice.
///
/// Left, Right and Tab switch the choice; `y`, or Enter on yes, answers yes;
/// `n`, or Enter on no, answers no; other keys do nothing.
pub fn handle_yes_no_input(state: &mut YesNoState, key_code: KeyCode) -> (r: Option<bool>)
    ensures
        (key_code == KeyCode::Left || key_code == KeyCode::Right || key_code == KeyCode::Tab)
            ==> final(state).selected == !old(state).selected && r is None,
        !(key_code == KeyCode::Left || key_code == KeyCode::Right || key_code == KeyCode::Tab)
            ==> *final(state) == *old(state) && r == (if key_code == KeyCode::Char('y') || (key_code
            == KeyCode::Enter && old(state).selected) {
            Some(true)
        } else if key_code == KeyCode::Char('n') || (key_code == KeyCode::Enter
            && !old(state).selected) {
            Some(false)
        } else {
            None
        }),
{
    if key_code == KeyCode::Left || key_code == KeyCode::Right || key_code == KeyCode::Tab {
        state.toggle();
        None
    } else if key_code == KeyCode::Char('y') || (key_code == KeyCode::Enter && state.is_yes()) {
        Some(true)
    } else if key_code == KeyCode::Char('n') || (key_code == KeyCode::Enter && state.is_no()) {
        Some(false)
    } else {
        None
    }
}

/// What a key does to a text entry's text and caret: a character is
/// inserted at the caret, Backspace removes the character before the caret,
/// Left and Right move the caret by one character within the text.
pub open spec fn text_after_key(text: Seq<char>, caret: int, key: KeyCode) -> (Seq<char>, int) {
    match key {
        KeyCode::Char(c) => (insert_char(text, caret, c), caret + 1),
        KeyCode::Backspace => if caret > 0 {
            (remove_char(text, caret - 1), caret - 1)
        } else {
            (text, caret)
        },
        KeyCode::Left => if caret > 0 {
            (text, caret - 1)
        } else {
            (text, caret)
        },
        KeyCode::Right => if caret < text.len() {
            (text, caret + 1)
        } else {
            (text, caret)
        },
        _ => (text, caret),
    }
}

/// Handles a key on a text entry; Enter submits and returns the text.
pub fn handle_text_input(state: &mut StringState, key_code: KeyCode) -> (r: Option<String>)
    requires
        old(state).caret_position <= old(state).text@.len(),
        old(state).text@.len() < usize::MAX,
    ensures
        final(state).text@ == text_after_key(
            old(state).text@,
            old(state).caret_position as int,
            key_code,
        ).0,
        final(state).caret_position as int == text_after_key(
            old(state).text@,
            old(state).caret_position as int,
            key_code,
        ).1,
        final(state).caret_position <= final(state).text@.len(),
        final(state).is_visible == old(state).is_visible,
        final(state).error == old(state).error,
        r == (if key_code == KeyCode::Enter {
            Some(old(state).text)
        } else {
            None
        }),
{
    match key_code {
        KeyCode::Char(c) => {
            let text = string_insert_char(&state.text, state.caret_position, c);
            state.set_text(text);
            state.caret_position = state.caret_position + 1;
            None
        },
        KeyCode::Backspace => {
            if state.caret_position > 0 {
                let text = string_remove_char(&state.text, state.caret_position - 1);
                state.set_text(text);
                state.caret_position = state.caret_position - 1;
            }
            None
        },
        KeyCode::Enter => Some(state.text.clone()),
        KeyCode::Left => {
            if state.caret_position > 0 {
                state.caret_position = state.caret_position - 1;
            }
            None
        },
        KeyCode::Right => {
            if state.caret_position < char_count(&state.text) {
                state.caret_position = state.caret_position + 1;
            }
            None
        },
        _ => None,
    }
}

/// The text of an entry after a key: as `text_after_key` says, except that
/// an entry already as long as a `usize` can count takes no more keys.
pub open spec fn entry_text_after_key(text: Seq<char>, caret: int, key: KeyCode) -> Seq<char> {
    if text.len() < usize::MAX {
        text_after_key(text, caret, key).0
    } else {
        text
    }
}

/// Edits a text entry with a key (Enter included, which changes nothing);
/// the caret stays within the text.
pub fn edit_entry(state: &mut StringState, key_code: KeyCode)
    requires
        old(state).caret_position <= old(state).text@.len(),
    ensures
        final(state).caret_position <= final(state).text@.len(),
        final(state).text@ == entry_text_after_key(old(state).text@, old(state).caret_position as int, key_code),
        old(state).text@.len() < usize::MAX ==> final(state).caret_position as int == text_after_key(
            old(state).text@,
            old(state).caret_position as int,
            key_code,
        ).1,
        final(state).is_visible == old(state).is_visible,
        final(state).error == old(state).error,
{
    if char_count(&state.text) < usize::MAX {
        let _ = handle_text_input(state, key_code);
    }
}

} // verus!
