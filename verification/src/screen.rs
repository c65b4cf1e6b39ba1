//! The start-up screens' states: a yes/no choice and a text entry that can
//! hide what is typed.

use vstd::prelude::*;
use crate::text::{byte_len, concat_str, repeat_char, repeated, str_byte_len};

verus! {

/// Which start-up screen is shown.
pub enum Screen {
    OnboardingWantsEncryption { state: YesNoState },
    OnboardingWantsPassphrase { state: StringState },
    AskingPassphrase { state: StringState },
    Dashboard,
}

/// A choice between yes (`selected`) and no.
#[derive(Clone, Copy, Debug, PartialEq, Eq, Structural)]
pub struct YesNoState {
    pub selected: bool,
}

impl YesNoState {
    /// A choice that starts on yes.
    pub fn new() -> (r: Self)
        ensures
            r.selected,
    {
        YesNoState { selected: true }
    }

    /// Switches between yes and no.
    pub fn toggle(&mut self)
        ensures
            final(self).selected == !old(self).selected,
    {
        self.selected = !self.selected;
    }

    /// Chooses yes (`true`) or no.
    pub fn set(&mut self, value: bool)
        ensures
            final(self).selected == value,
    {
        self.selected = value;
    }

    /// Whether yes is chosen.
    pub fn is_yes(&self) -> (r: bool)
        ensures
            r == self.selected,
    {
        self.selected
    }

    /// Whether no is chosen.
    pub fn is_no(&self) -> (r: bool)
        ensures
            r == !self.selected,
    {
        !self.selected
    }
}

/// A text entry; a hidden entry shows one `*` per byte of its text.
#[derive(Clone, Debug)]
pub struct StringState {
    pub is_visible: bool,
    pub text: String,
    pub caret_position: usize,
}

/// What an entry shows: its text (or the stars that hide it) and a space
/// for the caret.
pub open spec fn shown_text(visible: bool, text: Seq<char>) -> Seq<char> {
    if visible {
        text + " "@
    } else {
        repeated('*', (byte_len(text) as usize) as nat) + " "@
    }
}

impl StringState {
    /// An empty entry that shows its text.
    pub fn visible() -> (r: Self)
        ensures
            r.is_visible,
            r.text@.len() == 0,
            r.caret_position == 0,
    {
        StringState { is_visible: true, text: String::new(), caret_position: 0 }
    }

    /// An empty entry that hides its text.
    pub fn invisible() -> (r: Self)
        ensures
            !r.is_visible,
            r.text@.len() == 0,
            r.caret_position == 0,
    {
        StringState { is_visible: false, text: String::new(), caret_position: 0 }
    }

    /// Replaces the text, leaving the caret where it is.
    pub fn set_text(&mut self, text: String)
        ensures
            final(self).text == text,
            final(self).is_visible == old(self).is_visible,
            final(self).caret_position == old(self).caret_position,
    {
        self.text = text;
    }

    /// Switches between showing and hiding the text.
    pub fn toggle_visibility(&mut self)
        ensures
            final(self).is_visible == !old(self).is_visible,
            final(self).text == old(self).text,
            final(self).caret_position == old(self).caret_position,
    {
        self.is_visible = !self.is_visible;
    }

    /// What the entry shows, followed by one space.
    pub fn visible_text(self) -> (r: String)
        ensures
            r@ == shown_text(self.is_visible, self.text@),
    {
        let shown = if self.is_visible {
            self.text.clone()
        } else {
            repeat_char('*', str_byte_len(self.text.as_str()))
        };
        concat_str(shown.as_str(), " ")
    }
}

/// Toggling a choice twice gives it back.
pub proof fn toggle_twice_restores(s: YesNoState, once: YesNoState, twice: YesNoState)
    requires
        once.selected == !s.selected,
        twice.selected == !once.selected,
    ensures
        twice == s,
{
}

} // verus!
