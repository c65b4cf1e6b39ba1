//! Keys on the SSH page: what bytes a key sends to the remote shell, how
//! the scrollback moves, and what keys do while a session starts or asks to
//! trust a host key.

use vstd::prelude::*;
use crate::input::{handle_yes_no_input, KeyCode, KeyEvent};
use crate::navigation::YesNoState;
use crate::text::push_char;

verus! {

/// The border the dashboard draws around the shell, in cells.
pub const DASHBOARD_SHELL_BORDER: u16 = 2;

/// The least number of lines one scrollback page moves.
pub const SCROLLBACK_STEP_MIN: usize = 8;

/// The size of the shell inside the dashboard for a terminal of `cols` by
/// `rows`: the border taken off, at least one cell each way.
pub fn dashboard_ssh_viewport_size_from_terminal(cols: u16, rows: u16) -> (r: (u16, u16))
    ensures
        r.0 == (if cols > DASHBOARD_SHELL_BORDER + 1 { cols - DASHBOARD_SHELL_BORDER } else { 1 }),
        r.1 == (if rows > DASHBOARD_SHELL_BORDER + 1 { rows - DASHBOARD_SHELL_BORDER } else { 1 }),
{
    let c = cols.saturating_sub(DASHBOARD_SHELL_BORDER);
    let r = rows.saturating_sub(DASHBOARD_SHELL_BORDER);
    (if c > 1 { c } else { 1 }, if r > 1 { r } else { 1 })
}

/// Whether a character is an ASCII letter.
pub open spec fn is_ascii_letter(c: char) -> bool {
    ('a' <= c && c <= 'z') || ('A' <= c && c <= 'Z')
}

/// The control byte Ctrl and a letter send: 1 for `a`, 26 for `z`.
pub open spec fn control_byte(c: char) -> u8 {
    (crate::text::lower_char(c) as u32 - 'a' as u32 + 1) as u8
}

/// The bytes a key sends to the remote shell, if any.
pub open spec fn key_bytes_spec(key: KeyEvent) -> Option<Seq<u8>> {
    if key.modifiers.control && key.code is Char && is_ascii_letter(key.code->Char_0) {
        Some(seq![control_byte(key.code->Char_0)])
    } else {
        match key.code {
            KeyCode::Enter => Some(seq![13u8]),
            KeyCode::Tab => Some(seq![9u8]),
            KeyCode::Backspace => if key.modifiers.control { Some(seq![0x17u8]) } else { Some(seq![0x7fu8]) },
            KeyCode::Char(c) => Some(vstd::utf8::encode_utf8(seq![c])),
            KeyCode::Up => Some(seq![0x1bu8, 0x5bu8, 0x41u8]),
            KeyCode::Down => Some(seq![0x1bu8, 0x5bu8, 0x42u8]),
            KeyCode::Right => Some(seq![0x1bu8, 0x5bu8, 0x43u8]),
            KeyCode::Left => Some(seq![0x1bu8, 0x5bu8, 0x44u8]),
            _ => None,
        }
    }
}

/// The bytes a key sends to the remote shell: Ctrl with a letter sends its
/// control byte; Enter, Tab, Backspace (Ctrl+Backspace deletes a word) and
/// the arrows send their terminal codes; a character sends its UTF-8 bytes.
pub fn key_to_bytes(key: KeyEvent) -> (r: Option<Vec<u8>>)
    ensures
        match (r, key_bytes_spec(key)) {
            (Some(v), Some(s)) => v@ == s,
            (None, None) => true,
            _ => false,
        },
{
    if key.modifiers.control {
        if let KeyCode::Char(c) = key.code {
            if ('a' <= c && c <= 'z') || ('A' <= c && c <= 'Z') {
                let lower = crate::text::lower_ascii(c);
                let v: u8 = (lower as u8) - 97 + 1;
                return Some(vec![v]);
            }
        }
    }
    match key.code {
        KeyCode::Enter => Some(vec![13u8]),
        KeyCode::Tab => Some(vec![9u8]),
        KeyCode::Backspace => if key.modifiers.control { Some(vec![0x17u8]) } else { Some(vec![0x7fu8]) },
        KeyCode::Char(c) => {
            let mut s = String::new();
            push_char(&mut s, c);
            let bytes = vstd::slice::slice_to_vec(s.as_str().as_bytes());
            Some(bytes)
        },
        KeyCode::Up => Some(vec![0x1bu8, 0x5bu8, 0x41u8]),
        KeyCode::Down => Some(vec![0x1bu8, 0x5bu8, 0x42u8]),
        KeyCode::Right => Some(vec![0x1bu8, 0x5bu8, 0x43u8]),
        KeyCode::Left => Some(vec![0x1bu8, 0x5bu8, 0x44u8]),
        _ => None,
    }
}

/// The number of lines a scrollback page moves for a shell of `rows`
/// lines: one less than the rows, but at least eight.
pub open spec fn scroll_page(rows: u16) -> int {
    let r = if rows >= 1 { rows as int } else { 1 };
    if r - 1 > SCROLLBACK_STEP_MIN { r - 1 } else { SCROLLBACK_STEP_MIN as int }
}

/// Where a scrollback key takes the scrollback offset (lines above the
/// bottom): PageUp and PageDown move it by a page, Home goes to the top,
/// End to the bottom; other keys are not scrollback keys.
pub open spec fn scrollback_spec(current: usize, rows: u16, code: KeyCode) -> Option<usize> {
    let page = scroll_page(rows);
    match code {
        KeyCode::PageUp => Some(if current + page > usize::MAX { usize::MAX } else { (current + page) as usize }),
        KeyCode::PageDown => Some(if current < page { 0 } else { (current - page) as usize }),
        KeyCode::Home => Some(usize::MAX),
        KeyCode::End => Some(0),
        _ => None,
    }
}

/// Where a scrollback key takes the scrollback offset.
pub fn scrollback_after_key(current: usize, rows: u16, code: KeyCode) -> (r: Option<usize>)
    ensures
        r == scrollback_spec(current, rows, code),
{
    let r: usize = if rows >= 1 { rows as usize } else { 1 };
    let page = if r - 1 > SCROLLBACK_STEP_MIN { r - 1 } else { SCROLLBACK_STEP_MIN };
    match code {
        KeyCode::PageUp => Some(current.saturating_add(page)),
        KeyCode::PageDown => Some(current.saturating_sub(page)),
        KeyCode::Home => Some(usize::MAX),
        KeyCode::End => Some(0),
        _ => None,
    }
}

/// The phase of an SSH tab, as far as keys care.
#[derive(Clone, Copy, Debug, PartialEq, Eq, Structural)]
pub enum SessionPhaseKind {
    Starting,
    TrustPrompt,
    Running,
}

/// What a key on the SSH page does to its session.
#[derive(Clone, Debug)]
pub enum SshKeyAction {
    /// Nothing.
    Nothing,
    /// The start is cancelled and the tab closes with this status.
    Cancel(String),
    /// The presented host key is trusted and the session starts again.
    Trust,
    /// The running session is asked to disconnect.
    Disconnect,
    /// The scrollback moves to this offset.
    Scroll(usize),
    /// These bytes go to the remote shell (the view returns to the bottom).
    Send(Vec<u8>),
}

/// The status of a start cancelled with Esc.
pub open spec fn canceled_status() -> Seq<char> {
    "Connection canceled"@
}

/// The status of a start whose host key was not trusted.
pub open spec fn untrusted_status() -> Seq<char> {
    "Connection canceled: host key not trusted"@
}

/// What handling a key on the SSH page does, for a session in `phase`
/// whose trust choice goes from `before` to `after`: see `ssh_page_key`.
pub open spec fn page_key_outcome(
    phase: SessionPhaseKind,
    before: YesNoState,
    after: YesNoState,
    scrollback: usize,
    rows: u16,
    key: KeyEvent,
    r: SshKeyAction,
) -> bool {
    &&& (phase != SessionPhaseKind::TrustPrompt ==> after == before)
    &&& (phase == SessionPhaseKind::Starting ==> if key.code == KeyCode::Esc {
        r matches SshKeyAction::Cancel(s) && s@ == canceled_status()
    } else {
        r is Nothing
    })
    &&& (phase == SessionPhaseKind::TrustPrompt ==> if key.code == KeyCode::Esc {
        after == before && (r matches SshKeyAction::Cancel(s) && s@ == untrusted_status())
    } else {
        let toggles = key.code == KeyCode::Left || key.code == KeyCode::Right || key.code == KeyCode::Tab;
        let yes = key.code == KeyCode::Char('y') || (key.code == KeyCode::Enter && before.selected);
        let no = key.code == KeyCode::Char('n') || (key.code == KeyCode::Enter && !before.selected);
        &&& after.selected == (if toggles { !before.selected } else { before.selected })
        &&& if toggles {
            r is Nothing
        } else if yes {
            r is Trust
        } else if no {
            r matches SshKeyAction::Cancel(s) && s@ == untrusted_status()
        } else {
            r is Nothing
        }
    })
    &&& (phase == SessionPhaseKind::Running ==> if key.code == KeyCode::Esc {
        r is Disconnect
    } else if scrollback_spec(scrollback, rows, key.code) is Some {
        r == SshKeyAction::Scroll(scrollback_spec(scrollback, rows, key.code)->0)
    } else {
        match key_bytes_spec(key) {
            Some(b) => r matches SshKeyAction::Send(v) && v@ == b,
            None => r is Nothing,
        }
    })
}

/// Handles a key on the SSH page. While starting, Esc cancels. On the
/// trust prompt, Esc or no cancels and yes trusts the key. While running,
/// Esc disconnects, scrollback keys scroll, and other keys send their bytes.
pub fn ssh_page_key(phase: SessionPhaseKind, choice: &mut YesNoState, scrollback: usize, rows: u16, key: KeyEvent) -> (r: SshKeyAction)
    ensures
        page_key_outcome(phase, *old(choice), *final(choice), scrollback, rows, key, r),
{
    match phase {
        SessionPhaseKind::Starting => {
            if key.code == KeyCode::Esc {
                SshKeyAction::Cancel("Connection canceled".to_string())
            } else {
                SshKeyAction::Nothing
            }
        },
        SessionPhaseKind::TrustPrompt => {
            if key.code == KeyCode::Esc {
                return SshKeyAction::Cancel("Connection canceled: host key not trusted".to_string());
            }
            match handle_yes_no_input(choice, key.code) {
                Some(true) => SshKeyAction::Trust,
                Some(false) => SshKeyAction::Cancel("Connection canceled: host key not trusted".to_string()),
                None => SshKeyAction::Nothing,
            }
        },
        SessionPhaseKind::Running => {
            if key.code == KeyCode::Esc {
                return SshKeyAction::Disconnect;
            }
            match scrollback_after_key(scrollback, rows, key.code) {
                Some(s) => SshKeyAction::Scroll(s),
                None => match key_to_bytes(key) {
                    Some(b) => SshKeyAction::Send(b),
                    None => SshKeyAction::Nothing,
                },
            }
        },
    }
}

/// Only the user trusts a server's key: a key on the SSH page trusts the
/// presented key only on the trust prompt, and only when it is `y`, or
/// Enter while yes is chosen.
pub proof fn trust_needs_a_yes(
    phase: SessionPhaseKind,
    before: YesNoState,
    after: YesNoState,
    scrollback: usize,
    rows: u16,
    key: KeyEvent,
    r: SshKeyAction,
)
    requires
        page_key_outcome(phase, before, after, scrollback, rows, key, r),
        r is Trust,
    ensures
        phase == SessionPhaseKind::TrustPrompt,
        key.code == KeyCode::Char('y') || (key.code == KeyCode::Enter && before.selected),
{
}

} // verus!
