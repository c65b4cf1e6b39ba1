//! Which part of the program a key goes to: the event loop's filter and
//! the exit key, and on the dashboard the open dialog or the page.

use vstd::prelude::*;
use crate::input::{KeyCode, KeyEvent, KeyEventKind};
use crate::navigation::DashboardPage;

verus! {

/// What the event loop does with a key.
#[derive(Clone, Copy, Debug, PartialEq, Eq, Structural)]
pub enum LoopKey {
    /// The key is dropped.
    Ignore,
    /// Esc where it asks to exit (a second one exits).
    ExitKey,
    /// The key goes to the current screen.
    ToScreen,
}

/// What the event loop does with a key: presses and repeats go on, and
/// releases only while the quick switcher is open (it acts when Ctrl is let
/// go); Esc exits unless an SSH page or a dialog is in front.
pub fn loop_key(key: KeyEvent, ssh_page: bool, dialog_open: bool, switcher_open: bool) -> (r: LoopKey)
    ensures
        r == (if !(key.kind == KeyEventKind::Press || key.kind == KeyEventKind::Repeat)
            && !(key.kind == KeyEventKind::Release && switcher_open) {
            LoopKey::Ignore
        } else if key.code == KeyCode::Esc && !ssh_page && !dialog_open {
            LoopKey::ExitKey
        } else {
            LoopKey::ToScreen
        }),
{
    let press = key.kind == KeyEventKind::Press || key.kind == KeyEventKind::Repeat;
    let switcher_release = key.kind == KeyEventKind::Release && switcher_open;
    if !press && !switcher_release {
        LoopKey::Ignore
    } else if key.code == KeyCode::Esc && !ssh_page && !dialog_open {
        LoopKey::ExitKey
    } else {
        LoopKey::ToScreen
    }
}

/// Which dialogs of the dashboard are open.
#[derive(Clone, Copy, Debug, PartialEq, Eq, Structural)]
pub struct OpenDialogs {
    pub update_prompt: bool,
    pub host_dialog: bool,
    pub endpoint_picker: bool,
    pub quick_switcher: bool,
}

/// Where a key on the dashboard goes.
#[derive(Clone, Copy, Debug, PartialEq, Eq, Structural)]
pub enum DashboardKey {
    UpdatePrompt,
    HostDialog,
    EndpointPicker,
    QuickSwitcher,
    /// A released key with no dialog to take it: dropped.
    Ignore,
    /// Ctrl+Q: the quick switcher opens, to move on when Ctrl is let go.
    OpenQuickSwitcher,
    Page(DashboardPage),
}

/// Where a key on the dashboard goes: the update prompt, the host dialog,
/// the endpoint picker and the quick switcher take keys in that order when
/// open; otherwise released keys are dropped, Ctrl+Q opens the quick
/// switcher, and other keys go to the page shown.
pub fn dashboard_key(open: OpenDialogs, page: DashboardPage, key: KeyEvent) -> (r: DashboardKey)
    ensures
        r == (if open.update_prompt {
            DashboardKey::UpdatePrompt
        } else if open.host_dialog {
            DashboardKey::HostDialog
        } else if open.endpoint_picker {
            DashboardKey::EndpointPicker
        } else if open.quick_switcher {
            DashboardKey::QuickSwitcher
        } else if !(key.kind == KeyEventKind::Press || key.kind == KeyEventKind::Repeat) {
            DashboardKey::Ignore
        } else if key.code == KeyCode::Char('q') && key.modifiers.control {
            DashboardKey::OpenQuickSwitcher
        } else {
            DashboardKey::Page(page)
        }),
{
    if open.update_prompt {
        DashboardKey::UpdatePrompt
    } else if open.host_dialog {
        DashboardKey::HostDialog
    } else if open.endpoint_picker {
        DashboardKey::EndpointPicker
    } else if open.quick_switcher {
        DashboardKey::QuickSwitcher
    } else if !(key.kind == KeyEventKind::Press || key.kind == KeyEventKind::Repeat) {
        DashboardKey::Ignore
    } else if key.code == KeyCode::Char('q') && key.modifiers.control {
        DashboardKey::OpenQuickSwitcher
    } else {
        DashboardKey::Page(page)
    }
}

} // verus!
