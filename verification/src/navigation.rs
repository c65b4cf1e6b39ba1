//! The states of the terminal screens and of the dashboard's dialogs.

use vstd::prelude::*;
use crate::model::SshEndpoint;
use crate::text::{byte_len, concat_str, repeat_char, repeated, str_byte_len};

verus! {

/// A choice between yes (`selected`) and no.
#[derive(Clone, Copy, Debug, PartialEq, Eq, Structural)]
pub struct YesNoState {
    pub selected: bool,
}

impl YesNoState {
    /// A choice that starts on yes.
    pub fn new() -> (r: Self)
        ensures
            r.selected,
    {
        YesNoState { selected: true }
    }

    /// Switches between yes and no.
    pub fn toggle(&mut self)
        ensures
            final(self).selected == !old(self).selected,
    {
        self.selected = !self.selected;
    }

    /// Whether yes is chosen.
    pub fn is_yes(&self) -> (r: bool)
        ensures
            r == self.selected,
    {
        self.selected
    }

    /// Whether no is chosen.
    pub fn is_no(&self) -> (r: bool)
        ensures
            r == !self.selected,
    {
        !self.selected
    }
}

/// A text entry with a caret (a character index) and an optional error.
#[derive(Clone, Debug)]
pub struct StringState {
    pub is_visible: bool,
    pub text: String,
    pub caret_position: usize,
    pub error: Option<String>,
}

/// What an entry shows: its text, or one `*` per byte of it, and a space.
pub open spec fn shown_text(visible: bool, text: Seq<char>) -> Seq<char> {
    if visible {
        text + " "@
    } else {
        repeated('*', (byte_len(text) as usize) as nat) + " "@
    }
}

impl StringState {
    /// An empty entry that hides its text.
    pub fn invisible() -> (r: Self)
        ensures
            !r.is_visible,
            r.text@.len() == 0,
            r.caret_position == 0,
            r.error is None,
    {
        StringState { is_visible: false, text: String::new(), caret_position: 0, error: None }
    }

    /// An empty hidden entry that shows `error`.
    pub fn invisible_with_error(error: String) -> (r: Self)
        ensures
            !r.is_visible,
            r.text@.len() == 0,
            r.caret_position == 0,
            r.error == Some(error),
    {
        StringState { is_visible: false, text: String::new(), caret_position: 0, error: Some(error) }
    }

    /// Replaces the text, leaving the rest as it is.
    pub fn set_text(&mut self, text: String)
        ensures
            final(self).text == text,
            final(self).is_visible == old(self).is_visible,
            final(self).caret_position == old(self).caret_position,
            final(self).error == old(self).error,
    {
        self.text = text;
    }

    /// What the entry shows, followed by one space.
    pub fn visible_text(&self) -> (r: String)
        ensures
            r@ == shown_text(self.is_visible, self.text@),
    {
        let shown = if self.is_visible {
            self.text.clone()
        } else {
            repeat_char('*', str_byte_len(self.text.as_str()))
        };
        concat_str(shown.as_str(), " ")
    }
}

/// The two fields of the passphrase set-up screen.
#[derive(Clone, Copy, Debug, PartialEq, Eq, Structural)]
pub enum OnboardingPassphraseField {
    Passphrase,
    Confirm,
}

impl OnboardingPassphraseField {
    /// The other field.
    pub fn next(self) -> (r: Self)
        ensures
            r != self,
    {
        match self {
            OnboardingPassphraseField::Passphrase => OnboardingPassphraseField::Confirm,
            OnboardingPassphraseField::Confirm => OnboardingPassphraseField::Passphrase,
        }
    }

    /// The other field (with two fields, the same as `next`).
    pub fn prev(self) -> (r: Self)
        ensures
            r != self,
    {
        self.next()
    }
}

/// The passphrase set-up screen.
#[derive(Clone, Debug)]
pub struct OnboardingPassphraseState {
    pub focus: OnboardingPassphraseField,
    pub passphrase: StringState,
    pub confirm_passphrase: StringState,
    pub error: Option<String>,
}

impl OnboardingPassphraseState {
    /// Both entries empty and hidden, the first one focused.
    pub fn new() -> (r: Self)
        ensures
            r.focus == OnboardingPassphraseField::Passphrase,
            !r.passphrase.is_visible && r.passphrase.text@.len() == 0
                && r.passphrase.caret_position == 0 && r.passphrase.error is None,
            !r.confirm_passphrase.is_visible && r.confirm_passphrase.text@.len() == 0
                && r.confirm_passphrase.caret_position == 0 && r.confirm_passphrase.error is None,
            r.error is None,
    {
        OnboardingPassphraseState {
            focus: OnboardingPassphraseField::Passphrase,
            passphrase: StringState::invisible(),
            confirm_passphrase: StringState::invisible(),
            error: None,
        }
    }
}

/// The pages of the dashboard.
#[derive(Clone, Copy, Debug, PartialEq, Eq, Structural)]
pub enum DashboardPage {
    Home,
    Settings,
    Ssh,
}

/// What the last reachability probe found for one endpoint.
#[derive(Clone, Copy, Debug, PartialEq, Eq, Structural)]
pub enum HostConnectionStatus {
    Unknown,
    Reachable,
    Unreachable,
}

/// What a security dialog of the settings page does.
#[derive(Clone, Copy, Debug, PartialEq, Eq, Structural)]
pub enum SettingsSecurityAction {
    EnableEncryption,
    ChangePassphrase,
    RemovePassphrase,
}

/// The fields of a security dialog.
#[derive(Clone, Copy, Debug, PartialEq, Eq, Structural)]
pub enum SettingsSecurityField {
    Current,
    New,
    Confirm,
    DangerConfirm,
}

/// A security dialog of the settings page.
#[derive(Clone, Debug)]
pub struct SettingsSecurityModalState {
    pub action: SettingsSecurityAction,
    pub focus: SettingsSecurityField,
    pub current_passphrase: StringState,
    pub new_passphrase: StringState,
    pub confirm_passphrase: StringState,
    pub danger_confirm: YesNoState,
    pub error: Option<String>,
}

/// Whether an entry is empty, hidden, at its start and without error.
pub open spec fn is_fresh_hidden(s: StringState) -> bool {
    !s.is_visible && s.text@.len() == 0 && s.caret_position == 0 && s.error is None
}

impl SettingsSecurityModalState {
    /// A fresh dialog for `action`: focus on the new passphrase when
    /// enabling encryption, otherwise on the current passphrase; the danger
    /// confirmation starts on no.
    pub fn for_action(action: SettingsSecurityAction) -> (r: Self)
        ensures
            r.action == action,
            r.focus == (match action {
                SettingsSecurityAction::EnableEncryption => SettingsSecurityField::New,
                _ => SettingsSecurityField::Current,
            }),
            is_fresh_hidden(r.current_passphrase),
            is_fresh_hidden(r.new_passphrase),
            is_fresh_hidden(r.confirm_passphrase),
            !r.danger_confirm.selected,
            r.error is None,
    {
        let focus = match action {
            SettingsSecurityAction::EnableEncryption => SettingsSecurityField::New,
            SettingsSecurityAction::ChangePassphrase => SettingsSecurityField::Current,
            SettingsSecurityAction::RemovePassphrase => SettingsSecurityField::Current,
        };
        SettingsSecurityModalState {
            action,
            focus,
            current_passphrase: StringState::invisible(),
            new_passphrase: StringState::invisible(),
            confirm_passphrase: StringState::invisible(),
            danger_confirm: YesNoState { selected: false },
            error: None,
        }
    }
}

/// What a backup dialog of the settings page does.
#[derive(Clone, Copy, Debug, PartialEq, Eq, Structural)]
pub enum SettingsBackupAction {
    CopyDbBlob,
    RestoreDbBlob,
}

/// The fields of a backup dialog.
#[derive(Clone, Copy, Debug, PartialEq, Eq, Structural)]
pub enum SettingsBackupField {
    Blob,
    Passphrase,
    DangerConfirm,
}

/// The steps of restoring a backup.
#[derive(Clone, Copy, Debug, PartialEq, Eq, Structural)]
pub enum SettingsBackupRestoreStage {
    Blob,
    Passphrase,
    Confirm,
}

/// A backup dialog of the settings page.
#[derive(Clone, Debug)]
pub struct SettingsBackupModalState {
    pub action: SettingsBackupAction,
    pub focus: SettingsBackupField,
    pub restore_stage: SettingsBackupRestoreStage,
    pub blob: StringState,
    pub passphrase: StringState,
    pub danger_confirm: YesNoState,
    pub requires_passphrase: bool,
    pub copy_feedback: Option<String>,
    pub error: Option<String>,
}

impl SettingsBackupModalState {
    /// A fresh dialog for `action`, at the blob step with a visible blob.
    pub fn for_action(action: SettingsBackupAction) -> (r: Self)
        ensures
            r.action == action,
            r.focus == SettingsBackupField::Blob,
            r.restore_stage == SettingsBackupRestoreStage::Blob,
            r.blob.is_visible && r.blob.text@.len() == 0 && r.blob.caret_position == 0
                && r.blob.error is None,
            is_fresh_hidden(r.passphrase),
            !r.danger_confirm.selected,
            !r.requires_passphrase,
            r.copy_feedback is None,
            r.error is None,
    {
        let mut blob = StringState::invisible();
        blob.is_visible = true;
        SettingsBackupModalState {
            action,
            focus: SettingsBackupField::Blob,
            restore_stage: SettingsBackupRestoreStage::Blob,
            blob,
            passphrase: StringState::invisible(),
            danger_confirm: YesNoState { selected: false },
            requires_passphrase: false,
            copy_feedback: None,
            error: None,
        }
    }
}

/// The quick switcher's search.
#[derive(Clone, Debug)]
pub struct QuickSwitcherState {
    pub query: String,
    pub selected_idx: usize,
    pub ctrl_cycle_on_release: bool,
}

impl QuickSwitcherState {
    /// An empty search on the first item.
    pub fn new() -> (r: Self)
        ensures
            r.query@.len() == 0,
            r.selected_idx == 0,
            !r.ctrl_cycle_on_release,
    {
        QuickSwitcherState { query: String::new(), selected_idx: 0, ctrl_cycle_on_release: false }
    }
}

/// Whether the host dialog creates a host or edits one.
#[derive(Clone, Copy, Debug, PartialEq, Eq, Structural)]
pub enum HostModalMode {
    Create,
    Edit { host_id: u32 },
}

/// How the host dialog authenticates.
#[derive(Clone, Copy, Debug, PartialEq, Eq, Structural)]
pub enum HostAuthMode {
    Key,
    Password,
}

/// Where a key comes from: a file path, or text kept in the database.
#[derive(Clone, Copy, Debug, PartialEq, Eq, Structural)]
pub enum HostKeyInputMode {
    Path,
    Inline,
}

/// The fields of the host dialog, in focus order.
#[derive(Clone, Copy, Debug, PartialEq, Eq, Structural)]
pub enum HostFormField {
    Name,
    User,
    Endpoints,
    AuthMode,
    AuthValue,
}

/// The position of a field in the focus order.
pub open spec fn field_index(f: HostFormField) -> int {
    match f {
        HostFormField::Name => 0,
        HostFormField::User => 1,
        HostFormField::Endpoints => 2,
        HostFormField::AuthMode => 3,
        HostFormField::AuthValue => 4,
    }
}

impl HostFormField {
    /// The next field, wrapping from the last to the first.
    pub fn next(self) -> (r: Self)
        ensures
            field_index(r) == (field_index(self) + 1) % 5,
    {
        match self {
            HostFormField::Name => HostFormField::User,
            HostFormField::User => HostFormField::Endpoints,
            HostFormField::Endpoints => HostFormField::AuthMode,
            HostFormField::AuthMode => HostFormField::AuthValue,
            HostFormField::AuthValue => HostFormField::Name,
        }
    }

    /// The previous field, wrapping from the first to the last.
    pub fn prev(self) -> (r: Self)
        ensures
            field_index(r) == (field_index(self) + 4) % 5,
    {
        match self {
            HostFormField::Name => HostFormField::AuthValue,
            HostFormField::User => HostFormField::Name,
            HostFormField::Endpoints => HostFormField::User,
            HostFormField::AuthMode => HostFormField::Endpoints,
            HostFormField::AuthValue => HostFormField::AuthMode,
        }
    }
}

/// Moving the focus forward and then back (or back and then forward)
/// returns to the same field.
pub proof fn form_focus_round_trip(f: HostFormField, g: HostFormField, h: HostFormField)
    requires
        field_index(g) == (field_index(f) + 1) % 5,
        field_index(h) == (field_index(g) + 4) % 5,
    ensures
        h == f,
{
}

/// The host dialog's fields; `caret` is a character index into the
/// focused field.
#[derive(Clone, Debug)]
pub struct HostFormState {
    pub focus: HostFormField,
    pub name: String,
    pub user: String,
    pub endpoints: String,
    pub auth_mode: HostAuthMode,
    pub key_input_mode: HostKeyInputMode,
    pub key_path: String,
    pub key_inline: String,
    pub password: String,
    pub caret: usize,
    pub error: Option<String>,
}

impl HostFormState {
    /// An empty form on the name field, with password authentication.
    pub fn new() -> (r: Self)
        ensures
            r.focus == HostFormField::Name,
            r.name@.len() == 0,
            r.user@.len() == 0,
            r.endpoints@.len() == 0,
            r.auth_mode == HostAuthMode::Password,
            r.key_input_mode == HostKeyInputMode::Path,
            r.key_path@.len() == 0,
            r.key_inline@.len() == 0,
            r.password@.len() == 0,
            r.caret == 0,
            r.error is None,
    {
        HostFormState {
            focus: HostFormField::Name,
            name: String::new(),
            user: String::new(),
            endpoints: String::new(),
            auth_mode: HostAuthMode::Password,
            key_input_mode: HostKeyInputMode::Path,
            key_path: String::new(),
            key_inline: String::new(),
            password: String::new(),
            caret: 0,
            error: None,
        }
    }
}

/// The dialog that picks one of a host's endpoints.
#[derive(Clone, Debug)]
pub struct EndpointPickerState {
    pub host_id: u32,
    pub host_name: String,
    pub host_user: String,
    pub endpoints: Vec<SshEndpoint>,
    pub selected: usize,
}

} // verus!
