//! The settings page: its rows, what editing a row does to the settings,
//! and the dialogs that enable, change or remove the database passphrase.

use vstd::prelude::*;
use crate::input::{edit_entry, entry_text_after_key, handle_yes_no_input, KeyCode, KeyEvent};
use crate::model::{Config, DbEncryption};
use crate::navigation::{
    SettingsSecurityAction, SettingsSecurityField, SettingsSecurityModalState, StringState,
};
use crate::text::{char_count, is_blank_str, str_eq, trim};

verus! {

/// How much one step changes the SSH idle timeout, in seconds.
pub const IDLE_TIMEOUT_STEP: u64 = 30;

/// The longest SSH idle timeout, in seconds.
pub const IDLE_TIMEOUT_MAX: u64 = 86_400;

/// The longest SSH connect timeout, in seconds.
pub const CONNECT_TIMEOUT_MAX: u64 = 60;

/// A row of the settings page.
#[derive(Clone, Copy, Debug, PartialEq, Eq, Structural)]
pub enum SettingsRow {
    Telemetry,
    IdleTimeout,
    ConnectTimeout,
    EnableEncryption,
    ChangePassphrase,
    RemovePassphrase,
    CopyDbBlob,
    RestoreDbBlob,
}

/// The rows the settings page lists for a database encryption setting:
/// the three settings, then the passphrase actions that apply, then the
/// two backup actions.
pub open spec fn rows_spec(enc: Option<DbEncryption>) -> Seq<SettingsRow> {
    let head = seq![SettingsRow::Telemetry, SettingsRow::IdleTimeout, SettingsRow::ConnectTimeout];
    let middle = if enc == Some(DbEncryption::Passphrase) {
        seq![SettingsRow::ChangePassphrase, SettingsRow::RemovePassphrase]
    } else {
        seq![SettingsRow::EnableEncryption]
    };
    head + middle + seq![SettingsRow::CopyDbBlob, SettingsRow::RestoreDbBlob]
}

/// The rows the settings page lists.
pub fn build_rows(enc: Option<DbEncryption>) -> (r: Vec<SettingsRow>)
    ensures
        r@ == rows_spec(enc),
{
    let mut rows = vec![SettingsRow::Telemetry, SettingsRow::IdleTimeout, SettingsRow::ConnectTimeout];
    match enc {
        Some(DbEncryption::Passphrase) => {
            rows.push(SettingsRow::ChangePassphrase);
            rows.push(SettingsRow::RemovePassphrase);
        },
        _ => rows.push(SettingsRow::EnableEncryption),
    }
    rows.push(SettingsRow::CopyDbBlob);
    rows.push(SettingsRow::RestoreDbBlob);
    assert(rows@ =~= rows_spec(enc));
    rows
}

/// The selected row kept within `len` rows.
pub open spec fn clamp_row(selected: usize, len: usize) -> usize {
    if len == 0 {
        selected
    } else if selected < len - 1 {
        selected
    } else {
        (len - 1) as usize
    }
}

/// What a key on the settings page does: the new selected row, and the
/// row to edit with the direction of the edit (`true` for forwards).
pub open spec fn settings_key_spec(selected: usize, len: usize, code: KeyCode) -> (usize, Option<(usize, bool)>) {
    if len == 0 {
        (selected, None)
    } else {
        let s = clamp_row(selected, len);
        if code == KeyCode::Up || code == KeyCode::Char('k') {
            (if s == 0 { (len - 1) as usize } else { (s - 1) as usize }, None)
        } else if code == KeyCode::Down || code == KeyCode::Char('j') {
            (((s + 1) % (len as int)) as usize, None)
        } else if code == KeyCode::Left || code == KeyCode::Char('h') {
            (s, Some((s, false)))
        } else if code == KeyCode::Right || code == KeyCode::Char('l') || code == KeyCode::Char(' ') || code
            == KeyCode::Enter {
            (s, Some((s, true)))
        } else {
            (s, None)
        }
    }
}

/// Handles a key on the settings page's list of `len` rows: moves the
/// selection (wrapping) or names the row to edit and how.
pub fn settings_page_key(selected: &mut usize, len: usize, code: KeyCode) -> (r: Option<(usize, bool)>)
    ensures
        (*final(selected), r) == settings_key_spec(*old(selected), len, code),
        r matches Some((i, _)) ==> i < len,
{
    if len == 0 {
        return None;
    }
    let s = if *selected < len - 1 { *selected } else { len - 1 };
    *selected = s;
    if code == KeyCode::Up || code == KeyCode::Char('k') {
        *selected = if s == 0 { len - 1 } else { s - 1 };
        None
    } else if code == KeyCode::Down || code == KeyCode::Char('j') {
        *selected = (s + 1) % len;
        None
    } else if code == KeyCode::Left || code == KeyCode::Char('h') {
        Some((s, false))
    } else if code == KeyCode::Right || code == KeyCode::Char('l') || code == KeyCode::Char(' ') || code
        == KeyCode::Enter {
        Some((s, true))
    } else {
        None
    }
}

/// The idle timeout after one step: up by 30 seconds to at most a day, or
/// down by 30 seconds to at least one second.
pub open spec fn next_idle_timeout_spec(current: u64, positive: bool) -> u64 {
    if positive {
        let up = if current + IDLE_TIMEOUT_STEP > u64::MAX { u64::MAX as int } else { current + IDLE_TIMEOUT_STEP };
        (if up < IDLE_TIMEOUT_MAX { up } else { IDLE_TIMEOUT_MAX as int }) as u64
    } else {
        let down = if current < IDLE_TIMEOUT_STEP { 0 } else { current - IDLE_TIMEOUT_STEP };
        (if down > 1 { down } else { 1 }) as u64
    }
}

/// The connect timeout after one step: up by a second to at most a
/// minute, or down by a second to at least one second.
pub open spec fn next_connect_timeout_spec(current: u64, positive: bool) -> u64 {
    if positive {
        let up = if current == u64::MAX { u64::MAX as int } else { current + 1 };
        (if up < CONNECT_TIMEOUT_MAX { up } else { CONNECT_TIMEOUT_MAX as int }) as u64
    } else {
        let down = if current == 0 { 0 } else { current - 1 };
        (if down > 1 { down } else { 1 }) as u64
    }
}

/// The telemetry setting after an edit: forwards toggles it (unset counts
/// as off), backwards turns it off.
pub open spec fn next_telemetry_spec(current: Option<bool>, positive: bool) -> Option<bool> {
    if positive {
        Some(!(current == Some(true)))
    } else {
        Some(false)
    }
}

/// The idle timeout after one step.
pub fn next_idle_timeout(current: u64, positive: bool) -> (r: u64)
    ensures
        r == next_idle_timeout_spec(current, positive),
{
    if positive {
        let up = current.saturating_add(IDLE_TIMEOUT_STEP);
        if up < IDLE_TIMEOUT_MAX { up } else { IDLE_TIMEOUT_MAX }
    } else {
        let down = current.saturating_sub(IDLE_TIMEOUT_STEP);
        if down > 1 { down } else { 1 }
    }
}

/// The connect timeout after one step.
pub fn next_connect_timeout(current: u64, positive: bool) -> (r: u64)
    ensures
        r == next_connect_timeout_spec(current, positive),
{
    if positive {
        let up = current.saturating_add(1);
        if up < CONNECT_TIMEOUT_MAX { up } else { CONNECT_TIMEOUT_MAX }
    } else {
        let down = current.saturating_sub(1);
        if down > 1 { down } else { 1 }
    }
}

/// A timeout that starts within its bounds stays within them, whatever
/// the steps.
pub proof fn timeouts_stay_in_bounds(idle: u64, connect: u64, positive: bool)
    requires
        1 <= idle <= IDLE_TIMEOUT_MAX,
        1 <= connect <= CONNECT_TIMEOUT_MAX,
    ensures
        1 <= next_idle_timeout_spec(idle, positive) <= IDLE_TIMEOUT_MAX,
        1 <= next_connect_timeout_spec(connect, positive) <= CONNECT_TIMEOUT_MAX,
{
}

/// Each step of the connect timeout moves it by exactly one second, held
/// between one second and one minute: Left from above one second lowers it
/// by one (and leaves one second as it is), Right below a minute raises it
/// by one (and a minute or more becomes a minute); a step up then down
/// comes back.
pub proof fn connect_timeout_steps_by_one_second(current: u64)
    ensures
        current >= 2 ==> next_connect_timeout_spec(current, false) == current - 1,
        current <= 1 ==> next_connect_timeout_spec(current, false) == 1,
        current < 60 ==> next_connect_timeout_spec(current, true) == current + 1,
        current >= 60 ==> next_connect_timeout_spec(current, true) == 60,
        1 <= current < 60 ==> next_connect_timeout_spec(next_connect_timeout_spec(current, true), false) == current,
        2 <= current <= 60 ==> next_connect_timeout_spec(next_connect_timeout_spec(current, false), true) == current,
{
}

/// Each step of the idle timeout moves it by exactly thirty seconds, held
/// between one second and a day: Left lowers it by thirty while that stays
/// at least one second (else it becomes one second), Right raises it by
/// thirty while that stays within a day (else it becomes a day).
pub proof fn idle_timeout_steps_by_thirty_seconds(current: u64)
    ensures
        current >= 31 ==> next_idle_timeout_spec(current, false) == current - 30,
        current <= 31 ==> next_idle_timeout_spec(current, false) == 1,
        current <= 86_370 ==> next_idle_timeout_spec(current, true) == current + 30,
        current >= 86_370 ==> next_idle_timeout_spec(current, true) == 86_400,
        31 <= current <= 86_400 ==> next_idle_timeout_spec(next_idle_timeout_spec(current, false), true) == current,
{
}

/// What editing a row leads to beyond the settings themselves.
#[derive(Clone, Copy, Debug, PartialEq, Eq, Structural)]
pub enum RowOutcome {
    /// A setting changed; the settings are to be saved.
    SettingsChanged,
    /// A passphrase dialog is to open.
    OpenSecurity(SettingsSecurityAction),
    /// A backup of the database is to be made and shown.
    ExportBackup,
    /// The restore dialog is to open.
    OpenRestore,
}

/// Edits a row: the three settings change in `config`; the other rows name
/// what is to open or run.
pub fn apply_row_change(config: &mut Config, row: SettingsRow, positive: bool) -> (r: RowOutcome)
    ensures
        r == (match row {
            SettingsRow::Telemetry | SettingsRow::IdleTimeout | SettingsRow::ConnectTimeout => RowOutcome::SettingsChanged,
            SettingsRow::EnableEncryption => RowOutcome::OpenSecurity(SettingsSecurityAction::EnableEncryption),
            SettingsRow::ChangePassphrase => RowOutcome::OpenSecurity(SettingsSecurityAction::ChangePassphrase),
            SettingsRow::RemovePassphrase => RowOutcome::OpenSecurity(SettingsSecurityAction::RemovePassphrase),
            SettingsRow::CopyDbBlob => RowOutcome::ExportBackup,
            SettingsRow::RestoreDbBlob => RowOutcome::OpenRestore,
        }),
        final(config).enable_telemetry == (if row == SettingsRow::Telemetry {
            next_telemetry_spec(old(config).enable_telemetry, positive)
        } else {
            old(config).enable_telemetry
        }),
        final(config).ssh_idle_timeout_seconds == (if row == SettingsRow::IdleTimeout {
            next_idle_timeout_spec(old(config).ssh_idle_timeout_seconds, positive)
        } else {
            old(config).ssh_idle_timeout_seconds
        }),
        final(config).ssh_connect_timeout_seconds == (if row == SettingsRow::ConnectTimeout {
            next_connect_timeout_spec(old(config).ssh_connect_timeout_seconds, positive)
        } else {
            old(config).ssh_connect_timeout_seconds
        }),
        final(config).telemetry_uuid == old(config).telemetry_uuid,
        final(config).last_telemetry_report_at_unix_ms == old(config).last_telemetry_report_at_unix_ms,
        final(config).db_encryption == old(config).db_encryption,
        final(config).show_debug_panel == old(config).show_debug_panel,
{
    match row {
        SettingsRow::Telemetry => {
            let enabled = match config.enable_telemetry {
                Some(b) => b,
                None => false,
            };
            config.enable_telemetry = if positive { Some(!enabled) } else { Some(false) };
            RowOutcome::SettingsChanged
        },
        SettingsRow::IdleTimeout => {
            config.ssh_idle_timeout_seconds = next_idle_timeout(config.ssh_idle_timeout_seconds, positive);
            RowOutcome::SettingsChanged
        },
        SettingsRow::ConnectTimeout => {
            config.ssh_connect_timeout_seconds = next_connect_timeout(
                config.ssh_connect_timeout_seconds,
                positive,
            );
            RowOutcome::SettingsChanged
        },
        SettingsRow::EnableEncryption => RowOutcome::OpenSecurity(SettingsSecurityAction::EnableEncryption),
        SettingsRow::ChangePassphrase => RowOutcome::OpenSecurity(SettingsSecurityAction::ChangePassphrase),
        SettingsRow::RemovePassphrase => RowOutcome::OpenSecurity(SettingsSecurityAction::RemovePassphrase),
        SettingsRow::CopyDbBlob => RowOutcome::ExportBackup,
        SettingsRow::RestoreDbBlob => RowOutcome::OpenRestore,
    }
}

/// The fields a security dialog steps through, in order.
pub open spec fn active_fields_spec(action: SettingsSecurityAction) -> Seq<SettingsSecurityField> {
    match action {
        SettingsSecurityAction::EnableEncryption => seq![SettingsSecurityField::New, SettingsSecurityField::Confirm],
        SettingsSecurityAction::ChangePassphrase => seq![
            SettingsSecurityField::Current,
            SettingsSecurityField::New,
            SettingsSecurityField::Confirm,
        ],
        SettingsSecurityAction::RemovePassphrase => seq![
            SettingsSecurityField::Current,
            SettingsSecurityField::DangerConfirm,
        ],
    }
}

/// The fields a security dialog steps through, in order.
pub fn active_fields(action: SettingsSecurityAction) -> (r: Vec<SettingsSecurityField>)
    ensures
        r@ == active_fields_spec(action),
{
    let r = match action {
        SettingsSecurityAction::EnableEncryption => vec![SettingsSecurityField::New, SettingsSecurityField::Confirm],
        SettingsSecurityAction::ChangePassphrase => vec![
            SettingsSecurityField::Current,
            SettingsSecurityField::New,
            SettingsSecurityField::Confirm,
        ],
        SettingsSecurityAction::RemovePassphrase => vec![
            SettingsSecurityField::Current,
            SettingsSecurityField::DangerConfirm,
        ],
    };
    assert(r@ =~= active_fields_spec(action));
    r
}

/// The position of `f` among `fields`, or 0.
pub open spec fn field_position(fields: Seq<SettingsSecurityField>, f: SettingsSecurityField) -> int {
    if fields.len() > 0 && fields[0] == f {
        0
    } else if fields.len() > 1 && fields[1] == f {
        1
    } else if fields.len() > 2 && fields[2] == f {
        2
    } else {
        0
    }
}

/// The field after `f` in the dialog for `action` (wrapping around).
pub open spec fn next_field_spec(action: SettingsSecurityAction, f: SettingsSecurityField) -> SettingsSecurityField {
    let fields = active_fields_spec(action);
    fields[(field_position(fields, f) + 1) % (fields.len() as int)]
}

/// The field before `f` in the dialog for `action` (wrapping around).
pub open spec fn prev_field_spec(action: SettingsSecurityAction, f: SettingsSecurityField) -> SettingsSecurityField {
    let fields = active_fields_spec(action);
    let i = field_position(fields, f);
    if i == 0 {
        fields[fields.len() - 1]
    } else {
        fields[i - 1]
    }
}

fn position_in(fields: &Vec<SettingsSecurityField>, f: SettingsSecurityField) -> (r: usize)
    requires
        fields@.len() <= 3,
    ensures
        r == field_position(fields@, f),
        fields@.len() > 0 ==> r < fields@.len(),
{
    if fields.len() > 0 && fields[0] == f {
        0
    } else if fields.len() > 1 && fields[1] == f {
        1
    } else if fields.len() > 2 && fields[2] == f {
        2
    } else {
        0
    }
}

/// The field after the focused one.
pub fn next_modal_field(action: SettingsSecurityAction, focus: SettingsSecurityField) -> (r: SettingsSecurityField)
    ensures
        r == next_field_spec(action, focus),
{
    let fields = active_fields(action);
    let i = position_in(&fields, focus);
    fields[(i + 1) % fields.len()]
}

/// The field before the focused one.
pub fn prev_modal_field(action: SettingsSecurityAction, focus: SettingsSecurityField) -> (r: SettingsSecurityField)
    ensures
        r == prev_field_spec(action, focus),
{
    let fields = active_fields(action);
    let i = position_in(&fields, focus);
    if i == 0 {
        fields[fields.len() - 1]
    } else {
        fields[i - 1]
    }
}

/// Whether the focused field is the dialog's last, where Enter submits.
pub fn is_submit_focus(action: SettingsSecurityAction, focus: SettingsSecurityField) -> (r: bool)
    ensures
        r == (active_fields_spec(action).last() == focus),
{
    let fields = active_fields(action);
    fields[fields.len() - 1] == focus
}

/// Moving to the next field and back returns to a field of the dialog.
pub proof fn security_focus_round_trip(action: SettingsSecurityAction, f: SettingsSecurityField)
    requires
        active_fields_spec(action).contains(f),
    ensures
        prev_field_spec(action, next_field_spec(action, f)) == f,
        next_field_spec(action, prev_field_spec(action, f)) == f,
{
    let fields = active_fields_spec(action);
    let n = fields.len() as int;
    assert(fields[0] != fields[1]);
    assert(n == 3 ==> fields[0] != fields[2] && fields[1] != fields[2]);
    let k = choose|k: int| 0 <= k < fields.len() && fields[k] == f;
    assert(field_position(fields, f) == k);
    let nx = (k + 1) % n;
    assert(nx == if k + 1 == n { 0 } else { k + 1 });
    assert(field_position(fields, fields[nx]) == nx);
    let pv = if k == 0 { n - 1 } else { k - 1 };
    assert(field_position(fields, fields[pv]) == pv);
    assert((pv + 1) % n == k);
}

/// Whether a text entry's caret lies within its text.
pub open spec fn entry_ok(s: StringState) -> bool {
    s.caret_position <= s.text@.len()
}

/// Whether the entries of a security dialog are in order.
pub open spec fn security_modal_ok(m: SettingsSecurityModalState) -> bool {
    entry_ok(m.current_passphrase) && entry_ok(m.new_passphrase) && entry_ok(m.confirm_passphrase)
}

/// What a key in a security dialog leads to.
#[derive(Clone, Copy, Debug, PartialEq, Eq, Structural)]
pub enum SecurityKeyOutcome {
    /// The dialog stays open.
    Stay,
    /// The dialog closes.
    Close,
    /// The dialog's request is to be made.
    Submit,
}

/// Handles a key in a security dialog: Esc closes it; Tab/Down and
/// BackTab/Up move between its fields; on the danger confirmation the key
/// goes to the yes/no choice and an answer submits; Enter submits on the
/// last field and otherwise moves on; other keys edit the focused entry.
pub fn handle_security_modal_key(modal: &mut SettingsSecurityModalState, key: KeyEvent) -> (r: SecurityKeyOutcome)
    requires
        security_modal_ok(*old(modal)),
    ensures
        security_modal_ok(*final(modal)),
        final(modal).action == old(modal).action,
        key.code == KeyCode::Esc ==> r == SecurityKeyOutcome::Close && *final(modal) == *old(modal),
        key.code != KeyCode::Esc && (key.code == KeyCode::Tab || key.code == KeyCode::Down) ==> {
            &&& r == SecurityKeyOutcome::Stay
            &&& final(modal).focus == next_field_spec(old(modal).action, old(modal).focus)
            &&& final(modal).error is None
        },
        key.code == KeyCode::BackTab || key.code == KeyCode::Up ==> {
            &&& r == SecurityKeyOutcome::Stay
            &&& final(modal).focus == prev_field_spec(old(modal).action, old(modal).focus)
            &&& final(modal).error is None
        },
        !(key.code == KeyCode::Esc || key.code == KeyCode::Tab || key.code == KeyCode::Down || key.code
            == KeyCode::BackTab || key.code == KeyCode::Up) && old(modal).focus == SettingsSecurityField::DangerConfirm
            ==> {
            let toggles = key.code == KeyCode::Left || key.code == KeyCode::Right;
            let answers = key.code == KeyCode::Char('y') || key.code == KeyCode::Char('n') || key.code == KeyCode::Enter;
            &&& final(modal).danger_confirm.selected == (if toggles { !old(modal).danger_confirm.selected } else { old(modal).danger_confirm.selected })
            &&& r == (if !toggles && answers { SecurityKeyOutcome::Submit } else { SecurityKeyOutcome::Stay })
            &&& final(modal).focus == old(modal).focus
            &&& final(modal).error == old(modal).error
        },
        !(key.code == KeyCode::Esc || key.code == KeyCode::Tab || key.code == KeyCode::Down || key.code
            == KeyCode::BackTab || key.code == KeyCode::Up) && old(modal).focus != SettingsSecurityField::DangerConfirm
            && key.code == KeyCode::Enter ==> if active_fields_spec(old(modal).action).last() == old(modal).focus {
            r == SecurityKeyOutcome::Submit && *final(modal) == *old(modal)
        } else {
            &&& r == SecurityKeyOutcome::Stay
            &&& final(modal).focus == next_field_spec(old(modal).action, old(modal).focus)
            &&& final(modal).error is None
        },
        !(key.code == KeyCode::Esc || key.code == KeyCode::Tab || key.code == KeyCode::Down || key.code
            == KeyCode::BackTab || key.code == KeyCode::Up || key.code == KeyCode::Enter) && old(modal).focus
            != SettingsSecurityField::DangerConfirm ==> {
            &&& r == SecurityKeyOutcome::Stay
            &&& final(modal).focus == old(modal).focus
            &&& final(modal).error is None
            &&& final(modal).current_passphrase.text@ == (if old(modal).focus == SettingsSecurityField::Current {
                entry_text_after_key(old(modal).current_passphrase.text@, old(modal).current_passphrase.caret_position as int, key.code)
            } else {
                old(modal).current_passphrase.text@
            })
            &&& final(modal).new_passphrase.text@ == (if old(modal).focus == SettingsSecurityField::New {
                entry_text_after_key(old(modal).new_passphrase.text@, old(modal).new_passphrase.caret_position as int, key.code)
            } else {
                old(modal).new_passphrase.text@
            })
            &&& final(modal).confirm_passphrase.text@ == (if old(modal).focus == SettingsSecurityField::Confirm {
                entry_text_after_key(old(modal).confirm_passphrase.text@, old(modal).confirm_passphrase.caret_position as int, key.code)
            } else {
                old(modal).confirm_passphrase.text@
            })
        },
{
    let code = key.code;
    if code == KeyCode::Esc {
        return SecurityKeyOutcome::Close;
    }
    if code == KeyCode::Tab || code == KeyCode::Down {
        modal.focus = next_modal_field(modal.action, modal.focus);
        modal.error = None;
        return SecurityKeyOutcome::Stay;
    }
    if code == KeyCode::BackTab || code == KeyCode::Up {
        modal.focus = prev_modal_field(modal.action, modal.focus);
        modal.error = None;
        return SecurityKeyOutcome::Stay;
    }
    if modal.focus == SettingsSecurityField::DangerConfirm {
        let answer = handle_yes_no_input(&mut modal.danger_confirm, code);
        return if answer.is_some() { SecurityKeyOutcome::Submit } else { SecurityKeyOutcome::Stay };
    }
    if code == KeyCode::Enter {
        if is_submit_focus(modal.action, modal.focus) {
            return SecurityKeyOutcome::Submit;
        }
        modal.focus = next_modal_field(modal.action, modal.focus);
        modal.error = None;
        return SecurityKeyOutcome::Stay;
    }
    match modal.focus {
        SettingsSecurityField::Current => {
            edit_entry(&mut modal.current_passphrase, code);
        },
        SettingsSecurityField::New => {
            edit_entry(&mut modal.new_passphrase, code);
        },
        SettingsSecurityField::Confirm => {
            edit_entry(&mut modal.confirm_passphrase, code);
        },
        SettingsSecurityField::DangerConfirm => {},
    }
    modal.error = None;
    SecurityKeyOutcome::Stay
}

/// A passphrase change that a security dialog asks for.
#[derive(Clone, Debug)]
pub enum SecurityRequest {
    Enable { new_passphrase: String },
    Change { current_passphrase: String, new_passphrase: String },
    Remove { current_passphrase: String },
}

/// The mathematical value of a `SecurityRequest`.
pub enum SecurityRequestView {
    Enable { new_passphrase: Seq<char> },
    Change { current_passphrase: Seq<char>, new_passphrase: Seq<char> },
    Remove { current_passphrase: Seq<char> },
}

impl View for SecurityRequest {
    type V = SecurityRequestView;

    open spec fn view(&self) -> SecurityRequestView {
        match self {
            SecurityRequest::Enable { new_passphrase } => SecurityRequestView::Enable { new_passphrase: new_passphrase@ },
            SecurityRequest::Change { current_passphrase, new_passphrase } => SecurityRequestView::Change {
                current_passphrase: current_passphrase@,
                new_passphrase: new_passphrase@,
            },
            SecurityRequest::Remove { current_passphrase } => SecurityRequestView::Remove {
                current_passphrase: current_passphrase@,
            },
        }
    }
}

/// What submitting a security dialog asks for, or why it cannot.
pub open spec fn security_request_spec(
    action: SettingsSecurityAction,
    current: Seq<char>,
    new_pass: Seq<char>,
    confirm: Seq<char>,
    confirmed: bool,
) -> Result<SecurityRequestView, Seq<char>> {
    match action {
        SettingsSecurityAction::EnableEncryption => if trim(new_pass).len() == 0 {
            Err("Passphrase cannot be empty"@)
        } else if new_pass != confirm {
            Err("Passphrase confirmation does not match"@)
        } else {
            Ok(SecurityRequestView::Enable { new_passphrase: new_pass })
        },
        SettingsSecurityAction::ChangePassphrase => if trim(current).len() == 0 {
            Err("Current passphrase is required"@)
        } else if trim(new_pass).len() == 0 {
            Err("New passphrase cannot be empty"@)
        } else if new_pass != confirm {
            Err("New passphrase confirmation does not match"@)
        } else {
            Ok(SecurityRequestView::Change { current_passphrase: current, new_passphrase: new_pass })
        },
        SettingsSecurityAction::RemovePassphrase => if trim(current).len() == 0 {
            Err("Current passphrase is required"@)
        } else if !confirmed {
            Err("Please confirm passphrase removal"@)
        } else {
            Ok(SecurityRequestView::Remove { current_passphrase: current })
        },
    }
}

/// What submitting a security dialog asks for: the passphrases are checked
/// (not blank, confirmation equal, removal confirmed) before any request.
pub fn submit_security_modal(modal: &SettingsSecurityModalState) -> (r: Result<SecurityRequest, String>)
    ensures
        match r {
            Ok(q) => security_request_spec(
                modal.action,
                modal.current_passphrase.text@,
                modal.new_passphrase.text@,
                modal.confirm_passphrase.text@,
                modal.danger_confirm.selected,
            ) == Ok::<SecurityRequestView, Seq<char>>(q@),
            Err(e) => security_request_spec(
                modal.action,
                modal.current_passphrase.text@,
                modal.new_passphrase.text@,
                modal.confirm_passphrase.text@,
                modal.danger_confirm.selected,
            ) == Err::<SecurityRequestView, Seq<char>>(e@),
        },
{
    let current = &modal.current_passphrase.text;
    let new_pass = &modal.new_passphrase.text;
    let confirm = &modal.confirm_passphrase.text;
    match modal.action {
        SettingsSecurityAction::EnableEncryption => {
            if is_blank_str(new_pass.as_str()) {
                Err("Passphrase cannot be empty".to_string())
            } else if !str_eq(new_pass.as_str(), confirm.as_str()) {
                Err("Passphrase confirmation does not match".to_string())
            } else {
                Ok(SecurityRequest::Enable { new_passphrase: new_pass.clone() })
            }
        },
        SettingsSecurityAction::ChangePassphrase => {
            if is_blank_str(current.as_str()) {
                Err("Current passphrase is required".to_string())
            } else if is_blank_str(new_pass.as_str()) {
                Err("New passphrase cannot be empty".to_string())
            } else if !str_eq(new_pass.as_str(), confirm.as_str()) {
                Err("New passphrase confirmation does not match".to_string())
            } else {
                Ok(SecurityRequest::Change { current_passphrase: current.clone(), new_passphrase: new_pass.clone() })
            }
        },
        SettingsSecurityAction::RemovePassphrase => {
            if is_blank_str(current.as_str()) {
                Err("Current passphrase is required".to_string())
            } else if !modal.danger_confirm.is_yes() {
                Err("Please confirm passphrase removal".to_string())
            } else {
                Ok(SecurityRequest::Remove { current_passphrase: current.clone() })
            }
        },
    }
}

/// The status line after a security dialog's request succeeded.
pub fn security_success_status(action: SettingsSecurityAction) -> (r: &'static str)
    ensures
        r@ == (match action {
            SettingsSecurityAction::EnableEncryption => "Database encryption enabled"@,
            SettingsSecurityAction::ChangePassphrase => "Database passphrase updated"@,
            SettingsSecurityAction::RemovePassphrase => "Database passphrase removed"@,
        }),
{
    match action {
        SettingsSecurityAction::EnableEncryption => "Database encryption enabled",
        SettingsSecurityAction::ChangePassphrase => "Database passphrase updated",
        SettingsSecurityAction::RemovePassphrase => "Database passphrase removed",
    }
}

/// A hidden entry holding `text`, with the caret at its end.
fn entry_with(text: &String) -> (r: StringState)
    ensures
        !r.is_visible,
        r.text@ == text@,
        r.caret_position == text@.len(),
        r.error is None,
{
    let mut s = StringState::invisible();
    s.text = text.clone();
    s.caret_position = char_count(text);
    s
}

/// The dialog shown again after its request failed: a fresh dialog for the
/// same action, keeping the entered passphrases (caret at their end) and
/// the confirmation, with the error.
pub fn modal_after_failure(modal: &SettingsSecurityModalState, error: String) -> (r: SettingsSecurityModalState)
    ensures
        r.action == modal.action,
        r.focus == (match modal.action {
            SettingsSecurityAction::EnableEncryption => SettingsSecurityField::New,
            _ => SettingsSecurityField::Current,
        }),
        r.current_passphrase.text@ == modal.current_passphrase.text@,
        r.new_passphrase.text@ == modal.new_passphrase.text@,
        r.confirm_passphrase.text@ == modal.confirm_passphrase.text@,
        r.current_passphrase.caret_position == modal.current_passphrase.text@.len(),
        r.new_passphrase.caret_position == modal.new_passphrase.text@.len(),
        r.confirm_passphrase.caret_position == modal.confirm_passphrase.text@.len(),
        !r.current_passphrase.is_visible && !r.new_passphrase.is_visible && !r.confirm_passphrase.is_visible,
        r.danger_confirm.selected == modal.danger_confirm.selected,
        r.error == Some(error),
{
    let mut next = SettingsSecurityModalState::for_action(modal.action);
    next.current_passphrase = entry_with(&modal.current_passphrase.text);
    next.new_passphrase = entry_with(&modal.new_passphrase.text);
    next.confirm_passphrase = entry_with(&modal.confirm_passphrase.text);
    next.danger_confirm.selected = modal.danger_confirm.selected;
    next.error = Some(error);
    next
}

/// What a re-keyed database leaves the program with: the passphrase it now
/// opens with (none after removal) and the encryption setting to record.
pub struct KeyedState {
    pub password: Option<String>,
    pub encryption: DbEncryption,
}

/// The passphrase and encryption setting after `request` succeeded: the
/// new passphrase when one was set or changed, and none after removal.
pub fn state_after_rekey(request: &SecurityRequest) -> (r: KeyedState)
    ensures
        match request@ {
            SecurityRequestView::Enable { new_passphrase } => r.password matches Some(p) && p@ == new_passphrase
                && r.encryption == DbEncryption::Passphrase,
            SecurityRequestView::Change { new_passphrase, .. } => r.password matches Some(p) && p@ == new_passphrase
                && r.encryption == DbEncryption::Passphrase,
            SecurityRequestView::Remove { .. } => r.password is None && r.encryption == DbEncryption::Unencrypted,
        },
{
    match request {
        SecurityRequest::Enable { new_passphrase } => KeyedState {
            password: Some(new_passphrase.clone()),
            encryption: DbEncryption::Passphrase,
        },
        SecurityRequest::Change { new_passphrase, .. } => KeyedState {
            password: Some(new_passphrase.clone()),
            encryption: DbEncryption::Passphrase,
        },
        SecurityRequest::Remove { .. } => KeyedState { password: None, encryption: DbEncryption::Unencrypted },
    }
}

} // verus!
