//! What the dashboard shows, as text: the key hints of the footer, the
//! titles, the rows of the settings page, the host cards and the dialogs.
//! Drawing them is left to the terminal front end; the wording and the
//! choices between wordings are made here.

use vstd::prelude::*;
use crate::form::{auth_selection, selection_of, AuthSelection};
use crate::host_keys::TrustChallenge;
use crate::install::{spinner_char, InstallPhase};
use crate::model::{Config, DbEncryption, EndpointView, HostAuth, HostAuthView, HostView, SshEndpoint, SshHost};
use crate::navigation::{
    DashboardPage, HostAuthMode, HostConnectionStatus, HostFormState, HostKeyInputMode, HostModalMode,
    SettingsBackupAction, SettingsBackupRestoreStage, SettingsSecurityAction, SettingsSecurityField,
};
use crate::picker::PickerEntry;
use crate::quick_switch::{items_view, ItemView, QuickSwitchItem};
use crate::routing::OpenDialogs;
use crate::settings::SettingsRow;
use crate::text::{byte_len, chars_occur_at, chars_of, concat_str, decimal, occurs_at, repeated, string_views, u64_to_decimal};
use crate::widgets::mask;

verus! {

/// The colour role of a piece of text.
#[derive(Clone, Copy, Debug, PartialEq, Eq, Structural)]
pub enum Tone {
    Text,
    Muted,
    Accent,
    Success,
    Warning,
    Danger,
}

/// Which dialog of the settings page is open, as far as the footer cares.
#[derive(Clone, Copy, Debug, PartialEq, Eq, Structural)]
pub enum SettingsOverlay {
    Nothing,
    Security,
    Backup { action: SettingsBackupAction, stage: SettingsBackupRestoreStage },
}

/// The key hint of the settings page.
pub open spec fn settings_footer_spec(overlay: SettingsOverlay) -> Seq<char> {
    match overlay {
        SettingsOverlay::Backup { action, stage } => match action {
            SettingsBackupAction::CopyDbBlob => "Press C to copy | Esc/Enter close"@,
            SettingsBackupAction::RestoreDbBlob => match stage {
                SettingsBackupRestoreStage::Blob => "Paste backup blob | Enter continue | Esc cancel"@,
                SettingsBackupRestoreStage::Passphrase => "Enter backup passphrase | Enter verify | Esc cancel"@,
                SettingsBackupRestoreStage::Confirm => "Left/Right choose NO/YES | Enter restore | Esc cancel"@,
            },
        },
        SettingsOverlay::Security => "Tab move | Enter submit/next | Left/Right confirm | Esc cancel"@,
        SettingsOverlay::Nothing => "Up/Down/j/k select | Left/Right/h/l edit | Enter action | Ctrl+Q quick switch | Esc exit"@,
    }
}

/// The key hint of the settings page: that of the open backup dialog (by
/// its step), of the open security dialog, or of the page itself.
pub fn settings_footer_hint(overlay: SettingsOverlay) -> (r: &'static str)
    ensures
        r@ == settings_footer_spec(overlay),
{
    match overlay {
        SettingsOverlay::Backup { action, stage } => match action {
            SettingsBackupAction::CopyDbBlob => "Press C to copy | Esc/Enter close",
            SettingsBackupAction::RestoreDbBlob => match stage {
                SettingsBackupRestoreStage::Blob => "Paste backup blob | Enter continue | Esc cancel",
                SettingsBackupRestoreStage::Passphrase => "Enter backup passphrase | Enter verify | Esc cancel",
                SettingsBackupRestoreStage::Confirm => "Left/Right choose NO/YES | Enter restore | Esc cancel",
            },
        },
        SettingsOverlay::Security => "Tab move | Enter submit/next | Left/Right confirm | Esc cancel",
        SettingsOverlay::Nothing => "Up/Down/j/k select | Left/Right/h/l edit | Enter action | Ctrl+Q quick switch | Esc exit",
    }
}

/// The key hint of the quick switcher, which can close tabs on the SSH page.
pub open spec fn switcher_hint_spec(page: DashboardPage) -> Seq<char> {
    if page == DashboardPage::Ssh {
        "Ctrl+Q/Up/Down cycle | Type filter | X close tab | Esc close"@
    } else {
        "Ctrl+Q/Up/Down cycle | Type filter | Esc close"@
    }
}

/// The key hint of the quick switcher.
pub fn switcher_hint(page: DashboardPage) -> (r: &'static str)
    ensures
        r@ == switcher_hint_spec(page),
{
    if page == DashboardPage::Ssh {
        "Ctrl+Q/Up/Down cycle | Type filter | X close tab | Esc close"
    } else {
        "Ctrl+Q/Up/Down cycle | Type filter | Esc close"
    }
}

/// The key hint at the foot of the dashboard.
pub open spec fn keybind_hint_spec(open: OpenDialogs, page: DashboardPage, overlay: SettingsOverlay) -> Seq<char> {
    if open.update_prompt {
        ""@
    } else if open.host_dialog {
        "Tab/Up/Down move | Ctrl+S save | Esc"@
    } else if open.endpoint_picker {
        "Up/Down or j/k move | Enter connect | Esc cancel"@
    } else if open.quick_switcher {
        switcher_hint_spec(page)
    } else {
        match page {
            DashboardPage::Home => "Arrows/hjkl move | A add | E edit | Enter connect | Ctrl+Alt+F SSH fullscreen | Ctrl+Q switch | Esc exit"@,
            DashboardPage::Settings => settings_footer_spec(overlay),
            DashboardPage::Ssh => "SSH: type input | PgUp/PgDn/Home/End scroll | Esc disconnect | Ctrl+Q quick switch"@,
        }
    }
}

/// The key hint at the foot of the dashboard: none under the update prompt;
/// otherwise that of the host dialog, the endpoint picker or the quick
/// switcher when open, in that order, or else that of the page shown.
pub fn keybind_hint(open: OpenDialogs, page: DashboardPage, overlay: SettingsOverlay) -> (r: &'static str)
    ensures
        r@ == keybind_hint_spec(open, page, overlay),
{
    if open.update_prompt {
        ""
    } else if open.host_dialog {
        "Tab/Up/Down move | Ctrl+S save | Esc"
    } else if open.endpoint_picker {
        "Up/Down or j/k move | Enter connect | Esc cancel"
    } else if open.quick_switcher {
        switcher_hint(page)
    } else {
        match page {
            DashboardPage::Home => "Arrows/hjkl move | A add | E edit | Enter connect | Ctrl+Alt+F SSH fullscreen | Ctrl+Q switch | Esc exit",
            DashboardPage::Settings => settings_footer_hint(overlay),
            DashboardPage::Ssh => "SSH: type input | PgUp/PgDn/Home/End scroll | Esc disconnect | Ctrl+Q quick switch",
        }
    }
}

/// The title of the dashboard's frame for a page.
pub open spec fn page_title_spec(page: DashboardPage) -> Seq<char> {
    match page {
        DashboardPage::Home => "Stassh Dashboard"@,
        DashboardPage::Settings => "Stassh Settings"@,
        DashboardPage::Ssh => "Stassh SSH Session"@,
    }
}

/// The title of the dashboard's frame for a page.
pub fn page_title(page: DashboardPage) -> (r: &'static str)
    ensures
        r@ == page_title_spec(page),
{
    match page {
        DashboardPage::Home => "Stassh Dashboard",
        DashboardPage::Settings => "Stassh Settings",
        DashboardPage::Ssh => "Stassh SSH Session",
    }
}

/// What a row of the settings page shows: its label, its value, and
/// whether it opens a dialog rather than holding a setting.
pub struct RowText {
    pub label: &'static str,
    pub value: String,
    pub action_like: bool,
}

/// The label of a settings row.
pub open spec fn row_label_spec(row: SettingsRow) -> Seq<char> {
    match row {
        SettingsRow::Telemetry => "Anonymous telemetry"@,
        SettingsRow::IdleTimeout => "SSH idle timeout"@,
        SettingsRow::ConnectTimeout => "SSH connect timeout"@,
        SettingsRow::EnableEncryption => "Enable DB passphrase"@,
        SettingsRow::ChangePassphrase => "Change DB passphrase"@,
        SettingsRow::RemovePassphrase => "Remove DB passphrase"@,
        SettingsRow::CopyDbBlob => "Create DB backup blob"@,
        SettingsRow::RestoreDbBlob => "Restore DB from backup blob"@,
    }
}

/// Whether a settings row opens a dialog.
pub open spec fn row_is_action(row: SettingsRow) -> bool {
    !(row == SettingsRow::Telemetry || row == SettingsRow::IdleTimeout || row == SettingsRow::ConnectTimeout)
}

/// The value a settings row shows: telemetry ON or OFF, a timeout in
/// seconds, or that a dialog opens.
pub open spec fn row_value_spec(row: SettingsRow, config: Config) -> Seq<char> {
    match row {
        SettingsRow::Telemetry => if config.enable_telemetry == Some(true) { "ON"@ } else { "OFF"@ },
        SettingsRow::IdleTimeout => decimal(config.ssh_idle_timeout_seconds as nat) + "s"@,
        SettingsRow::ConnectTimeout => decimal(config.ssh_connect_timeout_seconds as nat) + "s"@,
        _ => "open modal"@,
    }
}

/// What a row of the settings page shows for the settings `config`.
pub fn settings_row_text(row: SettingsRow, config: &Config) -> (r: RowText)
    ensures
        r.label@ == row_label_spec(row),
        r.value@ == row_value_spec(row, *config),
        r.action_like == row_is_action(row),
{
    match row {
        SettingsRow::Telemetry => RowText {
            label: "Anonymous telemetry",
            value: if config.enable_telemetry == Some(true) { String::from_str("ON") } else { String::from_str("OFF") },
            action_like: false,
        },
        SettingsRow::IdleTimeout => RowText {
            label: "SSH idle timeout",
            value: concat_str(u64_to_decimal(config.ssh_idle_timeout_seconds).as_str(), "s"),
            action_like: false,
        },
        SettingsRow::ConnectTimeout => RowText {
            label: "SSH connect timeout",
            value: concat_str(u64_to_decimal(config.ssh_connect_timeout_seconds).as_str(), "s"),
            action_like: false,
        },
        SettingsRow::EnableEncryption => RowText {
            label: "Enable DB passphrase",
            value: String::from_str("open modal"),
            action_like: true,
        },
        SettingsRow::ChangePassphrase => RowText {
            label: "Change DB passphrase",
            value: String::from_str("open modal"),
            action_like: true,
        },
        SettingsRow::RemovePassphrase => RowText {
            label: "Remove DB passphrase",
            value: String::from_str("open modal"),
            action_like: true,
        },
        SettingsRow::CopyDbBlob => RowText {
            label: "Create DB backup blob",
            value: String::from_str("open modal"),
            action_like: true,
        },
        SettingsRow::RestoreDbBlob => RowText {
            label: "Restore DB from backup blob",
            value: String::from_str("open modal"),
            action_like: true,
        },
    }
}

/// The tone of a settings row's value: plain for a setting, alarming for
/// removing the passphrase, highlighted for the other dialogs.
pub fn row_value_tone(row: SettingsRow) -> (r: Tone)
    ensures
        r == (if !row_is_action(row) {
            Tone::Text
        } else if row == SettingsRow::RemovePassphrase {
            Tone::Danger
        } else {
            Tone::Accent
        }),
{
    match row {
        SettingsRow::Telemetry | SettingsRow::IdleTimeout | SettingsRow::ConnectTimeout => Tone::Text,
        SettingsRow::RemovePassphrase => Tone::Danger,
        _ => Tone::Accent,
    }
}

/// How the runtime panel names the database encryption setting.
pub open spec fn encryption_label_spec(enc: Option<DbEncryption>) -> Seq<char> {
    match enc {
        Some(DbEncryption::Passphrase) => "passphrase"@,
        Some(DbEncryption::Unencrypted) => "none"@,
        None => "unset"@,
    }
}

/// How the runtime panel names the database encryption setting.
pub fn encryption_label(enc: Option<DbEncryption>) -> (r: &'static str)
    ensures
        r@ == encryption_label_spec(enc),
{
    match enc {
        Some(DbEncryption::Passphrase) => "passphrase",
        Some(DbEncryption::Unencrypted) => "none",
        None => "unset",
    }
}

/// How a host card names the host's authentication.
pub open spec fn auth_label_spec(auth: HostAuthView) -> Seq<char> {
    match auth {
        HostAuthView::KeyPath { .. } => "key(path)"@,
        HostAuthView::KeyInline { .. } => "key(inline)"@,
        HostAuthView::Password { .. } => "password"@,
    }
}

/// How a host card names the host's authentication.
pub fn auth_label(auth: &HostAuth) -> (r: &'static str)
    ensures
        r@ == auth_label_spec(auth@),
{
    match auth {
        HostAuth::KeyPath { .. } => "key(path)",
        HostAuth::KeyInline { .. } => "key(inline)",
        HostAuth::Password { .. } => "password",
    }
}

/// `host:port` for an endpoint.
pub open spec fn address_spec(e: EndpointView) -> Seq<char> {
    e.host + ":"@ + decimal(e.port as nat)
}

/// `host:port` for an endpoint.
pub fn endpoint_address(e: &SshEndpoint) -> (r: String)
    ensures
        r@ == address_spec(e@),
{
    let with_colon = concat_str(e.host.as_str(), ":");
    let port = u64_to_decimal(e.port as u64);
    let r = concat_str(with_colon.as_str(), port.as_str());
    assert(r@ =~= address_spec(e@));
    r
}

/// The endpoint a host card shows: the first one as `user@host:port`, or
/// `user@n/a` when the host has none.
pub open spec fn primary_endpoint_spec(h: HostView) -> Seq<char> {
    if h.endpoints.len() == 0 {
        h.user + "@n/a"@
    } else {
        h.user + "@"@ + address_spec(h.endpoints[0])
    }
}

/// The endpoint a host card shows.
pub fn primary_endpoint(host: &SshHost) -> (r: String)
    ensures
        r@ == primary_endpoint_spec(host@),
{
    if host.endpoints.len() == 0 {
        concat_str(host.user.as_str(), "@n/a")
    } else {
        let at = concat_str(host.user.as_str(), "@");
        let addr = endpoint_address(&host.endpoints[0]);
        let r = concat_str(at.as_str(), addr.as_str());
        assert(r@ =~= primary_endpoint_spec(host@));
        r
    }
}

/// Whether a host card is drawn as failing: no endpoint is reachable and
/// none is still unknown (so also when there is no status at all).
pub open spec fn card_alarm_spec(s: Seq<HostConnectionStatus>) -> bool {
    !(exists|i: int| 0 <= i < s.len() && (s[i] == HostConnectionStatus::Reachable || s[i] == HostConnectionStatus::Unknown))
}

/// Whether a host card is drawn as failing.
pub fn card_alarm(statuses: &Vec<HostConnectionStatus>) -> (r: bool)
    ensures
        r == card_alarm_spec(statuses@),
{
    let mut i: usize = 0;
    while i < statuses.len()
        invariant
            i <= statuses@.len(),
            forall|j: int| 0 <= j < i ==> statuses@[j] == HostConnectionStatus::Unreachable,
        decreases statuses@.len() - i,
    {
        if statuses[i] != HostConnectionStatus::Unreachable {
            return false;
        }
        i = i + 1;
    }
    true
}

/// The tone of an endpoint's status: reachable is good news, unreachable
/// bad news, unknown neither.
pub fn status_tone(status: HostConnectionStatus) -> (r: Tone)
    ensures
        r == (match status {
            HostConnectionStatus::Reachable => Tone::Success,
            HostConnectionStatus::Unreachable => Tone::Danger,
            HostConnectionStatus::Unknown => Tone::Muted,
        }),
{
    match status {
        HostConnectionStatus::Reachable => Tone::Success,
        HostConnectionStatus::Unreachable => Tone::Danger,
        HostConnectionStatus::Unknown => Tone::Muted,
    }
}

/// How the endpoint picker names an endpoint's status.
pub open spec fn status_word_spec(status: HostConnectionStatus) -> Seq<char> {
    match status {
        HostConnectionStatus::Reachable => "reachable"@,
        HostConnectionStatus::Unreachable => "unreachable"@,
        HostConnectionStatus::Unknown => "unknown"@,
    }
}

/// How the endpoint picker names an endpoint's status.
pub fn status_word(status: HostConnectionStatus) -> (r: &'static str)
    ensures
        r@ == status_word_spec(status),
{
    match status {
        HostConnectionStatus::Reachable => "reachable",
        HostConnectionStatus::Unreachable => "unreachable",
        HostConnectionStatus::Unknown => "unknown",
    }
}

/// What follows a group's name in its header: its number of hosts.
pub open spec fn host_count_spec(n: nat) -> Seq<char> {
    "  "@ + decimal(n) + " host"@ + (if n == 1 { ""@ } else { "s"@ })
}

/// What follows a group's name in its header, for `n` hosts.
pub fn host_count_text(n: usize) -> (r: String)
    ensures
        r@ == host_count_spec(n as nat),
{
    let digits = u64_to_decimal(n as u64);
    let head = concat_str("  ", digits.as_str());
    let word = concat_str(head.as_str(), " host");
    let r = concat_str(word.as_str(), if n == 1 { "" } else { "s" });
    assert(r@ =~= host_count_spec(n as nat));
    r
}

/// The spinner's character for a frame.
pub fn spinner_glyph(frame: usize) -> (r: char)
    ensures
        r == spinner_char(frame),
{
    let k = frame % 4;
    if k == 0 {
        '-'
    } else if k == 1 {
        '\\'
    } else if k == 2 {
        '|'
    } else {
        '/'
    }
}

/// The selection brought within a list of `len` rows (the first row when
/// the list is empty).
pub open spec fn clamp_selection(selected: usize, len: nat) -> int {
    if len == 0 {
        0
    } else if selected < len {
        selected as int
    } else {
        len - 1
    }
}

/// The first row shown when the selection is to be, at most, the last of
/// `visible` rows.
pub open spec fn trailing_start(sel: int, visible: usize) -> int {
    let back: int = if visible == 0 { 0 } else { visible - 1 };
    if sel > back { sel - back } else { 0 }
}

/// How many of `len` rows are shown from `start` in `visible` lines.
pub open spec fn shown_count(len: nat, start: int, visible: usize) -> int {
    if start >= len {
        0
    } else if len - start < visible {
        len - start
    } else {
        visible as int
    }
}

/// A row of the endpoint picker: its text and the status it names.
pub struct EndpointRow {
    pub text: String,
    pub status: HostConnectionStatus,
}

/// The text of a row of the endpoint picker: a marker on the selection,
/// then the endpoint's address.
pub open spec fn endpoint_row_spec(e: EndpointView, selected: bool) -> Seq<char> {
    (if selected { ">"@ } else { " "@ }) + " "@ + address_spec(e) + "  "@
}

/// The status recorded for the endpoint at `i`, unknown when none is.
pub open spec fn status_at(s: Seq<HostConnectionStatus>, i: int) -> HostConnectionStatus {
    if 0 <= i < s.len() { s[i] } else { HostConnectionStatus::Unknown }
}

/// The rows the endpoint picker shows in `visible` lines: scrolled so that
/// the selection (brought within the list) is on screen, each with the
/// status recorded for its endpoint.
pub fn endpoint_picker_rows(
    endpoints: &Vec<SshEndpoint>,
    selected: usize,
    statuses: &Vec<HostConnectionStatus>,
    visible: usize,
) -> (r: Vec<EndpointRow>)
    ensures
        ({
            let sel = clamp_selection(selected, endpoints@.len());
            let start = trailing_start(sel, visible);
            &&& r@.len() == shown_count(endpoints@.len(), start, visible)
            &&& forall|k: int| 0 <= k < r@.len() ==> {
                &&& (#[trigger] r@[k]).text@ == endpoint_row_spec(endpoints@[start + k]@, start + k == sel)
                &&& r@[k].status == status_at(statuses@, start + k)
            }
        }),
{
    let len = endpoints.len();
    let sel: usize = if len == 0 { 0 } else if selected < len { selected } else { len - 1 };
    let back: usize = if visible == 0 { 0 } else { visible - 1 };
    let start: usize = if sel > back { sel - back } else { 0 };
    let mut r: Vec<EndpointRow> = Vec::new();
    let mut k: usize = 0;
    while k < visible && start < len && k < len - start
        invariant
            sel == clamp_selection(selected, endpoints@.len()),
            start == trailing_start(sel as int, visible),
            len == endpoints@.len(),
            k <= visible,
            start < len ==> k <= len - start,
            start >= len ==> k == 0,
            r@.len() == k,
            forall|j: int| 0 <= j < k ==> {
                &&& (#[trigger] r@[j]).text@ == endpoint_row_spec(endpoints@[start + j]@, start + j == sel)
                &&& r@[j].status == status_at(statuses@, start + j)
            },
        decreases visible - k,
    {
        let i = start + k;
        let marker = if i == sel { "> " } else { "  " };
        let addr = endpoint_address(&endpoints[i]);
        let head = concat_str(marker, addr.as_str());
        let text = concat_str(head.as_str(), "  ");
        proof {
            reveal_strlit("> ");
            reveal_strlit("  ");
            reveal_strlit(">");
            reveal_strlit(" ");
            assert(text@ =~= endpoint_row_spec(endpoints@[i as int]@, i == sel));
        }
        let status = if i < statuses.len() { statuses[i] } else { HostConnectionStatus::Unknown };
        r.push(EndpointRow { text, status });
        k = k + 1;
    }
    r
}

/// A number right-aligned in two columns.
pub open spec fn pad2(s: Seq<char>) -> Seq<char> {
    if s.len() < 2 { Seq::new((2 - s.len()) as nat, |_i: int| ' ') + s } else { s }
}

/// A row of the quick switcher: a marker on the selection, the entry's
/// number and its label.
pub open spec fn switch_row_spec(item: ItemView, selected: bool) -> Seq<char> {
    (if selected { ">"@ } else { " "@ }) + " "@ + pad2(decimal(item.number as nat)) + ". "@ + item.label
}

/// The rows for the first `n` shown positions from `start`, skipping a
/// position that names no entry.
pub open spec fn switch_rows_upto(items: Seq<ItemView>, shown: Seq<usize>, sel: int, start: int, n: nat) -> Seq<Seq<char>>
    decreases n,
{
    if n == 0 {
        Seq::empty()
    } else {
        let prev = switch_rows_upto(items, shown, sel, start, (n - 1) as nat);
        let d = start + n - 1;
        let idx = shown[d];
        if idx < items.len() {
            prev.push(switch_row_spec(items[idx as int], d == sel))
        } else {
            prev
        }
    }
}

/// The row the quick switcher shows when nothing matches.
pub open spec fn no_matches_row() -> Seq<char> {
    "  no matches"@
}

/// The rows the quick switcher shows in `visible` lines for the entries at
/// the positions `shown`: scrolled so that the selection (brought within
/// the list) is on screen, or a single row saying that nothing matches.
pub fn quick_switch_rows(items: &Vec<QuickSwitchItem>, shown: &Vec<usize>, selected: usize, visible: usize) -> (r: Vec<String>)
    ensures
        shown@.len() == 0 ==> string_views(r@) == seq![no_matches_row()],
        shown@.len() > 0 ==> ({
            let sel = clamp_selection(selected, shown@.len());
            let start = trailing_start(sel, visible);
            string_views(r@) == switch_rows_upto(
                items_view(items@),
                shown@,
                sel,
                start,
                shown_count(shown@.len(), start, visible) as nat,
            )
        }),
{
    let mut r: Vec<String> = Vec::new();
    if shown.len() == 0 {
        r.push(String::from_str("  no matches"));
        proof {
            assert(string_views(r@) =~= seq![no_matches_row()]);
        }
        return r;
    }
    let len = shown.len();
    let sel: usize = if selected < len { selected } else { len - 1 };
    let back: usize = if visible == 0 { 0 } else { visible - 1 };
    let start: usize = if sel > back { sel - back } else { 0 };
    let ghost iv = items_view(items@);
    let mut k: usize = 0;
    while k < visible && start < len && k < len - start
        invariant
            len == shown@.len(),
            len > 0,
            sel == clamp_selection(selected, shown@.len()),
            start == trailing_start(sel as int, visible),
            start <= sel < len,
            k <= visible,
            k <= len - start,
            iv == items_view(items@),
            string_views(r@) == switch_rows_upto(iv, shown@, sel as int, start as int, k as nat),
        decreases visible - k,
    {
        let d = start + k;
        let idx = shown[d];
        if idx < items.len() {
            let item = &items[idx];
            let marker = if d == sel { "> " } else { "  " };
            let digits = u64_to_decimal(item.number as u64);
            let padded = if digits.unicode_len() < 2 { concat_str(" ", digits.as_str()) } else { digits };
            let head = concat_str(marker, padded.as_str());
            let dotted = concat_str(head.as_str(), ". ");
            let line = concat_str(dotted.as_str(), item.label.as_str());
            proof {
                reveal_strlit("> ");
                reveal_strlit("  ");
                reveal_strlit(">");
                reveal_strlit(" ");
                let dec = decimal(item.number as nat);
                assert(dec.len() >= 1) by {
                    lemma_decimal_nonempty(item.number as nat);
                }
                assert(padded@ =~= pad2(dec));
                assert(iv[idx as int] == item@);
                assert(line@ =~= switch_row_spec(iv[idx as int], d == sel));
            }
            let ghost before = r@;
            r.push(line);
            proof {
                assert(string_views(r@) =~= string_views(before).push(line@));
            }
        }
        k = k + 1;
    }
    r
}

/// The decimal form of a number has a digit.
proof fn lemma_decimal_nonempty(n: nat)
    ensures
        decimal(n).len() >= 1,
    decreases n,
{
    if n >= 10 {
        lemma_decimal_nonempty(n / 10);
    }
}

/// The first row the key picker shows: where it is scrolled to, unless the
/// selection (brought within the list) lies below the `visible` rows from
/// there, in which case the selection becomes the last row shown.
pub open spec fn picker_start(scroll: usize, sel: int, visible: usize) -> int {
    let end: int = if scroll + visible > usize::MAX { usize::MAX as int } else { scroll + visible };
    if visible > 0 && sel >= end { sel + 1 - visible } else { scroll as int }
}

/// A row of the key picker.
pub struct PickerRow {
    /// `"> "` on the selection, two blanks elsewhere.
    pub marker: &'static str,
    pub label: String,
    pub is_dir: bool,
}

/// The rows the key picker shows in `visible` lines.
pub fn key_picker_rows(entries: &Vec<PickerEntry>, scroll: usize, selected: usize, visible: usize) -> (r: Vec<PickerRow>)
    ensures
        ({
            let sel = clamp_selection(selected, entries@.len());
            let start = picker_start(scroll, sel, visible);
            &&& r@.len() == shown_count(entries@.len(), start, visible)
            &&& forall|k: int| 0 <= k < r@.len() ==> {
                &&& (#[trigger] r@[k]).marker@ == (if start + k == sel { "> "@ } else { "  "@ })
                &&& r@[k].label@ == entries@[start + k].label@
                &&& r@[k].is_dir == entries@[start + k].is_dir
            }
        }),
{
    let len = entries.len();
    let sel: usize = if len == 0 { 0 } else if selected < len { selected } else { len - 1 };
    let end: usize = if scroll > usize::MAX - visible { usize::MAX } else { scroll + visible };
    let start: usize = if visible > 0 && sel >= end { sel + 1 - visible } else { scroll };
    let mut r: Vec<PickerRow> = Vec::new();
    let mut k: usize = 0;
    while k < visible && start < len && k < len - start
        invariant
            len == entries@.len(),
            sel == clamp_selection(selected, entries@.len()),
            start == picker_start(scroll, sel as int, visible),
            k <= visible,
            start < len ==> k <= len - start,
            start >= len ==> k == 0,
            r@.len() == k,
            forall|j: int| 0 <= j < k ==> {
                &&& (#[trigger] r@[j]).marker@ == (if start + j == sel { "> "@ } else { "  "@ })
                &&& r@[j].label@ == entries@[start + j].label@
                &&& r@[j].is_dir == entries@[start + j].is_dir
            },
        decreases visible - k,
    {
        let i = start + k;
        let e = &entries[i];
        r.push(PickerRow { marker: if i == sel { "> " } else { "  " }, label: e.label.clone(), is_dir: e.is_dir });
        k = k + 1;
    }
    r
}

/// The title of the host dialog.
pub fn host_dialog_title(mode: HostModalMode) -> (r: &'static str)
    ensures
        r@ == (if mode is Create { "Create Host"@ } else { "Edit Host"@ }),
{
    match mode {
        HostModalMode::Create => "Create Host",
        HostModalMode::Edit { .. } => "Edit Host",
    }
}

/// What the host dialog shows for the authentication of a form.
pub struct AuthFieldText {
    /// The value of the authentication mode field.
    pub mode_text: &'static str,
    /// The label of the field below it.
    pub value_label: &'static str,
    /// What that field holds: the key path, the key text, or the password
    /// masked.
    pub value: String,
    /// What the field shows while empty, if anything.
    pub placeholder: Option<&'static str>,
    /// Whether the field is a secret (and is masked when drawn).
    pub secret: bool,
    /// The height of the field in lines.
    pub value_height: u16,
}

/// The value of the authentication mode field.
pub open spec fn mode_text_spec(sel: AuthSelection) -> Seq<char> {
    match sel {
        AuthSelection::KeyPath => "key path on system"@,
        AuthSelection::KeyInline => "key in database"@,
        AuthSelection::Password => "password"@,
    }
}

/// The label of the authentication value field.
pub open spec fn value_label_spec(sel: AuthSelection) -> Seq<char> {
    match sel {
        AuthSelection::KeyPath => "System key [Enter/Right select]"@,
        AuthSelection::KeyInline => "Load key into DB (paste or import from picker)"@,
        AuthSelection::Password => "Password"@,
    }
}

/// A secret as drawn: one `*` per byte.
pub open spec fn masked(s: Seq<char>) -> Seq<char> {
    repeated('*', (byte_len(s) as usize) as nat)
}

/// What the authentication value field holds.
pub open spec fn auth_value_spec(form: HostFormState) -> Seq<char> {
    match selection_of(form) {
        AuthSelection::KeyPath => form.key_path@,
        AuthSelection::KeyInline => form.key_inline@,
        AuthSelection::Password => masked(form.password@),
    }
}

/// What the host dialog shows for the authentication of `form`.
pub fn host_dialog_auth_text(form: &HostFormState) -> (r: AuthFieldText)
    ensures
        r.mode_text@ == mode_text_spec(selection_of(*form)),
        r.value_label@ == value_label_spec(selection_of(*form)),
        r.value@ == auth_value_spec(*form),
        r.placeholder == (if selection_of(*form) == AuthSelection::KeyPath { Some("no key selected") } else { None::<&str> }),
        r.secret == (form.auth_mode == HostAuthMode::Password),
        r.value_height == (if selection_of(*form) == AuthSelection::KeyInline { 5u16 } else { 3u16 }),
{
    match auth_selection(form) {
        AuthSelection::KeyPath => AuthFieldText {
            mode_text: "key path on system",
            value_label: "System key [Enter/Right select]",
            value: form.key_path.clone(),
            placeholder: Some("no key selected"),
            secret: false,
            value_height: 3,
        },
        AuthSelection::KeyInline => AuthFieldText {
            mode_text: "key in database",
            value_label: "Load key into DB (paste or import from picker)",
            value: form.key_inline.clone(),
            placeholder: None,
            secret: false,
            value_height: 5,
        },
        AuthSelection::Password => AuthFieldText {
            mode_text: "password",
            value_label: "Password",
            value: mask(form.password.as_str()),
            placeholder: None,
            secret: true,
            value_height: 3,
        },
    }
}

/// What an input field of the host dialog shows.
pub struct FieldDisplay {
    pub text: String,
    /// Whether the placeholder is shown in place of an empty value.
    pub placeholder_shown: bool,
}

/// What an input field shows for `value`: masked when secret, else the
/// placeholder while the value is empty, else the value.
pub fn field_display(value: &str, secret: bool, placeholder: Option<&str>) -> (r: FieldDisplay)
    ensures
        r.placeholder_shown == (value@.len() == 0 && placeholder is Some),
        r.text@ == (if secret {
            masked(value@)
        } else if placeholder is Some && value@.len() == 0 {
            placeholder->0@
        } else {
            value@
        }),
{
    let empty = value.unicode_len() == 0;
    let shown = empty && placeholder.is_some();
    let text = if secret {
        mask(value)
    } else {
        match placeholder {
            Some(p) => if empty { String::from_str(p) } else { String::from_str(value) },
            None => String::from_str(value),
        }
    };
    FieldDisplay { text, placeholder_shown: shown }
}

/// The question of the update prompt.
pub open spec fn update_question_spec(latest: Seq<char>, current: Seq<char>) -> Seq<char> {
    "Upgrade to "@ + latest + " from "@ + current + "?\n"@
}

/// The question of the update prompt.
pub fn update_question(latest: &str, current: &str) -> (r: String)
    ensures
        r@ == update_question_spec(latest@, current@),
{
    let a = concat_str("Upgrade to ", latest);
    let b = concat_str(a.as_str(), " from ");
    let c = concat_str(b.as_str(), current);
    let r = concat_str(c.as_str(), "?\n");
    assert(r@ =~= update_question_spec(latest@, current@));
    r
}

/// What the host key dialog says: a warning with both fingerprints when
/// the endpoint's key changed, else that this is the first connection.
pub open spec fn trust_text_spec(c: TrustChallenge) -> Seq<char> {
    let k = c.proposed_key;
    let at = k.host@ + ":"@ + decimal(k.port as nat);
    match c.previous_fingerprint {
        Some(prev) => "WARNING: host key changed for "@ + at + "\nOld fingerprint: "@ + prev@
            + "\nNew fingerprint: "@ + k.fingerprint_sha256@ + "\nAlgorithm: "@ + k.algorithm@,
        None => "First connection to "@ + at + "\nFingerprint: "@ + k.fingerprint_sha256@ + "\nAlgorithm: "@
            + k.algorithm@,
    }
}

/// What the host key dialog says about `challenge`.
pub fn trust_text(challenge: &TrustChallenge) -> (r: String)
    ensures
        r@ == trust_text_spec(*challenge),
{
    let k = &challenge.proposed_key;
    let port = u64_to_decimal(k.port as u64);
    let h = concat_str(k.host.as_str(), ":");
    let at = concat_str(h.as_str(), port.as_str());
    match &challenge.previous_fingerprint {
        Some(prev) => {
            let a = concat_str("WARNING: host key changed for ", at.as_str());
            let b = concat_str(a.as_str(), "\nOld fingerprint: ");
            let c = concat_str(b.as_str(), prev.as_str());
            let d = concat_str(c.as_str(), "\nNew fingerprint: ");
            let e = concat_str(d.as_str(), k.fingerprint_sha256.as_str());
            let f = concat_str(e.as_str(), "\nAlgorithm: ");
            let r = concat_str(f.as_str(), k.algorithm.as_str());
            assert(r@ =~= trust_text_spec(*challenge));
            r
        },
        None => {
            let a = concat_str("First connection to ", at.as_str());
            let b = concat_str(a.as_str(), "\nFingerprint: ");
            let c = concat_str(b.as_str(), k.fingerprint_sha256.as_str());
            let d = concat_str(c.as_str(), "\nAlgorithm: ");
            let r = concat_str(d.as_str(), k.algorithm.as_str());
            assert(r@ =~= trust_text_spec(*challenge));
            r
        },
    }
}

/// The title of a security dialog.
pub open spec fn security_title_spec(action: SettingsSecurityAction) -> Seq<char> {
    match action {
        SettingsSecurityAction::EnableEncryption => "Enable DB passphrase"@,
        SettingsSecurityAction::ChangePassphrase => "Change DB passphrase"@,
        SettingsSecurityAction::RemovePassphrase => "Remove DB passphrase"@,
    }
}

/// The title of a security dialog.
pub fn security_dialog_title(action: SettingsSecurityAction) -> (r: &'static str)
    ensures
        r@ == security_title_spec(action),
{
    match action {
        SettingsSecurityAction::EnableEncryption => "Enable DB passphrase",
        SettingsSecurityAction::ChangePassphrase => "Change DB passphrase",
        SettingsSecurityAction::RemovePassphrase => "Remove DB passphrase",
    }
}

/// The key hint of a security dialog: removing asks for a confirmation.
pub fn security_dialog_footer(action: SettingsSecurityAction) -> (r: &'static str)
    ensures
        r@ == (if action == SettingsSecurityAction::RemovePassphrase {
            "Left/Right confirm removal | Enter submit | Esc cancel"@
        } else {
            "Tab move | Enter next/submit | Esc cancel"@
        }),
{
    match action {
        SettingsSecurityAction::RemovePassphrase => "Left/Right confirm removal | Enter submit | Esc cancel",
        _ => "Tab move | Enter next/submit | Esc cancel",
    }
}

/// The label of a passphrase field of a security dialog.
pub open spec fn passphrase_label_spec(field: SettingsSecurityField) -> Seq<char> {
    match field {
        SettingsSecurityField::Current => "Current passphrase"@,
        SettingsSecurityField::New => "New passphrase"@,
        SettingsSecurityField::Confirm => "Confirm passphrase"@,
        SettingsSecurityField::DangerConfirm => "Confirm removal"@,
    }
}

/// The label of a field of a security dialog.
pub fn passphrase_label(field: SettingsSecurityField) -> (r: &'static str)
    ensures
        r@ == passphrase_label_spec(field),
{
    match field {
        SettingsSecurityField::Current => "Current passphrase",
        SettingsSecurityField::New => "New passphrase",
        SettingsSecurityField::Confirm => "Confirm passphrase",
        SettingsSecurityField::DangerConfirm => "Confirm removal",
    }
}

/// The confirmation line of the dialog that removes the passphrase.
pub open spec fn removal_line_spec(focused: bool, yes: bool) -> Seq<char> {
    (if focused { ">"@ } else { " "@ }) + " "@ + (if yes { "Confirm removal: YES"@ } else { "Confirm removal: NO"@ })
}

/// The confirmation line of the dialog that removes the passphrase.
pub fn removal_confirm_line(focused: bool, yes: bool) -> (r: String)
    ensures
        r@ == removal_line_spec(focused, yes),
{
    let head = if focused { "> " } else { "  " };
    let r = concat_str(head, if yes { "Confirm removal: YES" } else { "Confirm removal: NO" });
    proof {
        reveal_strlit("> ");
        reveal_strlit("  ");
        reveal_strlit(">");
        reveal_strlit(" ");
        assert(r@ =~= removal_line_spec(focused, yes));
    }
    r
}

/// The title of a backup dialog.
pub fn backup_dialog_title(action: SettingsBackupAction) -> (r: &'static str)
    ensures
        r@ == (if action == SettingsBackupAction::CopyDbBlob { "DB backup blob"@ } else { "Restore DB from backup blob"@ }),
{
    match action {
        SettingsBackupAction::CopyDbBlob => "DB backup blob",
        SettingsBackupAction::RestoreDbBlob => "Restore DB from backup blob",
    }
}

/// The key hint of a backup dialog: for a restore, the step it is at.
pub open spec fn backup_footer_spec(action: SettingsBackupAction, stage: SettingsBackupRestoreStage) -> Seq<char> {
    match action {
        SettingsBackupAction::CopyDbBlob => "Press C to copy | Enter/Esc close"@,
        SettingsBackupAction::RestoreDbBlob => match stage {
            SettingsBackupRestoreStage::Blob => "Step 1/3: paste blob, then Enter | Esc cancel"@,
            SettingsBackupRestoreStage::Passphrase => "Step 2/3: enter passphrase, then Enter | Esc cancel"@,
            SettingsBackupRestoreStage::Confirm => "Step 3/3: choose YES/NO, then Enter | Esc cancel"@,
        },
    }
}

/// The key hint of a backup dialog.
pub fn backup_dialog_footer(action: SettingsBackupAction, stage: SettingsBackupRestoreStage) -> (r: &'static str)
    ensures
        r@ == backup_footer_spec(action, stage),
{
    match action {
        SettingsBackupAction::CopyDbBlob => "Press C to copy | Enter/Esc close",
        SettingsBackupAction::RestoreDbBlob => match stage {
            SettingsBackupRestoreStage::Blob => "Step 1/3: paste blob, then Enter | Esc cancel",
            SettingsBackupRestoreStage::Passphrase => "Step 2/3: enter passphrase, then Enter | Esc cancel",
            SettingsBackupRestoreStage::Confirm => "Step 3/3: choose YES/NO, then Enter | Esc cancel",
        },
    }
}

/// The reminder of the backup dialog about the passphrase a restore needs.
pub fn backup_password_note(enc: Option<DbEncryption>) -> (r: &'static str)
    ensures
        r@ == (if enc == Some(DbEncryption::Passphrase) {
            "Your DB is encrypted. Remember the current DB password for restore."@
        } else {
            "If you later enable DB encryption, remember the password used for that backup."@
        }),
{
    if enc == Some(DbEncryption::Passphrase) {
        "Your DB is encrypted. Remember the current DB password for restore."
    } else {
        "If you later enable DB encryption, remember the password used for that backup."
    }
}

/// The copy status line of the backup dialog and its tone.
pub struct CopyStatus {
    pub text: String,
    pub tone: Tone,
}

/// The copy status line: the last copy's feedback (or that nothing was
/// copied yet), good news when it starts with "Copied", bad news when it
/// starts with "Copy failed".
pub fn copy_status(feedback: &Option<String>) -> (r: CopyStatus)
    ensures
        ({
            let f = match feedback {
                Some(t) => t@,
                None => "Not copied yet"@,
            };
            &&& r.text@ == "Copy status: "@ + f
            &&& r.tone == (if occurs_at(f, "Copied"@, 0) {
                Tone::Success
            } else if occurs_at(f, "Copy failed"@, 0) {
                Tone::Danger
            } else {
                Tone::Muted
            })
        }),
{
    let f: &str = match feedback {
        Some(t) => t.as_str(),
        None => "Not copied yet",
    };
    let cs = chars_of(f);
    let copied = chars_of("Copied");
    let failed = chars_of("Copy failed");
    let tone = if chars_occur_at(&cs, &copied, 0) {
        Tone::Success
    } else if chars_occur_at(&cs, &failed, 0) {
        Tone::Danger
    } else {
        Tone::Muted
    };
    CopyStatus { text: concat_str("Copy status: ", f), tone }
}

/// The label of the download gauge: bytes so far, out of the total when
/// it is known.
pub open spec fn download_label_spec(downloaded: u64, total: Option<u64>) -> Seq<char> {
    match total {
        Some(t) => decimal(downloaded as nat) + " / "@ + decimal(t as nat) + " bytes"@,
        None => decimal(downloaded as nat) + " bytes downloaded"@,
    }
}

/// The label of the download gauge.
pub fn download_label(downloaded: u64, total: Option<u64>) -> (r: String)
    ensures
        r@ == download_label_spec(downloaded, total),
{
    let d = u64_to_decimal(downloaded);
    match total {
        Some(t) => {
            let a = concat_str(d.as_str(), " / ");
            let td = u64_to_decimal(t);
            let b = concat_str(a.as_str(), td.as_str());
            let r = concat_str(b.as_str(), " bytes");
            assert(r@ =~= download_label_spec(downloaded, total));
            r
        },
        None => concat_str(d.as_str(), " bytes downloaded"),
    }
}

/// What the startup update screen says under its title in a phase: a
/// line of news and a hint, where the phase has them.
pub struct InstallNote {
    pub news: Option<String>,
    pub news_tone: Tone,
    pub hint: Option<&'static str>,
}

/// The line of news of the startup update screen.
pub open spec fn install_news_spec(phase: InstallPhase, message: Option<Seq<char>>) -> Option<Seq<char>> {
    match phase {
        InstallPhase::Checking => Some("Contacting GitHub releases..."@),
        InstallPhase::Verifying => Some("Checking checksum..."@),
        InstallPhase::Installing => Some("Replacing current binary..."@),
        InstallPhase::Done => Some("Restart the app to use the new version."@),
        InstallPhase::Failed => Some(
            match message {
                Some(m) => m,
                None => "Update unavailable"@,
            },
        ),
        _ => None,
    }
}

/// What the startup update screen says under its title in `phase`; a
/// failure shows the installer's message when there is one.
pub fn install_note(phase: InstallPhase, message: &Option<String>) -> (r: InstallNote)
    ensures
        (match r.news {
            Some(n) => Some(n@),
            None => None::<Seq<char>>,
        }) == install_news_spec(
            phase,
            match message {
                Some(m) => Some(m@),
                None => None::<Seq<char>>,
            },
        ),
        r.news_tone == (match phase {
            InstallPhase::Done => Tone::Success,
            InstallPhase::Failed => Tone::Warning,
            _ => Tone::Text,
        }),
        r.hint == (match phase {
            InstallPhase::Prompt => Some("Press Enter to install or S to skip this launch"),
            InstallPhase::Failed => Some("Press S to continue without updating"),
            _ => None::<&str>,
        }),
{
    match phase {
        InstallPhase::Checking => InstallNote {
            news: Some(String::from_str("Contacting GitHub releases...")),
            news_tone: Tone::Text,
            hint: None,
        },
        InstallPhase::Prompt => InstallNote {
            news: None,
            news_tone: Tone::Text,
            hint: Some("Press Enter to install or S to skip this launch"),
        },
        InstallPhase::Downloading => InstallNote { news: None, news_tone: Tone::Text, hint: None },
        InstallPhase::Verifying => InstallNote {
            news: Some(String::from_str("Checking checksum...")),
            news_tone: Tone::Text,
            hint: None,
        },
        InstallPhase::Installing => InstallNote {
            news: Some(String::from_str("Replacing current binary...")),
            news_tone: Tone::Text,
            hint: None,
        },
        InstallPhase::Done => InstallNote {
            news: Some(String::from_str("Restart the app to use the new version.")),
            news_tone: Tone::Success,
            hint: None,
        },
        InstallPhase::Failed => InstallNote {
            news: Some(
                match message {
                    Some(m) => m.clone(),
                    None => String::from_str("Update unavailable"),
                },
            ),
            news_tone: Tone::Warning,
            hint: Some("Press S to continue without updating"),
        },
    }
}

/// Where the terminal view draws its cursor: nowhere while the cursor is
/// hidden or the view is scrolled back, else at the cursor's position
/// brought within a screen of `rows` by `cols` cells.
pub open spec fn cursor_cell_spec(hidden: bool, scrollback: usize, row: u16, col: u16, rows: u16, cols: u16) -> Option<(u16, u16)> {
    if hidden || scrollback != 0 || rows == 0 || cols == 0 {
        None
    } else {
        Some((if row < rows { row } else { (rows - 1) as u16 }, if col < cols { col } else { (cols - 1) as u16 }))
    }
}

/// Where the terminal view draws its cursor.
pub fn cursor_cell(hidden: bool, scrollback: usize, row: u16, col: u16, rows: u16, cols: u16) -> (r: Option<(u16, u16)>)
    ensures
        r == cursor_cell_spec(hidden, scrollback, row, col, rows, cols),
{
    if hidden || scrollback != 0 || rows == 0 || cols == 0 {
        None
    } else {
        Some((if row < rows { row } else { rows - 1 }, if col < cols { col } else { cols - 1 }))
    }
}

/// What the key picker says of where the chosen key goes.
pub fn picker_mode_hint(mode: HostKeyInputMode) -> (r: &'static str)
    ensures
        r@ == (if mode == HostKeyInputMode::Path { "Path mode"@ } else { "Load-into-DB mode"@ }),
{
    match mode {
        HostKeyInputMode::Path => "Path mode",
        HostKeyInputMode::Inline => "Load-into-DB mode",
    }
}

} // verus!
