use stassh::host_keys::TrustChallenge;
use stassh::model::{Config, DbEncryption, HostAuth, SshEndpoint, SshHost, TrustedHostKey};
use stassh::navigation::{
    DashboardPage, HostAuthMode, HostConnectionStatus, HostFormState, HostKeyInputMode, HostModalMode,
    SettingsBackupAction, SettingsBackupRestoreStage, SettingsSecurityAction, SettingsSecurityField,
};
use stassh::picker::PickerEntry;
use stassh::quick_switch::{QuickSwitchItem, QuickSwitchTarget};
use stassh::routing::OpenDialogs;
use stassh::settings::SettingsRow;
use stassh::views::{
    auth_label, backup_dialog_footer, backup_dialog_title, backup_password_note, card_alarm, copy_status,
    encryption_label, endpoint_picker_rows, field_display, host_count_text, host_dialog_auth_text,
    host_dialog_title, key_picker_rows, keybind_hint, page_title, passphrase_label, primary_endpoint,
    quick_switch_rows, removal_confirm_line, row_value_tone, security_dialog_footer, security_dialog_title,
    settings_footer_hint, settings_row_text, spinner_glyph, status_tone, status_word, switcher_hint, trust_text,
    update_question, cursor_cell, download_label, install_note, picker_mode_hint, SettingsOverlay, Tone,
};
use stassh::install::InstallPhase;
use stassh::navigation::HostConnectionStatus::{Reachable, Unknown, Unreachable};

fn closed() -> OpenDialogs {
    OpenDialogs { update_prompt: false, host_dialog: false, endpoint_picker: false, quick_switcher: false }
}

fn host(endpoints: Vec<SshEndpoint>, auth: HostAuth) -> SshHost {
    SshHost { id: 1, name: "web".to_string(), user: "deploy".to_string(), group: String::new(), endpoints, auth }
}

fn ep(host: &str, port: u16) -> SshEndpoint {
    SshEndpoint { host: host.to_string(), port }
}

#[test]
fn footer_follows_the_front_dialog() {
    let open = OpenDialogs { update_prompt: true, host_dialog: true, ..closed() };
    assert_eq!(keybind_hint(open, DashboardPage::Home, SettingsOverlay::Nothing), "");
    let open = OpenDialogs { host_dialog: true, endpoint_picker: true, ..closed() };
    assert_eq!(keybind_hint(open, DashboardPage::Home, SettingsOverlay::Nothing), "Tab/Up/Down move | Ctrl+S save | Esc");
    let open = OpenDialogs { endpoint_picker: true, quick_switcher: true, ..closed() };
    assert_eq!(
        keybind_hint(open, DashboardPage::Home, SettingsOverlay::Nothing),
        "Up/Down or j/k move | Enter connect | Esc cancel"
    );
    let open = OpenDialogs { quick_switcher: true, ..closed() };
    assert_eq!(
        keybind_hint(open, DashboardPage::Ssh, SettingsOverlay::Nothing),
        "Ctrl+Q/Up/Down cycle | Type filter | X close tab | Esc close"
    );
    assert_eq!(keybind_hint(open, DashboardPage::Home, SettingsOverlay::Nothing), switcher_hint(DashboardPage::Home));
    assert_eq!(
        keybind_hint(closed(), DashboardPage::Home, SettingsOverlay::Nothing),
        "Arrows/hjkl move | A add | E edit | Enter connect | Ctrl+Alt+F SSH fullscreen | Ctrl+Q switch | Esc exit"
    );
    assert_eq!(
        keybind_hint(closed(), DashboardPage::Ssh, SettingsOverlay::Nothing),
        "SSH: type input | PgUp/PgDn/Home/End scroll | Esc disconnect | Ctrl+Q quick switch"
    );
    let restore = SettingsOverlay::Backup {
        action: SettingsBackupAction::RestoreDbBlob,
        stage: SettingsBackupRestoreStage::Passphrase,
    };
    assert_eq!(
        keybind_hint(closed(), DashboardPage::Settings, restore),
        "Enter backup passphrase | Enter verify | Esc cancel"
    );
    assert_eq!(
        settings_footer_hint(SettingsOverlay::Security),
        "Tab move | Enter submit/next | Left/Right confirm | Esc cancel"
    );
    let copy = SettingsOverlay::Backup { action: SettingsBackupAction::CopyDbBlob, stage: SettingsBackupRestoreStage::Confirm };
    assert_eq!(settings_footer_hint(copy), "Press C to copy | Esc/Enter close");
    assert_eq!(page_title(DashboardPage::Ssh), "Stassh SSH Session");
}

#[test]
fn settings_rows_read_out_the_settings() {
    let mut config = Config::default();
    let r = settings_row_text(SettingsRow::IdleTimeout, &config);
    assert_eq!((r.label, r.value.as_str(), r.action_like), ("SSH idle timeout", "600s", false));
    assert_eq!(settings_row_text(SettingsRow::ConnectTimeout, &config).value, "5s");
    assert_eq!(settings_row_text(SettingsRow::Telemetry, &config).value, "OFF");
    config.enable_telemetry = Some(true);
    assert_eq!(settings_row_text(SettingsRow::Telemetry, &config).value, "ON");
    let r = settings_row_text(SettingsRow::RestoreDbBlob, &config);
    assert_eq!((r.label, r.value.as_str(), r.action_like), ("Restore DB from backup blob", "open modal", true));
    assert_eq!(row_value_tone(SettingsRow::RemovePassphrase), Tone::Danger);
    assert_eq!(row_value_tone(SettingsRow::CopyDbBlob), Tone::Accent);
    assert_eq!(row_value_tone(SettingsRow::Telemetry), Tone::Text);
    assert_eq!(encryption_label(Some(DbEncryption::Unencrypted)), "none");
    assert_eq!(encryption_label(None), "unset");
}

#[test]
fn host_cards() {
    let h = host(vec![ep("10.0.0.5", 2222), ep("example.org", 22)], HostAuth::KeyInline { private_key: "k".to_string() });
    assert_eq!(primary_endpoint(&h), "deploy@10.0.0.5:2222");
    assert_eq!(auth_label(&h.auth), "key(inline)");
    assert_eq!(primary_endpoint(&host(vec![], HostAuth::Password { password: "p".to_string() })), "deploy@n/a");
    assert!(card_alarm(&vec![Unreachable, Unreachable]));
    assert!(card_alarm(&vec![]));
    assert!(!card_alarm(&vec![Unreachable, Unknown]));
    assert!(!card_alarm(&vec![Reachable]));
    assert_eq!(host_count_text(1), "  1 host");
    assert_eq!(host_count_text(12), "  12 hosts");
    assert_eq!(status_word(Unreachable), "unreachable");
    assert_eq!(status_tone(Reachable), Tone::Success);
    assert_eq!(spinner_glyph(6), '|');
}

#[test]
fn endpoint_picker_scrolls_to_the_selection() {
    let eps = vec![ep("a", 22), ep("b", 2200), ep("c", 22), ep("d", 22)];
    let rows = endpoint_picker_rows(&eps, 9, &vec![Reachable, Unreachable], 2);
    let texts: Vec<&str> = rows.iter().map(|r| r.text.as_str()).collect();
    assert_eq!(texts, vec!["  c:22  ", "> d:22  "]);
    assert_eq!(rows[0].status, Unknown);
    let rows = endpoint_picker_rows(&eps, 1, &vec![Reachable, Unreachable], 3);
    let texts: Vec<&str> = rows.iter().map(|r| r.text.as_str()).collect();
    assert_eq!(texts, vec!["  a:22  ", "> b:2200  ", "  c:22  "]);
    assert_eq!(rows[1].status, Unreachable);
    assert!(endpoint_picker_rows(&vec![], 0, &vec![], 4).is_empty());
}

#[test]
fn quick_switcher_rows_pad_numbers() {
    let items: Vec<QuickSwitchItem> = (1..=12)
        .map(|n| QuickSwitchItem { number: n, label: format!("item{n}"), target: QuickSwitchTarget::Page(DashboardPage::Home) })
        .collect();
    let rows = quick_switch_rows(&items, &vec![0, 9, 11], 1, 5);
    assert_eq!(rows, vec!["   1. item1", "> 10. item10", "  12. item12"]);
    let rows = quick_switch_rows(&items, &vec![0, 9, 11], 7, 2);
    assert_eq!(rows, vec!["  10. item10", "> 12. item12"]);
    assert_eq!(quick_switch_rows(&items, &vec![], 0, 5), vec!["  no matches"]);
    assert_eq!(quick_switch_rows(&items, &vec![40, 2], 1, 5), vec![">  3. item3"]);
}

#[test]
fn key_picker_keeps_the_selection_on_screen() {
    let entries: Vec<PickerEntry> = (0..6)
        .map(|i| PickerEntry { label: format!("f{i}"), path: format!("/f{i}"), is_dir: i == 0 })
        .collect();
    let rows = key_picker_rows(&entries, 0, 4, 3);
    let labels: Vec<(&str, &str)> = rows.iter().map(|r| (r.marker, r.label.as_str())).collect();
    assert_eq!(labels, vec![("  ", "f2"), ("  ", "f3"), ("> ", "f4")]);
    let rows = key_picker_rows(&entries, 0, 1, 3);
    assert!(rows[0].is_dir);
    assert_eq!(rows[1].marker, "> ");
    assert!(key_picker_rows(&entries, 9, 0, 3).is_empty());
    assert_eq!(picker_mode_hint(HostKeyInputMode::Inline), "Load-into-DB mode");
}

#[test]
fn host_dialog_text() {
    assert_eq!(host_dialog_title(HostModalMode::Edit { host_id: 3 }), "Edit Host");
    assert_eq!(host_dialog_title(HostModalMode::Create), "Create Host");
    let mut form = HostFormState::new();
    form.password = "secret".to_string();
    let t = host_dialog_auth_text(&form);
    assert_eq!((t.mode_text, t.value_label, t.value.as_str(), t.secret, t.value_height), ("password", "Password", "******", true, 3));
    form.auth_mode = HostAuthMode::Key;
    let t = host_dialog_auth_text(&form);
    assert_eq!((t.mode_text, t.placeholder), ("key path on system", Some("no key selected")));
    form.key_input_mode = HostKeyInputMode::Inline;
    form.key_inline = "-----BEGIN".to_string();
    let t = host_dialog_auth_text(&form);
    assert_eq!((t.value.as_str(), t.value_height, t.placeholder), ("-----BEGIN", 5, None));
    let d = field_display("", false, Some("no key selected"));
    assert_eq!((d.text.as_str(), d.placeholder_shown), ("no key selected", true));
    let d = field_display("abc", true, None);
    assert_eq!((d.text.as_str(), d.placeholder_shown), ("***", false));
    assert_eq!(update_question("1.4.0", "1.3.2"), "Upgrade to 1.4.0 from 1.3.2?\n");
}

#[test]
fn host_key_dialog_text() {
    let key = TrustedHostKey {
        host: "srv".to_string(),
        port: 22,
        algorithm: "ssh-ed25519".to_string(),
        public_key_base64: "AAAA".to_string(),
        fingerprint_sha256: "SHA256:new".to_string(),
    };
    let first = TrustChallenge { proposed_key: key.clone(), previous_fingerprint: None };
    assert_eq!(trust_text(&first), "First connection to srv:22\nFingerprint: SHA256:new\nAlgorithm: ssh-ed25519");
    let changed = TrustChallenge { proposed_key: key, previous_fingerprint: Some("SHA256:old".to_string()) };
    assert_eq!(
        trust_text(&changed),
        "WARNING: host key changed for srv:22\nOld fingerprint: SHA256:old\nNew fingerprint: SHA256:new\nAlgorithm: ssh-ed25519"
    );
}

#[test]
fn settings_dialog_text() {
    assert_eq!(security_dialog_title(SettingsSecurityAction::ChangePassphrase), "Change DB passphrase");
    assert_eq!(
        security_dialog_footer(SettingsSecurityAction::RemovePassphrase),
        "Left/Right confirm removal | Enter submit | Esc cancel"
    );
    assert_eq!(security_dialog_footer(SettingsSecurityAction::EnableEncryption), "Tab move | Enter next/submit | Esc cancel");
    assert_eq!(passphrase_label(SettingsSecurityField::Confirm), "Confirm passphrase");
    assert_eq!(removal_confirm_line(true, false), "> Confirm removal: NO");
    assert_eq!(removal_confirm_line(false, true), "  Confirm removal: YES");
    assert_eq!(backup_dialog_title(SettingsBackupAction::CopyDbBlob), "DB backup blob");
    assert_eq!(
        backup_dialog_footer(SettingsBackupAction::RestoreDbBlob, SettingsBackupRestoreStage::Confirm),
        "Step 3/3: choose YES/NO, then Enter | Esc cancel"
    );
    assert_eq!(
        backup_password_note(Some(DbEncryption::Passphrase)),
        "Your DB is encrypted. Remember the current DB password for restore."
    );
    let s = copy_status(&None);
    assert_eq!((s.text.as_str(), s.tone), ("Copy status: Not copied yet", Tone::Muted));
    let s = copy_status(&Some("Copied to clipboard".to_string()));
    assert_eq!(s.tone, Tone::Success);
    let s = copy_status(&Some("Copy failed: no terminal".to_string()));
    assert_eq!((s.text.as_str(), s.tone), ("Copy status: Copy failed: no terminal", Tone::Danger));
}

#[test]
fn startup_update_screen_text() {
    assert_eq!(download_label(512, Some(2048)), "512 / 2048 bytes");
    assert_eq!(download_label(0, None), "0 bytes downloaded");
    let n = install_note(InstallPhase::Failed, &None);
    assert_eq!((n.news.as_deref(), n.news_tone, n.hint), (Some("Update unavailable"), Tone::Warning, Some("Press S to continue without updating")));
    let n = install_note(InstallPhase::Failed, &Some("checksum mismatch".to_string()));
    assert_eq!(n.news.as_deref(), Some("checksum mismatch"));
    let n = install_note(InstallPhase::Done, &None);
    assert_eq!((n.news.as_deref(), n.news_tone), (Some("Restart the app to use the new version."), Tone::Success));
    let n = install_note(InstallPhase::Prompt, &None);
    assert_eq!((n.news, n.hint), (None, Some("Press Enter to install or S to skip this launch")));
    assert_eq!(install_note(InstallPhase::Checking, &None).news.as_deref(), Some("Contacting GitHub releases..."));
}

#[test]
fn terminal_cursor_placement() {
    assert_eq!(cursor_cell(false, 0, 3, 200, 24, 80), Some((3, 79)));
    assert_eq!(cursor_cell(false, 0, 30, 5, 24, 80), Some((23, 5)));
    assert_eq!(cursor_cell(true, 0, 3, 4, 24, 80), None);
    assert_eq!(cursor_cell(false, 2, 3, 4, 24, 80), None);
}
