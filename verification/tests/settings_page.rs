use stassh::input::{KeyCode, KeyEvent, KeyEventKind, KeyModifiers};
use stassh::model::{Config, DbEncryption};
use stassh::navigation::{SettingsSecurityAction, SettingsSecurityField, SettingsSecurityModalState};
use stassh::settings::{
    active_fields, apply_row_change, build_rows, handle_security_modal_key, is_submit_focus,
    modal_after_failure, next_connect_timeout, next_idle_timeout, next_modal_field, prev_modal_field,
    security_success_status, settings_page_key, state_after_rekey, submit_security_modal, RowOutcome, SecurityKeyOutcome,
    SecurityRequest, SettingsRow,
};

fn key(code: KeyCode) -> KeyEvent {
    KeyEvent {
        code,
        modifiers: KeyModifiers { control: false, alt: false, super_key: false, shift: false },
        kind: KeyEventKind::Press,
    }
}

#[test]
fn rows_depend_on_encryption() {
    assert_eq!(
        build_rows(Some(DbEncryption::Passphrase)),
        vec![
            SettingsRow::Telemetry,
            SettingsRow::IdleTimeout,
            SettingsRow::ConnectTimeout,
            SettingsRow::ChangePassphrase,
            SettingsRow::RemovePassphrase,
            SettingsRow::CopyDbBlob,
            SettingsRow::RestoreDbBlob,
        ]
    );
    assert_eq!(build_rows(None)[3], SettingsRow::EnableEncryption);
    assert_eq!(build_rows(Some(DbEncryption::Unencrypted)).len(), 6);
}

#[test]
fn row_selection_wraps() {
    let mut sel = 0;
    assert_eq!(settings_page_key(&mut sel, 6, KeyCode::Up), None);
    assert_eq!(sel, 5);
    assert_eq!(settings_page_key(&mut sel, 6, KeyCode::Char('j')), None);
    assert_eq!(sel, 0);
    let mut sel = 40;
    assert_eq!(settings_page_key(&mut sel, 6, KeyCode::Enter), Some((5, true)));
    assert_eq!(settings_page_key(&mut sel, 6, KeyCode::Char('h')), Some((5, false)));
    let mut sel = 3;
    assert_eq!(settings_page_key(&mut sel, 0, KeyCode::Enter), None);
    assert_eq!(sel, 3);
}

#[test]
fn timeouts_step_within_bounds() {
    assert_eq!(next_idle_timeout(600, true), 630);
    assert_eq!(next_idle_timeout(86_390, true), 86_400);
    assert_eq!(next_idle_timeout(20, false), 1);
    assert_eq!(next_idle_timeout(u64::MAX, true), 86_400);
    assert_eq!(next_connect_timeout(5, true), 6);
    assert_eq!(next_connect_timeout(60, true), 60);
    assert_eq!(next_connect_timeout(1, false), 1);
}

#[test]
fn editing_rows_changes_settings() {
    let mut c = Config::default();
    assert_eq!(apply_row_change(&mut c, SettingsRow::Telemetry, true), RowOutcome::SettingsChanged);
    assert_eq!(c.enable_telemetry, Some(true));
    apply_row_change(&mut c, SettingsRow::Telemetry, true);
    assert_eq!(c.enable_telemetry, Some(false));
    apply_row_change(&mut c, SettingsRow::Telemetry, false);
    assert_eq!(c.enable_telemetry, Some(false));
    apply_row_change(&mut c, SettingsRow::IdleTimeout, false);
    assert_eq!(c.ssh_idle_timeout_seconds, 570);
    apply_row_change(&mut c, SettingsRow::ConnectTimeout, true);
    assert_eq!(c.ssh_connect_timeout_seconds, 6);
    assert_eq!(
        apply_row_change(&mut c, SettingsRow::RemovePassphrase, true),
        RowOutcome::OpenSecurity(SettingsSecurityAction::RemovePassphrase)
    );
    assert_eq!(apply_row_change(&mut c, SettingsRow::CopyDbBlob, true), RowOutcome::ExportBackup);
    assert_eq!(apply_row_change(&mut c, SettingsRow::RestoreDbBlob, false), RowOutcome::OpenRestore);
}

#[test]
fn security_dialog_fields_cycle() {
    assert_eq!(active_fields(SettingsSecurityAction::ChangePassphrase), vec![SettingsSecurityField::Current, SettingsSecurityField::New, SettingsSecurityField::Confirm]);
    assert_eq!(next_modal_field(SettingsSecurityAction::ChangePassphrase, SettingsSecurityField::Confirm), SettingsSecurityField::Current);
    assert_eq!(prev_modal_field(SettingsSecurityAction::ChangePassphrase, SettingsSecurityField::Current), SettingsSecurityField::Confirm);
    assert_eq!(prev_modal_field(SettingsSecurityAction::ChangePassphrase, next_modal_field(SettingsSecurityAction::ChangePassphrase, SettingsSecurityField::New)), SettingsSecurityField::New);
    assert_eq!(next_modal_field(SettingsSecurityAction::EnableEncryption, SettingsSecurityField::Current), SettingsSecurityField::Confirm);
    assert!(is_submit_focus(SettingsSecurityAction::RemovePassphrase, SettingsSecurityField::DangerConfirm));
    assert!(!is_submit_focus(SettingsSecurityAction::RemovePassphrase, SettingsSecurityField::Current));
}

fn typed(m: &mut SettingsSecurityModalState, text: &str) {
    for c in text.chars() {
        assert_eq!(handle_security_modal_key(m, key(KeyCode::Char(c))), SecurityKeyOutcome::Stay);
    }
}

#[test]
fn enabling_encryption_checks_the_confirmation() {
    let mut m = SettingsSecurityModalState::for_action(SettingsSecurityAction::EnableEncryption);
    assert_eq!(submit_security_modal(&m).unwrap_err(), "Passphrase cannot be empty");
    typed(&mut m, "s3cret");
    assert_eq!(handle_security_modal_key(&mut m, key(KeyCode::Enter)), SecurityKeyOutcome::Stay);
    assert_eq!(m.focus, SettingsSecurityField::Confirm);
    typed(&mut m, "s3cre");
    assert_eq!(submit_security_modal(&m).unwrap_err(), "Passphrase confirmation does not match");
    typed(&mut m, "t");
    assert_eq!(handle_security_modal_key(&mut m, key(KeyCode::Enter)), SecurityKeyOutcome::Submit);
    match submit_security_modal(&m).unwrap() {
        SecurityRequest::Enable { new_passphrase } => assert_eq!(new_passphrase, "s3cret"),
        other => panic!("unexpected {other:?}"),
    }
    assert_eq!(security_success_status(SettingsSecurityAction::EnableEncryption), "Database encryption enabled");
    assert_eq!(handle_security_modal_key(&mut m, key(KeyCode::Esc)), SecurityKeyOutcome::Close);
}

#[test]
fn changing_and_removing_need_the_current_passphrase() {
    let mut m = SettingsSecurityModalState::for_action(SettingsSecurityAction::ChangePassphrase);
    assert_eq!(submit_security_modal(&m).unwrap_err(), "Current passphrase is required");
    typed(&mut m, "old");
    handle_security_modal_key(&mut m, key(KeyCode::Tab));
    assert_eq!(submit_security_modal(&m).unwrap_err(), "New passphrase cannot be empty");
    typed(&mut m, "new");
    assert_eq!(submit_security_modal(&m).unwrap_err(), "New passphrase confirmation does not match");
    let mut r = SettingsSecurityModalState::for_action(SettingsSecurityAction::RemovePassphrase);
    typed(&mut r, "old");
    assert_eq!(handle_security_modal_key(&mut r, key(KeyCode::Down)), SecurityKeyOutcome::Stay);
    assert_eq!(r.focus, SettingsSecurityField::DangerConfirm);
    assert_eq!(handle_security_modal_key(&mut r, key(KeyCode::Char('y'))), SecurityKeyOutcome::Submit);
    assert_eq!(submit_security_modal(&r).unwrap_err(), "Please confirm passphrase removal");
    handle_security_modal_key(&mut r, key(KeyCode::Right));
    assert!(r.danger_confirm.selected);
    assert!(matches!(submit_security_modal(&r).unwrap(), SecurityRequest::Remove { ref current_passphrase } if current_passphrase == "old"));
    let again = modal_after_failure(&r, "wrong passphrase".to_string());
    assert_eq!(again.current_passphrase.text, "old");
    assert_eq!(again.current_passphrase.caret_position, 3);
    assert_eq!(again.focus, SettingsSecurityField::Current);
    assert!(again.danger_confirm.selected);
    assert_eq!(again.error.as_deref(), Some("wrong passphrase"));
}

#[test]
fn rekeying_leaves_the_new_passphrase() {
    let k = state_after_rekey(&SecurityRequest::Enable { new_passphrase: "n".to_string() });
    assert_eq!((k.password.as_deref(), k.encryption), (Some("n"), DbEncryption::Passphrase));
    let k = state_after_rekey(&SecurityRequest::Change { current_passphrase: "c".to_string(), new_passphrase: "m".to_string() });
    assert_eq!((k.password.as_deref(), k.encryption), (Some("m"), DbEncryption::Passphrase));
    let k = state_after_rekey(&SecurityRequest::Remove { current_passphrase: "c".to_string() });
    assert_eq!((k.password, k.encryption), (None, DbEncryption::Unencrypted));
}
