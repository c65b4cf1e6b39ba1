use stassh::backup::{
    after_inspection, after_passphrase_accepted, backup_token_for_display, compact_token, copy_feedback,
    decode_backup_blob, handle_backup_modal_key, osc52_sequence, restore_done_status, restore_step,
    wrap_token_for_display, BackupKeyOutcome, RestoreStep,
};
use stassh::input::{KeyCode, KeyEvent, KeyEventKind, KeyModifiers};
use stassh::navigation::{SettingsBackupAction, SettingsBackupModalState, SettingsBackupRestoreStage};

fn key(code: KeyCode) -> KeyEvent {
    KeyEvent {
        code,
        modifiers: KeyModifiers { control: false, alt: false, super_key: false, shift: false },
        kind: KeyEventKind::Press,
    }
}

#[test]
fn tokens_lose_whitespace() {
    assert_eq!(compact_token(" ab\ncd \t e\u{a0}f "), "abcdef");
    assert_eq!(compact_token(""), "");
}

#[test]
fn tokens_wrap_without_trailing_break() {
    assert_eq!(wrap_token_for_display("abcdefg", 3), "abc\ndef\ng");
    assert_eq!(wrap_token_for_display("abcdef", 3), "abc\ndef");
    assert_eq!(wrap_token_for_display("abc", 0), "abc");
    assert_eq!(wrap_token_for_display("", 4), "");
}

#[test]
fn wrapped_token_compacts_to_the_token() {
    let v = "QUJDREVGR0hJSktMTU5PUA==";
    assert_eq!(compact_token(&wrap_token_for_display(v, 5)), v);
}

#[test]
fn shown_backup_reads_back() {
    let blob: Vec<u8> = (0..=255u8).cycle().take(300).collect();
    let shown = backup_token_for_display(&blob);
    assert!(shown.lines().all(|l| l.chars().count() <= 96));
    assert!(shown.contains('\n'));
    assert_eq!(decode_backup_blob(&shown).unwrap(), blob);
    assert_eq!(backup_token_for_display(b"hi"), "aGk=");
}

#[test]
fn unreadable_backups_are_errors() {
    assert_eq!(decode_backup_blob(" \n ").unwrap_err(), "Backup blob cannot be empty");
    assert_eq!(decode_backup_blob("not base64!").unwrap_err(), "Backup blob is not valid base64");
}

#[test]
fn clipboard_sequence() {
    assert_eq!(osc52_sequence("ab c").unwrap(), "\u{1b}]52;c;YWJj\u{7}");
    assert_eq!(osc52_sequence("  ").unwrap_err(), "backup token is empty");
    assert_eq!(copy_feedback(Ok(())), "Copied to clipboard");
    assert_eq!(copy_feedback(Err("no tty".to_string())), "Copy failed: no tty");
}

#[test]
fn copy_dialog_keys() {
    let mut m = SettingsBackupModalState::for_action(SettingsBackupAction::CopyDbBlob);
    assert_eq!(handle_backup_modal_key(&mut m, key(KeyCode::Char('c'))), BackupKeyOutcome::Copy);
    assert_eq!(handle_backup_modal_key(&mut m, key(KeyCode::Enter)), BackupKeyOutcome::Close);
    assert_eq!(handle_backup_modal_key(&mut m, key(KeyCode::Char('x'))), BackupKeyOutcome::Stay);
    assert_eq!(handle_backup_modal_key(&mut m, key(KeyCode::Esc)), BackupKeyOutcome::Close);
}

#[test]
fn restore_dialog_steps() {
    let mut m = SettingsBackupModalState::for_action(SettingsBackupAction::RestoreDbBlob);
    for c in "aGk=".chars() {
        assert_eq!(handle_backup_modal_key(&mut m, key(KeyCode::Char(c))), BackupKeyOutcome::Stay);
    }
    assert_eq!(m.blob.text, "aGk=");
    assert_eq!(handle_backup_modal_key(&mut m, key(KeyCode::Enter)), BackupKeyOutcome::Advance);
    match restore_step(&m).unwrap() {
        RestoreStep::Inspect { blob } => assert_eq!(blob, b"hi".to_vec()),
        other => panic!("unexpected {other:?}"),
    }
    after_inspection(&mut m, true);
    assert_eq!(m.restore_stage, SettingsBackupRestoreStage::Passphrase);
    assert_eq!(
        restore_step(&m).unwrap_err(),
        "Backup is encrypted. Enter its passphrase to continue"
    );
    for c in "pw".chars() {
        handle_backup_modal_key(&mut m, key(KeyCode::Char(c)));
    }
    assert!(matches!(restore_step(&m).unwrap(), RestoreStep::CheckPassphrase { ref passphrase, .. } if passphrase == "pw"));
    after_passphrase_accepted(&mut m);
    assert_eq!(m.restore_stage, SettingsBackupRestoreStage::Confirm);
    assert_eq!(restore_step(&m).unwrap_err(), "Set confirmation to YES to restore");
    assert_eq!(handle_backup_modal_key(&mut m, key(KeyCode::Left)), BackupKeyOutcome::Stay);
    assert!(m.danger_confirm.selected);
    assert_eq!(handle_backup_modal_key(&mut m, key(KeyCode::Enter)), BackupKeyOutcome::Advance);
    match restore_step(&m).unwrap() {
        RestoreStep::Restore { blob, passphrase } => {
            assert_eq!(blob, b"hi".to_vec());
            assert_eq!(passphrase.as_deref(), Some("pw"));
        }
        other => panic!("unexpected {other:?}"),
    }
    assert_eq!(restore_done_status(), "Database restored from backup blob. Restarting...");
}
