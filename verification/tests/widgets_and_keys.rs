use stassh::input::{KeyCode, KeyEvent, KeyEventKind, KeyModifiers};
use stassh::navigation::{HostConnectionStatus, YesNoState};
use stassh::ssh_keys::{
    dashboard_ssh_viewport_size_from_terminal, key_to_bytes, scrollback_after_key, ssh_page_key,
    SessionPhaseKind, SshKeyAction,
};
use stassh::widgets::{button, caret_parts, mask, parse_logo, pick_logo, skip_chars, split_with_width, status_label, take_chars};

fn key(code: KeyCode) -> KeyEvent {
    KeyEvent {
        code,
        modifiers: KeyModifiers { control: false, alt: false, super_key: false, shift: false },
        kind: KeyEventKind::Press,
    }
}

#[test]
fn buttons_and_masks() {
    assert_eq!(button("Yes", true), "[ Yes ]");
    assert_eq!(button("No", false), "  No  ");
    assert_eq!(mask(""), "");
    assert_eq!(mask("pé"), "***");
}

#[test]
fn caret_splits_text() {
    let p = caret_parts("héllo", 1);
    assert_eq!((p.before.as_str(), p.current, p.after.as_str()), ("h", 'é', "llo"));
    let p = caret_parts("ab", 9);
    assert_eq!((p.before.as_str(), p.current, p.after.as_str()), ("ab", ' ', ""));
}

#[test]
fn status_labels() {
    assert_eq!(status_label(HostConnectionStatus::Reachable, true), "Reachable");
    assert_eq!(status_label(HostConnectionStatus::Unreachable, false), "R");
    assert_eq!(status_label(HostConnectionStatus::Unknown, false), "?");
}

#[test]
fn logo_art() {
    let logo = parse_logo("   0\r\nabcdef\nxy\n");
    assert_eq!(logo.split_col, 3);
    assert_eq!(logo.lines, vec!["abcdef".to_string(), "xy".to_string()]);
    assert_eq!(logo.width, 6);
    let empty = parse_logo("");
    assert_eq!((empty.split_col, empty.lines.len(), empty.width), (0, 0, 0));
    assert_eq!(split_with_width("abcdef", 3, 10), ("abc".to_string(), "def".to_string()));
    assert_eq!(split_with_width("abcdef", 3, 4), ("abc".to_string(), "d".to_string()));
    assert_eq!(split_with_width("abcdef", 3, 2), ("ab".to_string(), String::new()));
    assert_eq!(take_chars("héllo", 2), "hé");
    assert_eq!(skip_chars("héllo", 9), "");
    assert_eq!(pick_logo(&[80, 40, 20], &[20, 10, 5], 50, 12), Some(1));
    assert_eq!(pick_logo(&[80, 40], &[20, 10], 10, 12), None);
}

#[test]
fn keys_become_terminal_bytes() {
    let mut c = key(KeyCode::Char('C'));
    c.modifiers.control = true;
    assert_eq!(key_to_bytes(c), Some(vec![3]));
    assert_eq!(key_to_bytes(key(KeyCode::Char('é'))), Some("é".as_bytes().to_vec()));
    assert_eq!(key_to_bytes(key(KeyCode::Enter)), Some(vec![b'\r']));
    let mut bs = key(KeyCode::Backspace);
    assert_eq!(key_to_bytes(bs), Some(vec![0x7f]));
    bs.modifiers.control = true;
    assert_eq!(key_to_bytes(bs), Some(vec![0x17]));
    assert_eq!(key_to_bytes(key(KeyCode::Left)), Some(b"\x1b[D".to_vec()));
    assert_eq!(key_to_bytes(key(KeyCode::Other)), None);
}

#[test]
fn scrollback_moves_by_pages() {
    assert_eq!(scrollback_after_key(0, 40, KeyCode::PageUp), Some(39));
    assert_eq!(scrollback_after_key(5, 4, KeyCode::PageDown), Some(0));
    assert_eq!(scrollback_after_key(20, 4, KeyCode::PageDown), Some(12));
    assert_eq!(scrollback_after_key(usize::MAX - 1, 40, KeyCode::PageUp), Some(usize::MAX));
    assert_eq!(scrollback_after_key(7, 40, KeyCode::Home), Some(usize::MAX));
    assert_eq!(scrollback_after_key(7, 40, KeyCode::End), Some(0));
    assert_eq!(scrollback_after_key(7, 40, KeyCode::Enter), None);
    assert_eq!(dashboard_ssh_viewport_size_from_terminal(120, 40), (118, 38));
    assert_eq!(dashboard_ssh_viewport_size_from_terminal(2, 0), (1, 1));
}

#[test]
fn ssh_page_keys() {
    let mut choice = YesNoState { selected: false };
    assert!(matches!(ssh_page_key(SessionPhaseKind::Starting, &mut choice, 0, 24, key(KeyCode::Esc)), SshKeyAction::Cancel(ref s) if s == "Connection canceled"));
    assert!(matches!(ssh_page_key(SessionPhaseKind::TrustPrompt, &mut choice, 0, 24, key(KeyCode::Enter)), SshKeyAction::Cancel(ref s) if s == "Connection canceled: host key not trusted"));
    assert!(matches!(ssh_page_key(SessionPhaseKind::TrustPrompt, &mut choice, 0, 24, key(KeyCode::Left)), SshKeyAction::Nothing));
    assert!(choice.selected);
    assert!(matches!(ssh_page_key(SessionPhaseKind::TrustPrompt, &mut choice, 0, 24, key(KeyCode::Enter)), SshKeyAction::Trust));
    assert!(matches!(ssh_page_key(SessionPhaseKind::Running, &mut choice, 0, 24, key(KeyCode::Esc)), SshKeyAction::Disconnect));
    assert!(matches!(ssh_page_key(SessionPhaseKind::Running, &mut choice, 3, 24, key(KeyCode::End)), SshKeyAction::Scroll(0)));
    assert!(matches!(ssh_page_key(SessionPhaseKind::Running, &mut choice, 3, 24, key(KeyCode::Char('a'))), SshKeyAction::Send(ref b) if b == b"a"));
}

#[test]
fn only_a_yes_trusts_a_key() {
    let mut choice = YesNoState { selected: false };
    assert!(matches!(ssh_page_key(SessionPhaseKind::Starting, &mut choice, 0, 24, key(KeyCode::Char('y'))), SshKeyAction::Nothing));
    assert!(matches!(ssh_page_key(SessionPhaseKind::Running, &mut choice, 0, 24, key(KeyCode::Char('y'))), SshKeyAction::Send(_)));
    assert!(matches!(ssh_page_key(SessionPhaseKind::TrustPrompt, &mut choice, 0, 24, key(KeyCode::Char('x'))), SshKeyAction::Nothing));
    assert!(matches!(ssh_page_key(SessionPhaseKind::TrustPrompt, &mut choice, 0, 24, key(KeyCode::Char('y'))), SshKeyAction::Trust));
}

#[test]
fn colours_and_logo_height() {
    assert_eq!(stassh::widgets::rgb_of(0xE3903E), (0xE3, 0x90, 0x3E));
    assert_eq!(stassh::widgets::rgb_of(0x00FF01), (0, 255, 1));
    let logo = stassh::widgets::parse_logo("  0\nab\ncdef\n");
    assert_eq!(logo.height(), 2);
    assert_eq!(logo.width, 4);
    assert_eq!(logo.split_col, 2);
}
