use stassh::input::{KeyCode, KeyEvent, KeyEventKind, KeyModifiers};
use stassh::navigation::DashboardPage;
use stassh::routing::{dashboard_key, loop_key, DashboardKey, LoopKey, OpenDialogs};

fn key(code: KeyCode, kind: KeyEventKind, control: bool) -> KeyEvent {
    KeyEvent { code, modifiers: KeyModifiers { control, alt: false, super_key: false, shift: false }, kind }
}

const NONE_OPEN: OpenDialogs =
    OpenDialogs { update_prompt: false, host_dialog: false, endpoint_picker: false, quick_switcher: false };

#[test]
fn event_loop_filters_keys() {
    let esc = key(KeyCode::Esc, KeyEventKind::Press, false);
    assert_eq!(loop_key(esc, false, false, false), LoopKey::ExitKey);
    assert_eq!(loop_key(esc, true, false, false), LoopKey::ToScreen);
    assert_eq!(loop_key(esc, false, true, false), LoopKey::ToScreen);
    let release = key(KeyCode::Char('a'), KeyEventKind::Release, false);
    assert_eq!(loop_key(release, false, false, false), LoopKey::Ignore);
    assert_eq!(loop_key(release, false, true, true), LoopKey::ToScreen);
    assert_eq!(loop_key(key(KeyCode::Char('a'), KeyEventKind::Repeat, false), false, false, false), LoopKey::ToScreen);
}

#[test]
fn dashboard_keys_go_to_the_front_dialog() {
    let a = key(KeyCode::Char('a'), KeyEventKind::Press, false);
    assert_eq!(dashboard_key(NONE_OPEN, DashboardPage::Home, a), DashboardKey::Page(DashboardPage::Home));
    let both = OpenDialogs { update_prompt: true, host_dialog: true, ..NONE_OPEN };
    assert_eq!(dashboard_key(both, DashboardPage::Home, a), DashboardKey::UpdatePrompt);
    let picker = OpenDialogs { endpoint_picker: true, quick_switcher: true, ..NONE_OPEN };
    assert_eq!(dashboard_key(picker, DashboardPage::Ssh, a), DashboardKey::EndpointPicker);
    let ctrl_q = key(KeyCode::Char('q'), KeyEventKind::Press, true);
    assert_eq!(dashboard_key(NONE_OPEN, DashboardPage::Ssh, ctrl_q), DashboardKey::OpenQuickSwitcher);
    let switcher = OpenDialogs { quick_switcher: true, ..NONE_OPEN };
    assert_eq!(dashboard_key(switcher, DashboardPage::Ssh, ctrl_q), DashboardKey::QuickSwitcher);
    let release = key(KeyCode::Char('a'), KeyEventKind::Release, false);
    assert_eq!(dashboard_key(NONE_OPEN, DashboardPage::Settings, release), DashboardKey::Ignore);
}
