use stassh::input::{KeyCode, KeyEvent, KeyEventKind, KeyModifiers};
use stassh::navigation::{DashboardPage, QuickSwitcherState};
use stassh::quick_switch::{build_quick_switch_items, filtered_quick_switch_indices, QuickSwitchTarget, Workspace};

fn key(code: KeyCode) -> KeyEvent {
    KeyEvent {
        code,
        modifiers: KeyModifiers { control: false, alt: false, super_key: false, shift: false },
        kind: KeyEventKind::Press,
    }
}

fn ctrl(code: KeyCode, kind: KeyEventKind) -> KeyEvent {
    KeyEvent {
        code,
        modifiers: KeyModifiers { control: true, alt: false, super_key: false, shift: false },
        kind,
    }
}

fn workspace(titles: &[&str]) -> Workspace {
    Workspace {
        active_page: DashboardPage::Home,
        active_ssh_tab: None,
        tab_titles: titles.iter().map(|t| t.to_string()).collect(),
        last_status: None,
        quick_switcher: None,
    }
}

#[test]
fn entries_are_home_tabs_settings() {
    let items = build_quick_switch_items(&vec!["web - a@h:22".to_string(), "db".to_string()]);
    let summary: Vec<(usize, &str, QuickSwitchTarget)> = items.iter().map(|i| (i.number, i.label.as_str(), i.target)).collect();
    assert_eq!(
        summary,
        vec![
            (1, "Home", QuickSwitchTarget::Page(DashboardPage::Home)),
            (2, "web - a@h:22", QuickSwitchTarget::Session(0)),
            (3, "db", QuickSwitchTarget::Session(1)),
            (4, "Settings", QuickSwitchTarget::Page(DashboardPage::Settings)),
        ]
    );
}

#[test]
fn search_matches_label_or_number() {
    let mut ws = workspace(&["Web", "DB"]);
    let mut s = QuickSwitcherState::new();
    s.query = "  WE ".to_string();
    ws.quick_switcher = Some(s);
    let items = build_quick_switch_items(&ws.tab_titles);
    assert_eq!(filtered_quick_switch_indices(&ws, &items), vec![1]);
    ws.quick_switcher.as_mut().unwrap().query = "4".to_string();
    assert_eq!(filtered_quick_switch_indices(&ws, &items), vec![3]);
    ws.quick_switcher.as_mut().unwrap().query = "".to_string();
    assert_eq!(filtered_quick_switch_indices(&ws, &items), vec![0, 1, 2, 3]);
}

#[test]
fn opening_selects_what_is_shown() {
    let mut ws = workspace(&["a", "b"]);
    ws.active_page = DashboardPage::Ssh;
    ws.active_ssh_tab = Some(1);
    ws.open_quick_switcher();
    assert_eq!(ws.quick_switcher.as_ref().unwrap().selected_idx, 2);
    let mut ws = workspace(&[]);
    ws.active_page = DashboardPage::Settings;
    ws.open_quick_switcher();
    assert_eq!(ws.quick_switcher.as_ref().unwrap().selected_idx, 1);
}

#[test]
fn cycling_wraps_and_previews() {
    let mut ws = workspace(&["a"]);
    ws.open_quick_switcher();
    ws.handle_quick_switcher_key(key(KeyCode::Down));
    assert_eq!(ws.quick_switcher.as_ref().unwrap().selected_idx, 1);
    assert_eq!(ws.active_page, DashboardPage::Ssh);
    assert_eq!(ws.active_ssh_tab, Some(0));
    ws.handle_quick_switcher_key(key(KeyCode::Up));
    ws.handle_quick_switcher_key(key(KeyCode::Up));
    assert_eq!(ws.quick_switcher.as_ref().unwrap().selected_idx, 2);
    assert_eq!(ws.active_page, DashboardPage::Settings);
    ws.cycle_quick_switcher_selection(false, false);
    ws.cycle_quick_switcher_selection(true, false);
    assert_eq!(ws.quick_switcher.as_ref().unwrap().selected_idx, 2);
}

#[test]
fn ctrl_q_cycles_on_release() {
    let mut ws = workspace(&["a"]);
    ws.open_quick_switcher();
    ws.handle_quick_switcher_key(ctrl(KeyCode::Char('q'), KeyEventKind::Press));
    assert!(ws.quick_switcher.as_ref().unwrap().ctrl_cycle_on_release);
    assert_eq!(ws.quick_switcher.as_ref().unwrap().selected_idx, 1);
    let mut release = key(KeyCode::Char('q'));
    release.kind = KeyEventKind::Release;
    ws.handle_quick_switcher_key(release);
    assert!(!ws.quick_switcher.as_ref().unwrap().ctrl_cycle_on_release);
    assert_eq!(ws.quick_switcher.as_ref().unwrap().selected_idx, 2);
}

#[test]
fn typing_filters_and_enter_activates() {
    let mut ws = workspace(&["alpha", "beta"]);
    ws.open_quick_switcher();
    for c in "bet".chars() {
        ws.handle_quick_switcher_key(key(KeyCode::Char(c)));
    }
    assert_eq!(ws.quick_switcher.as_ref().unwrap().query, "bet");
    assert_eq!(ws.active_ssh_tab, Some(1));
    ws.handle_quick_switcher_key(key(KeyCode::Backspace));
    assert_eq!(ws.quick_switcher.as_ref().unwrap().query, "be");
    ws.handle_quick_switcher_key(key(KeyCode::Enter));
    assert!(ws.quick_switcher.is_none());
    assert_eq!(ws.active_page, DashboardPage::Ssh);
    assert_eq!(ws.active_ssh_tab, Some(1));
}

#[test]
fn x_closes_the_selected_session() {
    let mut ws = workspace(&["alpha", "beta"]);
    ws.active_page = DashboardPage::Ssh;
    ws.active_ssh_tab = Some(1);
    ws.open_quick_switcher();
    assert_eq!(ws.handle_quick_switcher_key(key(KeyCode::Char('x'))), Some(1));
    assert_eq!(ws.tab_titles, vec!["alpha".to_string()]);
    assert_eq!(ws.last_status.as_deref(), Some("Connection closed"));
    assert_eq!(ws.active_ssh_tab, Some(0));
    let mut home = workspace(&["alpha"]);
    home.open_quick_switcher();
    assert_eq!(home.handle_quick_switcher_key(key(KeyCode::Char('x'))), None);
    assert_eq!(home.quick_switcher.as_ref().unwrap().query, "x");
    assert_eq!(home.handle_quick_switcher_key(key(KeyCode::Esc)), None);
    assert!(home.quick_switcher.is_none());
}

#[test]
fn closing_tabs_keeps_a_valid_tab() {
    let mut ws = workspace(&["a", "b", "c"]);
    ws.active_page = DashboardPage::Ssh;
    ws.close_ssh_tab(2, "bye".to_string());
    assert_eq!(ws.active_ssh_tab, Some(1));
    ws.close_ssh_tab(0, "bye".to_string());
    assert_eq!(ws.active_ssh_tab, Some(0));
    ws.close_ssh_tab(5, "ignored".to_string());
    assert_eq!(ws.tab_titles.len(), 1);
    ws.close_ssh_tab(0, "last".to_string());
    assert_eq!(ws.active_ssh_tab, None);
    assert_eq!(ws.active_page, DashboardPage::Home);
    assert_eq!(ws.last_status.as_deref(), Some("last"));
}

#[test]
fn pasted_text_searches_from_the_first_entry() {
    let mut ws = stassh::quick_switch::Workspace {
        active_page: stassh::navigation::DashboardPage::Home,
        active_ssh_tab: None,
        tab_titles: vec!["db - ops@db:22".to_string()],
        last_status: None,
        quick_switcher: None,
    };
    ws.paste_into_switcher("ignored");
    assert!(ws.quick_switcher.is_none());
    ws.open_quick_switcher();
    ws.quick_switcher.as_mut().unwrap().selected_idx = 2;
    ws.paste_into_switcher("db");
    let sw = ws.quick_switcher.as_ref().unwrap();
    assert_eq!(sw.query, "db");
    assert_eq!(sw.selected_idx, 0);
}
