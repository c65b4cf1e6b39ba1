use stassh::home_page::{handle_home_key, visible_host_indices, visible_index_for_host_id, HomeAction};
use stassh::host_groups::grouped_hosts;
use stassh::input::{KeyCode, KeyEvent, KeyEventKind, KeyModifiers};
use stassh::model::{HostAuth, SshEndpoint, SshHost};

fn key(code: KeyCode) -> KeyEvent {
    KeyEvent {
        code,
        modifiers: KeyModifiers { control: false, alt: false, super_key: false, shift: false },
        kind: KeyEventKind::Press,
    }
}

fn host(id: u32, name: &str, group: &str, ports: &[u16]) -> SshHost {
    SshHost {
        id,
        name: name.to_string(),
        user: "me".to_string(),
        group: group.to_string(),
        endpoints: ports.iter().map(|p| SshEndpoint { host: format!("{name}.example"), port: *p }).collect(),
        auth: HostAuth::Password { password: "p".to_string() },
    }
}

fn hosts() -> Vec<SshHost> {
    vec![
        host(1, "zeta", "Prod", &[22]),
        host(2, "alpha", "", &[22, 2222]),
        host(3, "Beta", " prod ", &[22]),
        host(4, "beta", "dev", &[]),
        host(5, "gamma", "  ", &[22]),
        host(6, "Alpha", "PROD", &[22]),
    ]
}

#[test]
fn hosts_are_grouped_and_sorted() {
    let groups = grouped_hosts(&hosts());
    let names: Vec<&str> = groups.iter().map(|g| g.name.as_str()).collect();
    assert_eq!(names, vec!["dev", "Prod", "Ungrouped"]);
    assert_eq!(groups[0].host_indices, vec![3]);
    assert_eq!(groups[1].host_indices, vec![5, 2, 0]);
    assert_eq!(groups[2].host_indices, vec![1, 4]);
    assert!(groups[2].ungrouped && !groups[1].ungrouped);
    assert_eq!(visible_host_indices(&groups), vec![3, 5, 2, 0, 1, 4]);
    assert!(grouped_hosts(&vec![]).is_empty());
}

#[test]
fn ties_keep_id_then_position() {
    let hs = vec![host(9, "same", "", &[22]), host(2, "SAME", "", &[22]), host(2, "same", "", &[22])];
    let groups = grouped_hosts(&hs);
    assert_eq!(groups.len(), 1);
    assert_eq!(groups[0].host_indices, vec![1, 2, 0]);
}

#[test]
fn host_ids_map_to_grid_positions() {
    let hs = hosts();
    assert_eq!(visible_index_for_host_id(&hs, 6), Some(1));
    assert_eq!(visible_index_for_host_id(&hs, 5), Some(5));
    assert_eq!(visible_index_for_host_id(&hs, 42), None);
}

#[test]
fn home_keys() {
    let hs = hosts();
    assert!(matches!(handle_home_key(&hs, 0, key(KeyCode::Char('a')), None), HomeAction::AddHost));
    match handle_home_key(&hs, 1, key(KeyCode::Char('e')), None) {
        HomeAction::EditHost { host_id, form } => {
            assert_eq!(host_id, 6);
            assert_eq!(form.name, "Alpha");
            assert_eq!(form.user, "me");
            assert_eq!(form.endpoints, "Alpha.example:22");
            assert_eq!(form.password, "p");
            assert_eq!((form.caret, form.error.clone()), (0, None));
        }
        other => panic!("unexpected {other:?}"),
    }
    assert!(matches!(handle_home_key(&hs, 0, key(KeyCode::Down), None), HomeAction::Select(1)));
    assert!(matches!(handle_home_key(&hs, 1, key(KeyCode::Char('l')), None), HomeAction::Select(2)));
    assert!(matches!(handle_home_key(&hs, 9, key(KeyCode::Char('e')), None), HomeAction::Nothing));
    match handle_home_key(&hs, 4, key(KeyCode::Enter), Some(7)) {
        HomeAction::PickEndpoint(p) => {
            assert_eq!(p.host_id, 2);
            assert_eq!(p.selected, 1);
            assert_eq!(p.endpoints.len(), 2);
        }
        other => panic!("unexpected {other:?}"),
    }
    match handle_home_key(&hs, 1, key(KeyCode::Enter), None) {
        HomeAction::StartSession { host_id, title } => {
            assert_eq!(host_id, 6);
            assert_eq!(title, "Alpha - me@Alpha.example:22");
        }
        other => panic!("unexpected {other:?}"),
    }
    match handle_home_key(&hs, 0, key(KeyCode::Enter), None) {
        HomeAction::StartSession { title, .. } => assert_eq!(title, "beta - me@n/a"),
        other => panic!("unexpected {other:?}"),
    }
    for code in [KeyCode::Esc, KeyCode::Tab, KeyCode::Char('x'), KeyCode::Backspace] {
        assert!(matches!(handle_home_key(&hs, 1, key(code), None), HomeAction::Nothing));
    }
}

#[test]
fn grid_lists_every_host_once() {
    let hs = hosts();
    let mut shown = visible_host_indices(&grouped_hosts(&hs));
    shown.sort();
    assert_eq!(shown, (0..hs.len()).collect::<Vec<_>>());
    assert_eq!(visible_index_for_host_id(&hs, 99), None);
}
