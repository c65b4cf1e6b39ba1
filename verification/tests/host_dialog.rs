use stassh::host_modal::{
    handle_endpoint_picker_key, host_form_key, save_host, session_title, EndpointPickerOutcome,
    HostFormKeyOutcome, SavedHost,
};
use stassh::input::{KeyCode, KeyEvent, KeyEventKind, KeyModifiers};
use stassh::model::{Database, HostAuth, SshEndpoint, SshHost};
use stassh::navigation::{EndpointPickerState, HostAuthMode, HostFormField, HostFormState, HostKeyInputMode, HostModalMode};

fn key(code: KeyCode) -> KeyEvent {
    KeyEvent {
        code,
        modifiers: KeyModifiers { control: false, alt: false, super_key: false, shift: false },
        kind: KeyEventKind::Press,
    }
}

fn type_text(form: &mut HostFormState, text: &str) {
    for c in text.chars() {
        assert_eq!(host_form_key(form, key(KeyCode::Char(c))), HostFormKeyOutcome::Stay);
    }
}

fn filled_form() -> HostFormState {
    let mut form = HostFormState::new();
    type_text(&mut form, " web ");
    host_form_key(&mut form, key(KeyCode::Tab));
    type_text(&mut form, "admin");
    host_form_key(&mut form, key(KeyCode::Down));
    type_text(&mut form, "a.example:2200, b.example");
    host_form_key(&mut form, key(KeyCode::Tab));
    host_form_key(&mut form, key(KeyCode::Tab));
    type_text(&mut form, "hunter2");
    form
}

#[test]
fn focus_moves_with_caret_at_end() {
    let mut form = HostFormState::new();
    form.user = "root".to_string();
    host_form_key(&mut form, key(KeyCode::Tab));
    assert_eq!(form.focus, HostFormField::User);
    assert_eq!(form.caret, 4);
    host_form_key(&mut form, key(KeyCode::BackTab));
    assert_eq!(form.focus, HostFormField::Name);
    assert_eq!(form.caret, 0);
    assert_eq!(host_form_key(&mut form, key(KeyCode::Esc)), HostFormKeyOutcome::Close);
}

#[test]
fn auth_mode_and_key_picker() {
    let mut form = HostFormState::new();
    form.focus = HostFormField::AuthMode;
    host_form_key(&mut form, key(KeyCode::Right));
    assert_eq!((form.auth_mode, form.key_input_mode), (HostAuthMode::Key, HostKeyInputMode::Path));
    form.focus = HostFormField::AuthValue;
    assert_eq!(host_form_key(&mut form, key(KeyCode::Enter)), HostFormKeyOutcome::OpenKeyPicker);
    form.focus = HostFormField::AuthMode;
    host_form_key(&mut form, key(KeyCode::Left));
    assert_eq!(form.auth_mode, HostAuthMode::Password);
}

#[test]
fn ctrl_s_saves_new_host() {
    let mut form = filled_form();
    let mut save_key = key(KeyCode::Char('s'));
    save_key.modifiers.control = true;
    assert_eq!(host_form_key(&mut form, save_key), HostFormKeyOutcome::Save);
    let mut db = Database::default();
    let saved = save_host(&mut db, HostModalMode::Create, &form).unwrap();
    assert_eq!(saved, SavedHost::Created { id: 1, index: 0, endpoint_count: 2 });
    assert_eq!(db.next_host_id, 2);
    let host = &db.hosts[0];
    assert_eq!((host.name.as_str(), host.user.as_str(), host.group.as_str()), ("web", "admin", ""));
    assert_eq!(host.endpoints[0].port, 2200);
    assert_eq!(host.endpoints[1].host, "b.example");
    assert!(matches!(&host.auth, HostAuth::Password { password } if password == "hunter2"));
}

#[test]
fn saving_an_edit_keeps_id_and_group() {
    let mut db = Database::default();
    db.hosts.push(SshHost {
        id: 7,
        name: "old".to_string(),
        user: "u".to_string(),
        group: "prod".to_string(),
        endpoints: vec![SshEndpoint { host: "h".to_string(), port: 22 }],
        auth: HostAuth::Password { password: "p".to_string() },
    });
    let form = filled_form();
    let saved = save_host(&mut db, HostModalMode::Edit { host_id: 7 }, &form).unwrap();
    assert_eq!(saved, SavedHost::Edited { host_id: 7, endpoint_count: Some(2) });
    assert_eq!(db.hosts[0].name, "web");
    assert_eq!(db.hosts[0].group, "prod");
    assert_eq!(db.hosts[0].id, 7);
    let missing = save_host(&mut db, HostModalMode::Edit { host_id: 99 }, &form).unwrap();
    assert_eq!(missing, SavedHost::Edited { host_id: 99, endpoint_count: None });
    let err = save_host(&mut db, HostModalMode::Create, &HostFormState::new()).unwrap_err();
    assert_eq!(err, "Name is required");
    assert_eq!(db.hosts.len(), 1);
}

#[test]
fn endpoint_picker_moves_and_connects() {
    let mut picker = EndpointPickerState {
        host_id: 3,
        host_name: "web".to_string(),
        host_user: "me".to_string(),
        endpoints: vec![
            SshEndpoint { host: "a".to_string(), port: 22 },
            SshEndpoint { host: "b".to_string(), port: 2222 },
        ],
        selected: 0,
    };
    assert_eq!(handle_endpoint_picker_key(&mut picker, key(KeyCode::Char('k'))), EndpointPickerOutcome::Stay);
    assert_eq!(picker.selected, 0);
    handle_endpoint_picker_key(&mut picker, key(KeyCode::Down));
    handle_endpoint_picker_key(&mut picker, key(KeyCode::Char('j')));
    assert_eq!(picker.selected, 1);
    assert_eq!(handle_endpoint_picker_key(&mut picker, key(KeyCode::Enter)), EndpointPickerOutcome::Connect(1));
    assert_eq!(handle_endpoint_picker_key(&mut picker, key(KeyCode::Esc)), EndpointPickerOutcome::Close);
    assert_eq!(session_title("web", "me", &picker.endpoints[1]), "web - me@b:2222");
}

#[test]
fn stored_endpoints_read_back_from_the_dialog() {
    let host = SshHost {
        id: 7,
        name: "db".to_string(),
        user: "ops".to_string(),
        group: String::new(),
        endpoints: vec![
            SshEndpoint { host: "10.0.0.5".to_string(), port: 22 },
            SshEndpoint { host: "fe80::1".to_string(), port: 2200 },
            SshEndpoint { host: "db.internal".to_string(), port: 65535 },
        ],
        auth: HostAuth::Password { password: "pw".to_string() },
    };
    let form = stassh::form::form_from_host(&host);
    assert_eq!(form.endpoints, "10.0.0.5:22, fe80::1:2200, db.internal:65535");
    let (_, _, endpoints, _) = stassh::form::validate_form(&form).unwrap();
    assert_eq!(endpoints.len(), 3);
    for (read, stored) in endpoints.iter().zip(host.endpoints.iter()) {
        assert_eq!(read.host, stored.host);
        assert_eq!(read.port, stored.port);
    }
}

#[test]
fn chosen_key_file_fills_the_form() {
    let mut form = HostFormState::new();
    form.error = Some("old".to_string());
    stassh::host_modal::apply_key_file(&mut form, HostKeyInputMode::Path, "/home/me/.ssh/id_é".to_string());
    assert_eq!(form.key_path, "/home/me/.ssh/id_é");
    assert_eq!(form.caret, 18);
    assert_eq!(form.error, None);
    stassh::host_modal::apply_key_file(&mut form, HostKeyInputMode::Inline, "KEY".to_string());
    assert_eq!(form.key_inline, "KEY");
    assert_eq!(form.caret, 3);
}

#[test]
fn moving_focus_keeps_every_field() {
    let mut form = HostFormState::new();
    form.name = "web".to_string();
    form.user = "admin".to_string();
    form.endpoints = "a.example".to_string();
    form.auth_mode = HostAuthMode::Key;
    form.key_input_mode = HostKeyInputMode::Inline;
    form.key_path = "/k/id".to_string();
    form.key_inline = "KEY".to_string();
    form.password = "pw".to_string();
    form.error = Some("boom".to_string());
    for code in [KeyCode::BackTab, KeyCode::Up, KeyCode::Tab, KeyCode::Down] {
        let before = form.clone();
        assert_eq!(host_form_key(&mut form, key(code)), HostFormKeyOutcome::Stay);
        assert_eq!((form.name.as_str(), form.user.as_str(), form.endpoints.as_str()), ("web", "admin", "a.example"));
        assert_eq!((form.auth_mode, form.key_input_mode), (before.auth_mode, before.key_input_mode));
        assert_eq!((form.key_path.as_str(), form.key_inline.as_str(), form.password.as_str()), ("/k/id", "KEY", "pw"));
        assert_eq!(form.error, None);
    }
    form.focus = HostFormField::AuthMode;
    host_form_key(&mut form, key(KeyCode::Right));
    assert_eq!((form.auth_mode, form.key_input_mode), (HostAuthMode::Password, HostKeyInputMode::Inline));
    assert_eq!((form.name.as_str(), form.user.as_str(), form.key_inline.as_str(), form.focus), ("web", "admin", "KEY", HostFormField::AuthMode));
}
