use stassh::input::{KeyCode, KeyEvent, KeyEventKind, KeyModifiers};
use stassh::navigation::HostKeyInputMode;
use stassh::picker::{
    begin_picker_command, complete_command_name, complete_path_argument, completion_target,
    finish_path_candidates, handle_picker_key, longest_common_prefix, parse_picker_command, parse_usize,
    listing_order, select_entry_path, CompletionTarget, DirListing, KeyPickerState, PickerCommand, PickerEntry,
    PickerKeyOutcome,
};

fn key(code: KeyCode) -> KeyEvent {
    KeyEvent {
        code,
        modifiers: KeyModifiers { control: false, alt: false, super_key: false, shift: false },
        kind: KeyEventKind::Press,
    }
}

fn entry(label: &str, path: &str, is_dir: bool) -> PickerEntry {
    PickerEntry { label: label.to_string(), path: path.to_string(), is_dir }
}

fn picker() -> KeyPickerState {
    KeyPickerState::new(
        HostKeyInputMode::Path,
        "/home/me/.ssh".to_string(),
        vec![
            entry("../", "/home/me", true),
            entry("keys/", "/home/me/.ssh/keys", true),
            entry("id_ed25519", "/home/me/.ssh/id_ed25519", false),
        ],
        None,
    )
}

#[test]
fn commands_are_read() {
    assert!(matches!(parse_picker_command("cd   ~/keys "), PickerCommand::ChangeDirectory(ref a) if a == "~/keys"));
    assert!(matches!(parse_picker_command("select 2"), PickerCommand::Select(ref a) if a == "2"));
    assert!(matches!(parse_picker_command("cd"), PickerCommand::Invalid(ref m) if m == "Usage: cd <path>"));
    assert!(matches!(parse_picker_command("select\t "), PickerCommand::Invalid(ref m) if m == "Usage: select <path|name>"));
    assert!(matches!(parse_picker_command("ls /"), PickerCommand::Invalid(ref m) if m == "Unknown command: ls. Try cd or select"));
}

#[test]
fn running_a_command_records_history() {
    let mut p = picker();
    for c in "  select 3 ".chars() {
        handle_picker_key(&mut p, key(KeyCode::Char(c)));
    }
    assert!(matches!(handle_picker_key(&mut p, key(KeyCode::Enter)), PickerKeyOutcome::RunCommand));
    assert!(matches!(begin_picker_command(&mut p), Some(PickerCommand::Select(ref a)) if a == "3"));
    assert_eq!(p.command_history, vec!["select 3".to_string()]);
    p.command_input = "x".to_string();
    handle_picker_key(&mut p, key(KeyCode::Up));
    assert_eq!(p.command_input, "select 3");
    assert_eq!(p.history_index, Some(0));
    handle_picker_key(&mut p, key(KeyCode::Down));
    assert_eq!(p.command_input, "");
    assert_eq!(p.history_index, None);
    p.command_input = "   ".to_string();
    assert!(begin_picker_command(&mut p).is_none());
}

#[test]
fn listing_keys() {
    let mut p = picker();
    handle_picker_key(&mut p, key(KeyCode::Down));
    handle_picker_key(&mut p, key(KeyCode::Down));
    handle_picker_key(&mut p, key(KeyCode::Down));
    assert_eq!(p.selected, 2);
    assert!(matches!(handle_picker_key(&mut p, key(KeyCode::Enter)), PickerKeyOutcome::ChooseFile(ref f) if f == "/home/me/.ssh/id_ed25519"));
    handle_picker_key(&mut p, key(KeyCode::Up));
    assert!(matches!(handle_picker_key(&mut p, key(KeyCode::Right)), PickerKeyOutcome::OpenDirectory(ref d) if d == "/home/me/.ssh/keys"));
    assert!(matches!(handle_picker_key(&mut p, key(KeyCode::Left)), PickerKeyOutcome::OpenParent));
    assert!(matches!(handle_picker_key(&mut p, key(KeyCode::Tab)), PickerKeyOutcome::Complete));
    assert!(matches!(handle_picker_key(&mut p, key(KeyCode::Esc)), PickerKeyOutcome::Close));
    p.command_input = "ab".to_string();
    handle_picker_key(&mut p, key(KeyCode::Backspace));
    assert_eq!(p.command_input, "a");
}

#[test]
fn select_names_entries() {
    let p = picker();
    assert_eq!(select_entry_path(&p.entries, "3").as_deref(), Some("/home/me/.ssh/id_ed25519"));
    assert_eq!(select_entry_path(&p.entries, "keys").as_deref(), Some("/home/me/.ssh/keys"));
    assert_eq!(select_entry_path(&p.entries, "me").as_deref(), Some("/home/me"));
    assert_eq!(select_entry_path(&p.entries, "0"), None);
    assert_eq!(select_entry_path(&p.entries, "nope"), None);
    assert_eq!(parse_usize("+42"), Some(42));
    assert_eq!(parse_usize("99999999999999999999999"), None);
    assert_eq!(parse_usize(" 1"), None);
}

#[test]
fn completion() {
    assert_eq!(longest_common_prefix(&vec!["select".to_string(), "selection".to_string(), "sel".to_string()]), "sel");
    assert_eq!(longest_common_prefix(&vec![]), "");
    let mut p = picker();
    assert!(matches!(completion_target("  s"), CompletionTarget::CommandName(ref t) if t == "s"));
    complete_command_name(&mut p, "s");
    assert_eq!(p.command_input, "select ");
    complete_command_name(&mut p, "");
    assert_eq!(p.status.as_deref(), Some("matches: cd  select"));
    complete_command_name(&mut p, "x");
    assert_eq!(p.error.as_deref(), Some("No completion matches"));
    assert!(matches!(completion_target("cd  ~/k"), CompletionTarget::Path { ref command, ref partial } if command == "cd" && partial == "~/k"));
    assert!(matches!(completion_target("ls x"), CompletionTarget::Unsupported));
    p.command_input = "cd ~/k".to_string();
    complete_path_argument(&mut p, "cd", "~/k", &vec!["~/keys/".to_string(), "~/known_hosts".to_string()]);
    assert_eq!(p.command_input, "cd ~/k");
    assert_eq!(p.status.as_deref(), Some("matches: ~/keys/  ~/known_hosts"));
    complete_path_argument(&mut p, "cd", "~/k", &vec!["~/keys/".to_string()]);
    assert_eq!(p.command_input, "cd ~/keys/");
    complete_path_argument(&mut p, "select", "id", &vec!["id_rsa".to_string(), "id_rsa.pub".to_string()]);
    assert_eq!(p.command_input, "select id_rsa");
}

#[test]
fn path_candidates_sort_case_blind() {
    let listing = vec![
        DirListing { name: "beta".to_string(), rendered: "x/beta".to_string(), is_dir: false },
        DirListing { name: "Bin".to_string(), rendered: "x/Bin".to_string(), is_dir: true },
        DirListing { name: "alpha".to_string(), rendered: "x/alpha".to_string(), is_dir: false },
        DirListing { name: "bat".to_string(), rendered: "x/bat/".to_string(), is_dir: true },
    ];
    assert_eq!(finish_path_candidates(&listing, "b"), vec!["x/bat/", "x/beta"]);
    assert_eq!(finish_path_candidates(&listing, "B"), vec!["x/Bin/"]);
    assert_eq!(finish_path_candidates(&listing, ""), vec!["x/alpha", "x/bat/", "x/beta", "x/Bin/"]);
    assert!(finish_path_candidates(&listing, "z").is_empty());
}

#[test]
fn completion_touches_only_the_line_and_messages() {
    let mut p = picker();
    p.command_history = vec!["cd /".to_string()];
    p.selected = 2;
    p.error = Some("old".to_string());
    p.status = Some("old".to_string());
    p.command_input = "c".to_string();
    complete_command_name(&mut p, "c");
    assert_eq!(p.command_input, "cd ");
    assert_eq!((p.error.clone(), p.status.clone()), (None, None));
    assert_eq!(p.command_history, vec!["cd /".to_string()]);
    assert_eq!(p.selected, 2);
    p.command_input = "x".to_string();
    complete_command_name(&mut p, "x");
    assert_eq!(p.command_input, "x");
    assert_eq!(p.command_history, vec!["cd /".to_string()]);
    complete_path_argument(&mut p, "cd", "~/k", &vec!["~/a".to_string(), "~/b".to_string()]);
    assert_eq!(p.command_input, "x");
    assert_eq!(p.error, None);
    assert_eq!(p.command_history, vec!["cd /".to_string()]);
}

#[test]
fn typing_forgets_the_completion() {
    let mut p = picker();
    p.completion_prefix = "se".to_string();
    p.completion_matches = vec!["select".to_string()];
    p.completion_index = 1;
    p.selected = 1;
    p.scroll = 1;
    p.command_history = vec!["cd /".to_string()];
    handle_picker_key(&mut p, key(KeyCode::Char('z')));
    assert_eq!((p.completion_prefix.as_str(), p.completion_matches.len(), p.completion_index), ("", 0, 0));
    assert_eq!((p.selected, p.scroll), (1, 1));
    assert_eq!(p.command_history, vec!["cd /".to_string()]);
}

#[test]
fn listings_put_the_parent_then_directories_then_files() {
    let dirs = vec![entry("src/", "/p/src", true), entry("Bin/", "/p/Bin", true), entry("apps/", "/p/apps", true)];
    let files = vec![entry("b.txt", "/p/b.txt", false), entry("A.key", "/p/A.key", false)];
    let out = listing_order(Some(entry("../", "/", true)), &dirs, &files);
    let labels: Vec<&str> = out.iter().map(|e| e.label.as_str()).collect();
    assert_eq!(labels, vec!["../", "apps/", "Bin/", "src/", "A.key", "b.txt"]);
    assert_eq!(listing_order(None, &vec![], &files)[0].path, "/p/A.key");
}

#[test]
fn moving_up_scrolls_to_the_selection() {
    let mut p = picker();
    p.selected = 1;
    p.scroll = 2;
    p.command_history = vec!["cd /".to_string()];
    handle_picker_key(&mut p, key(KeyCode::Up));
    assert_eq!((p.selected, p.scroll), (0, 0));
    assert_eq!(p.command_history, vec!["cd /".to_string()]);
}
