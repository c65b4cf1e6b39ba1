use stassh::paths::{completion_base, shown_path, start_dir, typed_path_target, ShownAs, StartDir, TypedPathFacts};

fn base(current: &str, partial: &str, home: Option<&str>) -> (String, String, ShownAs) {
    let b = completion_base(current, partial, home);
    (b.base_dir, b.fragment, b.shown)
}

#[test]
fn typed_paths_resolve_against_home_and_the_current_directory() {
    assert_eq!(typed_path_target("/home/me", "  keys ", Some("/home/me")).as_deref(), Some("/home/me/keys"));
    assert_eq!(typed_path_target("/cur", "~/x", Some("/h")).as_deref(), Some("/h/x"));
    assert_eq!(typed_path_target("/cur", "~/x", None).as_deref(), Some("~/x"));
    assert_eq!(typed_path_target("/cur", "~", Some("/h")).as_deref(), Some("/h"));
    assert_eq!(typed_path_target("/cur", "~", None).as_deref(), Some("/"));
    assert_eq!(typed_path_target("/cur", "/etc/ssh", Some("/h")).as_deref(), Some("/etc/ssh"));
    assert_eq!(typed_path_target("/cur", " \t ", Some("/h")), None);
}

#[test]
fn completion_looks_in_the_directory_being_typed() {
    assert_eq!(base("/cur", "", None), ("/cur".to_string(), String::new(), ShownAs::Relative));
    assert_eq!(base("/cur", "~", Some("/h")), ("/h".to_string(), String::new(), ShownAs::Home));
    assert_eq!(base("/cur", "~", None), ("/".to_string(), String::new(), ShownAs::Home));
    assert_eq!(base("/cur", "~/.ss", Some("/h")), ("/h/".to_string(), ".ss".to_string(), ShownAs::Home));
    assert_eq!(base("/cur", "~/.ssh/", Some("/h")), ("/h/.ssh/".to_string(), String::new(), ShownAs::Home));
    assert_eq!(base("/cur", "~/~/x", Some("/h")), ("/h/".to_string(), "x".to_string(), ShownAs::Home));
    assert_eq!(base("/cur", "/etc/ss", None), ("/etc".to_string(), "ss".to_string(), ShownAs::Absolute));
    assert_eq!(base("/cur", "/etc/", None), ("/etc/".to_string(), String::new(), ShownAs::Absolute));
    assert_eq!(base("/cur", " sub/fi ", None), ("/cur/sub".to_string(), "fi".to_string(), ShownAs::Relative));
}

#[test]
fn candidates_are_shown_as_typed() {
    assert_eq!(shown_path(ShownAs::Home, "/h/.ssh/id", Some("/h"), "/cur"), "~/.ssh/id");
    assert_eq!(shown_path(ShownAs::Home, "/other/x", Some("/h"), "/cur"), "/other/x");
    assert_eq!(shown_path(ShownAs::Home, "/h/x", None, "/cur"), "/h/x");
    assert_eq!(shown_path(ShownAs::Relative, "/cur/sub/a", None, "/cur"), "sub/a");
    assert_eq!(shown_path(ShownAs::Relative, "/elsewhere", None, "/cur"), "/elsewhere");
    assert_eq!(shown_path(ShownAs::Absolute, "/x/y", Some("/x"), "/x"), "/x/y");
}

#[test]
fn the_picker_opens_near_the_typed_key() {
    let none = TypedPathFacts { is_dir: false, is_file: false, has_parent: false, parent_exists: false };
    let dir = TypedPathFacts { is_dir: true, has_parent: true, parent_exists: true, ..none };
    let file = TypedPathFacts { is_file: true, has_parent: true, parent_exists: true, ..none };
    let missing = TypedPathFacts { has_parent: true, parent_exists: true, ..none };
    assert_eq!(start_dir(true, false, dir, true), StartDir::Typed);
    assert_eq!(start_dir(true, false, file, true), StartDir::TypedParent);
    assert_eq!(start_dir(true, false, TypedPathFacts { is_file: true, ..none }, true), StartDir::Root);
    assert_eq!(start_dir(true, false, missing, false), StartDir::TypedParent);
    assert_eq!(start_dir(true, false, none, true), StartDir::HomeSsh);
    assert_eq!(start_dir(true, true, dir, false), StartDir::Home);
    assert_eq!(start_dir(false, false, dir, true), StartDir::HomeSsh);
}
