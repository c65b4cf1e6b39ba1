//! Paths the key picker works with: where a typed path points, which
//! directory a partial path is completed in, and how a candidate is shown.
//! The component arithmetic itself (`parent`, `file_name`, `join`,
//! `strip_prefix`) is `std::path::Path`'s; its results are named here.

use vstd::prelude::*;
use crate::text::{chars_occur_at, chars_of, concat_str, occurs_at, str_eq, string_of, sub_chars, trim, trim_str};

verus! {

/// What `std::path::Path::file_name` gives for a path, as text.
pub uninterp spec fn file_name_of(path: Seq<char>) -> Option<Seq<char>>;

/// What `std::path::Path::parent` gives for a path, as text.
pub uninterp spec fn parent_of(path: Seq<char>) -> Option<Seq<char>>;

/// What `std::path::Path::join` gives for a base and a path, as text.
pub uninterp spec fn joined(base: Seq<char>, rel: Seq<char>) -> Seq<char>;

/// What `std::path::Path::strip_prefix` gives for a path and a base, as
/// text.
pub uninterp spec fn stripped_prefix(path: Seq<char>, base: Seq<char>) -> Option<Seq<char>>;

/// The text of an optional string.
pub open spec fn opt_text(o: Option<String>) -> Option<Seq<char>> {
    match o {
        Some(s) => Some(s@),
        None => None,
    }
}

/// The value held, or `d`.
pub open spec fn or_else(o: Option<Seq<char>>, d: Seq<char>) -> Seq<char> {
    match o {
        Some(x) => x,
        None => d,
    }
}

/// The last component of a path (`Path::file_name`), if it has one that
/// is valid text. The result depends on the path alone.
#[verifier::external_body]
pub(crate) fn path_file_name(path: &str) -> (r: Option<String>)
    ensures
        opt_text(r) == file_name_of(path@),
{
    std::path::Path::new(path).file_name().and_then(|n| n.to_str()).map(|n| n.to_string())
}

/// The path without its last component (`Path::parent`). The result
/// depends on the path alone; it is a prefix of the text given, so its
/// text is exact.
#[verifier::external_body]
fn path_parent(path: &str) -> (r: Option<String>)
    ensures
        opt_text(r) == parent_of(path@),
{
    std::path::Path::new(path).parent().map(|p| p.to_string_lossy().into_owned())
}

/// `rel` joined onto `base` (`Path::join`). The result depends on the two
/// paths alone.
#[verifier::external_body]
fn path_join(base: &str, rel: &str) -> (r: String)
    ensures
        r@ == joined(base@, rel@),
{
    std::path::Path::new(base).join(rel).to_string_lossy().into_owned()
}

/// `path` relative to `base` (`Path::strip_prefix`), when `base` is a
/// prefix of it by whole components. The result depends on the two paths
/// alone.
#[verifier::external_body]
fn path_strip_prefix(path: &str, base: &str) -> (r: Option<String>)
    ensures
        opt_text(r) == stripped_prefix(path@, base@),
{
    std::path::Path::new(path).strip_prefix(base).ok().map(|p| p.to_string_lossy().into_owned())
}

/// Whether a path is absolute: it starts at the root `/`.
pub open spec fn is_absolute(p: Seq<char>) -> bool {
    p.len() > 0 && p[0] == '/'
}

/// `s` without every leading copy of `p` (`str::trim_start_matches`).
pub open spec fn strip_leading(s: Seq<char>, p: Seq<char>) -> Seq<char>
    decreases s.len(),
{
    if p.len() > 0 && occurs_at(s, p, 0) {
        strip_leading(s.subrange(p.len() as int, s.len() as int), p)
    } else {
        s
    }
}

fn strip_leading_chars(s: &Vec<char>, p: &Vec<char>) -> (r: Vec<char>)
    ensures
        r@ == strip_leading(s@, p@),
{
    let mut cur = s.clone();
    assert(cur@ =~= s@);
    if p.len() == 0 {
        return cur;
    }
    while chars_occur_at(&cur, p, 0)
        invariant
            p@.len() > 0,
            strip_leading(cur@, p@) == strip_leading(s@, p@),
        decreases cur@.len(),
    {
        let n = cur.len();
        cur = sub_chars(&cur, p.len(), n);
    }
    cur
}

/// Where a typed path points: nowhere when it is blank; the home directory
/// for `~` (the root when there is none); under home for `~/...` (the text
/// as it is when there is no home); an absolute path as it is; else under
/// the current directory.
pub open spec fn typed_target_spec(current_dir: Seq<char>, typed: Seq<char>, home: Option<Seq<char>>) -> Option<Seq<char>> {
    let t = trim(typed);
    if t.len() == 0 {
        None
    } else if occurs_at(t, "~/"@, 0) {
        Some(
            match home {
                Some(h) => joined(h, t.subrange(2, t.len() as int)),
                None => t,
            },
        )
    } else if t == "~"@ {
        Some(or_else(home, "/"@))
    } else if is_absolute(t) {
        Some(t)
    } else {
        Some(joined(current_dir, t))
    }
}

/// Where a typed path points (before anything checks that it exists).
pub fn typed_path_target(current_dir: &str, typed: &str, home: Option<&str>) -> (r: Option<String>)
    ensures
        opt_text(r) == typed_target_spec(
            current_dir@,
            typed@,
            match home {
                Some(h) => Some(h@),
                None => None::<Seq<char>>,
            },
        ),
{
    proof {
        reveal_strlit("~/");
        reveal_strlit("~");
        reveal_strlit("/");
    }
    let t = trim_str(typed);
    let cs = chars_of(t.as_str());
    if cs.len() == 0 {
        return None;
    }
    let tilde_slash = chars_of("~/");
    if chars_occur_at(&cs, &tilde_slash, 0) {
        match home {
            Some(h) => {
                let rest = string_of(&sub_chars(&cs, 2, cs.len()));
                Some(path_join(h, rest.as_str()))
            },
            None => Some(t),
        }
    } else if str_eq(t.as_str(), "~") {
        match home {
            Some(h) => Some(String::from_str(h)),
            None => Some(String::from_str("/")),
        }
    } else if cs[0] == '/' {
        Some(t)
    } else {
        Some(path_join(current_dir, t.as_str()))
    }
}

/// How completion candidates are shown: relative to the current
/// directory, under `~/`, or as absolute paths.
#[derive(Clone, Copy, Debug, PartialEq, Eq, Structural)]
pub enum ShownAs {
    Relative,
    Home,
    Absolute,
}

/// The directory a partial path is completed in, the fragment of a name
/// being typed, and how candidates are shown.
pub struct CompletionBase {
    pub base_dir: String,
    pub fragment: String,
    pub shown: ShownAs,
}

/// The directory and fragment for `rest` under `base`: the directory
/// itself when the partial path ends with `/`, else the parent of `rest`
/// and its last component.
pub open spec fn split_under(base: Seq<char>, rest: Seq<char>, dir_only: bool) -> (Seq<char>, Seq<char>) {
    if dir_only {
        (joined(base, rest), Seq::empty())
    } else {
        (joined(base, or_else(parent_of(rest), Seq::empty())), or_else(file_name_of(rest), Seq::empty()))
    }
}

/// Where completion of a partial path looks: the current directory for a
/// blank one; home (the root when there is none) for `~` and `~/...`; the
/// path or its parent for an absolute one; else under the current
/// directory.
pub open spec fn completion_base_spec(current_dir: Seq<char>, partial: Seq<char>, home: Option<Seq<char>>) -> (
    Seq<char>,
    Seq<char>,
    ShownAs,
) {
    let p = trim(partial);
    let h = or_else(home, "/"@);
    let dir_only = p.len() > 0 && p.last() == '/';
    if p.len() == 0 {
        (current_dir, Seq::empty(), ShownAs::Relative)
    } else if p == "~"@ {
        (h, Seq::empty(), ShownAs::Home)
    } else if occurs_at(p, "~/"@, 0) {
        let (b, f) = split_under(h, strip_leading(p, "~/"@), dir_only);
        (b, f, ShownAs::Home)
    } else if is_absolute(p) {
        if dir_only {
            (p, Seq::empty(), ShownAs::Absolute)
        } else {
            (or_else(parent_of(p), p), or_else(file_name_of(p), Seq::empty()), ShownAs::Absolute)
        }
    } else {
        let (b, f) = split_under(current_dir, p, dir_only);
        (b, f, ShownAs::Relative)
    }
}

fn or_empty(o: Option<String>) -> (r: String)
    ensures
        r@ == or_else(opt_text(o), Seq::empty()),
{
    match o {
        Some(s) => s,
        None => String::new(),
    }
}

/// The directory, fragment and kind of `rest` under `base`.
fn split_under_exec(base: &str, rest: &str, dir_only: bool) -> (r: (String, String))
    ensures
        (r.0@, r.1@) == split_under(base@, rest@, dir_only),
{
    if dir_only {
        (path_join(base, rest), String::new())
    } else {
        let parent = or_empty(path_parent(rest));
        (path_join(base, parent.as_str()), or_empty(path_file_name(rest)))
    }
}

/// Where completion of a partial path looks.
pub fn completion_base(current_dir: &str, partial: &str, home: Option<&str>) -> (r: CompletionBase)
    ensures
        (r.base_dir@, r.fragment@, r.shown) == completion_base_spec(
            current_dir@,
            partial@,
            match home {
                Some(h) => Some(h@),
                None => None::<Seq<char>>,
            },
        ),
{
    proof {
        reveal_strlit("~/");
        reveal_strlit("~");
        reveal_strlit("/");
    }
    let p = trim_str(partial);
    let cs = chars_of(p.as_str());
    let h: &str = match home {
        Some(h) => h,
        None => "/",
    };
    if cs.len() == 0 {
        return CompletionBase { base_dir: String::from_str(current_dir), fragment: String::new(), shown: ShownAs::Relative };
    }
    let dir_only = cs[cs.len() - 1] == '/';
    let tilde_slash = chars_of("~/");
    if str_eq(p.as_str(), "~") {
        CompletionBase { base_dir: String::from_str(h), fragment: String::new(), shown: ShownAs::Home }
    } else if chars_occur_at(&cs, &tilde_slash, 0) {
        let rest = string_of(&strip_leading_chars(&cs, &tilde_slash));
        let (b, f) = split_under_exec(h, rest.as_str(), dir_only);
        CompletionBase { base_dir: b, fragment: f, shown: ShownAs::Home }
    } else if cs[0] == '/' {
        if dir_only {
            CompletionBase { base_dir: p, fragment: String::new(), shown: ShownAs::Absolute }
        } else {
            let base = match path_parent(p.as_str()) {
                Some(q) => q,
                None => p.clone(),
            };
            CompletionBase { base_dir: base, fragment: or_empty(path_file_name(p.as_str())), shown: ShownAs::Absolute }
        }
    } else {
        let (b, f) = split_under_exec(current_dir, p.as_str(), dir_only);
        CompletionBase { base_dir: b, fragment: f, shown: ShownAs::Relative }
    }
}

/// How a candidate at `path` is shown: under `~/` when it lies in home,
/// relative to the current directory when it lies there, else as it is.
pub open spec fn shown_path_spec(shown: ShownAs, path: Seq<char>, home: Option<Seq<char>>, current_dir: Seq<char>) -> Seq<char> {
    match shown {
        ShownAs::Home => match home {
            Some(h) => match stripped_prefix(path, h) {
                Some(rel) => "~/"@ + rel,
                None => path,
            },
            None => path,
        },
        ShownAs::Absolute => path,
        ShownAs::Relative => or_else(stripped_prefix(path, current_dir), path),
    }
}

/// How a completion candidate at `path` is shown.
pub fn shown_path(shown: ShownAs, path: &str, home: Option<&str>, current_dir: &str) -> (r: String)
    ensures
        r@ == shown_path_spec(
            shown,
            path@,
            match home {
                Some(h) => Some(h@),
                None => None::<Seq<char>>,
            },
            current_dir@,
        ),
{
    match shown {
        ShownAs::Home => match home {
            Some(h) => match path_strip_prefix(path, h) {
                Some(rel) => concat_str("~/", rel.as_str()),
                None => String::from_str(path),
            },
            None => String::from_str(path),
        },
        ShownAs::Absolute => String::from_str(path),
        ShownAs::Relative => match path_strip_prefix(path, current_dir) {
            Some(rel) => rel,
            None => String::from_str(path),
        },
    }
}

/// Where the key picker opens.
#[derive(Clone, Copy, Debug, PartialEq, Eq, Structural)]
pub enum StartDir {
    /// The typed key path itself (a directory).
    Typed,
    /// The directory holding the typed key path.
    TypedParent,
    /// The root, for a typed file without a parent.
    Root,
    /// The `.ssh` directory under home.
    HomeSsh,
    /// The home directory (the root when there is none).
    Home,
}

/// What the file system says of the typed key path.
#[derive(Clone, Copy, Debug, PartialEq, Eq, Structural)]
pub struct TypedPathFacts {
    pub is_dir: bool,
    pub is_file: bool,
    pub has_parent: bool,
    pub parent_exists: bool,
}

/// Where the key picker opens: for a key path that is typed (not blank),
/// the path when it is a directory, its directory when it is a file (the
/// root when it has none) or when that directory exists; otherwise the
/// `.ssh` directory under home when there is one, else home.
pub fn start_dir(path_mode: bool, typed_blank: bool, facts: TypedPathFacts, ssh_is_dir: bool) -> (r: StartDir)
    ensures
        r == (if path_mode && !typed_blank && facts.is_dir {
            StartDir::Typed
        } else if path_mode && !typed_blank && facts.is_file {
            if facts.has_parent { StartDir::TypedParent } else { StartDir::Root }
        } else if path_mode && !typed_blank && facts.has_parent && facts.parent_exists {
            StartDir::TypedParent
        } else if ssh_is_dir {
            StartDir::HomeSsh
        } else {
            StartDir::Home
        }),
{
    if path_mode && !typed_blank {
        if facts.is_dir {
            return StartDir::Typed;
        }
        if facts.is_file {
            return if facts.has_parent { StartDir::TypedParent } else { StartDir::Root };
        }
        if facts.has_parent && facts.parent_exists {
            return StartDir::TypedParent;
        }
    }
    if ssh_is_dir {
        StartDir::HomeSsh
    } else {
        StartDir::Home
    }
}

} // verus!
