//! The key file picker of the host dialog: a directory listing with a small
//! command line (`cd <path>`, `select <path|name|number>`), its history and
//! its tab completion. Reading directories and files is left to the caller;
//! this module decides what each key and command asks for.

use vstd::prelude::*;
use crate::endpoints::{all_digits, dec_value, is_digit};
use crate::input::{KeyCode, KeyEvent};
use crate::navigation::HostKeyInputMode;
use crate::paths::{file_name_of, path_file_name};
use crate::text::{
    byte_len, char_is_ws, chars_of, concat_str, is_blank, is_blank_str, is_ws, push_char, str_byte_len,
    str_eq, string_of, string_views, sub_chars, trim, trim_bounds, trim_start, trim_str,
};

verus! {

/// One entry of the picker's listing.
#[derive(Clone, Debug)]
pub struct PickerEntry {
    pub label: String,
    pub path: String,
    pub is_dir: bool,
}

/// The key file picker.
#[derive(Clone, Debug)]
pub struct KeyPickerState {
    pub target_mode: HostKeyInputMode,
    pub current_dir: String,
    pub entries: Vec<PickerEntry>,
    pub selected: usize,
    pub scroll: usize,
    pub command_input: String,
    pub completion_prefix: String,
    pub completion_matches: Vec<String>,
    pub completion_index: usize,
    pub command_history: Vec<String>,
    pub history_index: Option<usize>,
    pub status: Option<String>,
    pub error: Option<String>,
}

/// Whether `new` is `old` after typing `c` into the command line: the
/// character is added, the history left, the completion forgotten and the
/// messages cleared; the listing, selection, scroll and history stay.
pub open spec fn typed_into(old: KeyPickerState, new: KeyPickerState, c: char) -> bool {
    &&& new.command_input@ == old.command_input@.push(c)
    &&& new.completion_prefix@.len() == 0
    &&& new.completion_matches@.len() == 0
    &&& new == (KeyPickerState {
        command_input: new.command_input,
        completion_prefix: new.completion_prefix,
        completion_matches: new.completion_matches,
        completion_index: 0,
        history_index: None,
        status: None,
        error: None,
        ..old
    })
}

/// Whether `new` is `old` after recalling the previous command of the
/// history (see `KeyPickerState::history_up`).
pub open spec fn recalled_older(old: KeyPickerState, new: KeyPickerState) -> bool {
    &&& new.entries == old.entries
    &&& new.current_dir == old.current_dir
    &&& new.selected == old.selected
    &&& new.scroll == old.scroll
    &&& old.command_history@.len() == 0 ==> new == old
    &&& old.command_history@.len() > 0 ==> {
        let n = old.command_history@.len();
        let next = match old.history_index {
            Some(i) => if i > 0 { i - 1 } else { i as int },
            None => n - 1,
        };
        &&& new.history_index == Some(next as usize)
        &&& (0 <= next < n ==> new.command_input == old.command_history@[next] && new.completion_matches@.len() == 0)
        &&& new.command_history == old.command_history
    }
}

/// Whether `new` is `old` after recalling the next newer command of the
/// history (see `KeyPickerState::history_down`).
pub open spec fn recalled_newer(old: KeyPickerState, new: KeyPickerState) -> bool {
    &&& new.entries == old.entries
    &&& new.current_dir == old.current_dir
    &&& new.selected == old.selected
    &&& new.scroll == old.scroll
    &&& old.history_index is None ==> new == old
    &&& old.history_index matches Some(i) ==> {
        &&& new.command_history == old.command_history
        &&& if i + 1 >= old.command_history@.len() {
            &&& new.history_index is None
            &&& new.command_input@.len() == 0
            &&& new.completion_matches@.len() == 0
        } else {
            &&& new.history_index == Some((i + 1) as usize)
            &&& new.command_input == old.command_history@[i + 1]
            &&& new.completion_matches@.len() == 0
        }
    }
}

/// Whether `new` is `old` after erasing the last character of the command
/// line (see `KeyPickerState::erase_char`).
pub open spec fn erased_last(old: KeyPickerState, new: KeyPickerState) -> bool {
    &&& new.entries == old.entries
    &&& new.current_dir == old.current_dir
    &&& new.selected == old.selected
    &&& new.scroll == old.scroll
    &&& old.command_input@.len() == 0 ==> new == old
    &&& old.command_input@.len() > 0 ==> {
        &&& new.command_input@ == old.command_input@.drop_last()
        &&& new.history_index is None
        &&& new.completion_matches@.len() == 0
        &&& new.error is None && new.status is None
    }
}

impl KeyPickerState {
    /// A picker on `current_dir` listing `entries` (or showing `error`),
    /// with an empty command line.
    pub fn new(target_mode: HostKeyInputMode, current_dir: String, entries: Vec<PickerEntry>, error: Option<String>) -> (r: Self)
        ensures
            r.target_mode == target_mode,
            r.current_dir == current_dir,
            r.entries == entries,
            r.selected == 0 && r.scroll == 0,
            r.command_input@.len() == 0,
            r.completion_prefix@.len() == 0 && r.completion_matches@.len() == 0 && r.completion_index == 0,
            r.command_history@.len() == 0 && r.history_index is None,
            r.status is None,
            r.error == error,
    {
        KeyPickerState {
            target_mode,
            current_dir,
            entries,
            selected: 0,
            scroll: 0,
            command_input: String::new(),
            completion_prefix: String::new(),
            completion_matches: Vec::new(),
            completion_index: 0,
            command_history: Vec::new(),
            history_index: None,
            status: None,
            error,
        }
    }

    /// Shows a freshly read directory: its entries, from the top, without
    /// message.
    pub fn show_directory(&mut self, dir: String, entries: Vec<PickerEntry>)
        ensures
            final(self).current_dir == dir,
            final(self).entries == entries,
            final(self).selected == 0 && final(self).scroll == 0,
            final(self).error is None && final(self).status is None,
            final(self).command_input == old(self).command_input,
            final(self).command_history == old(self).command_history,
            final(self).history_index == old(self).history_index,
    {
        self.current_dir = dir;
        self.entries = entries;
        self.selected = 0;
        self.scroll = 0;
        self.error = None;
        self.status = None;
    }

    /// Forgets the tab completion in progress.
    pub fn reset_completion(&mut self)
        ensures
            final(self).completion_prefix@.len() == 0,
            final(self).completion_matches@.len() == 0,
            *final(self) == (KeyPickerState {
                completion_prefix: final(self).completion_prefix,
                completion_matches: final(self).completion_matches,
                completion_index: 0,
                ..*old(self)
            }),
    {
        self.completion_prefix = String::new();
        self.completion_matches = Vec::new();
        self.completion_index = 0;
    }

    /// Brings the scroll position up to the selection when the selection is
    /// above it.
    pub fn ensure_selection_visible(&mut self)
        ensures
            *final(self) == (KeyPickerState {
                scroll: if old(self).selected < old(self).scroll { old(self).selected } else { old(self).scroll },
                ..*old(self)
            }),
    {
        if self.selected < self.scroll {
            self.scroll = self.selected;
        }
    }

    /// Recalls the previous command of the history into the command line:
    /// from the line being typed, the newest; then each older one, stopping
    /// at the oldest.
    pub fn history_up(&mut self)
        ensures
            recalled_older(*old(self), *final(self)),
    {
        let n = self.command_history.len();
        if n == 0 {
            return;
        }
        let next = match self.history_index {
            Some(i) => if i > 0 { i - 1 } else { i },
            None => n - 1,
        };
        self.history_index = Some(next);
        if next < n {
            self.command_input = self.command_history[next].clone();
            self.reset_completion();
        }
    }

    /// Recalls the next newer command of the history; past the newest, the
    /// command line is cleared and the history left.
    pub fn history_down(&mut self)
        ensures
            recalled_newer(*old(self), *final(self)),
    {
        let current = match self.history_index {
            Some(i) => i,
            None => return,
        };
        if current >= self.command_history.len() || current + 1 >= self.command_history.len() {
            self.history_index = None;
            self.command_input = String::new();
            self.reset_completion();
            return;
        }
        let next = current + 1;
        self.history_index = Some(next);
        self.command_input = self.command_history[next].clone();
        self.reset_completion();
    }

    /// Adds a typed character to the command line, leaving the history and
    /// the completion and clearing the messages.
    pub fn type_char(&mut self, c: char)
        ensures
            typed_into(*old(self), *final(self), c),
    {
        push_char(&mut self.command_input, c);
        self.history_index = None;
        self.reset_completion();
        self.error = None;
        self.status = None;
    }

    /// Removes the last character of the command line, if any, leaving the
    /// history and the completion and clearing the messages.
    pub fn erase_char(&mut self)
        ensures
            erased_last(*old(self), *final(self)),
    {
        let cs = chars_of(self.command_input.as_str());
        let n = cs.len();
        if n == 0 {
            return;
        }
        let head = sub_chars(&cs, 0, n - 1);
        assert(head@ =~= self.command_input@.drop_last());
        self.command_input = string_of(&head);
        self.history_index = None;
        self.reset_completion();
        self.error = None;
        self.status = None;
    }
}

/// What a key in the key picker asks for.
#[derive(Clone, Debug)]
pub enum PickerKeyOutcome {
    /// Nothing beyond what the picker did itself.
    Stay,
    /// The picker closes.
    Close,
    /// The parent of the current directory is to be shown.
    OpenParent,
    /// This directory is to be shown.
    OpenDirectory(String),
    /// The command line is to be completed.
    Complete,
    /// The command line is to be run.
    RunCommand,
    /// This file is to be chosen.
    ChooseFile(String),
}

/// Handles a key in the key picker. With an empty command line Up/Down
/// move in the listing, Left opens the parent and Right opens a selected
/// directory; with a command Up/Down walk the history. Typing edits the
/// command line; Tab completes it; Enter runs it, or with an empty line
/// opens the selected directory or chooses the selected file; Esc closes.
pub fn handle_picker_key(picker: &mut KeyPickerState, key: KeyEvent) -> (r: PickerKeyOutcome)
    ensures
        final(picker).entries == old(picker).entries,
        final(picker).current_dir == old(picker).current_dir,
        key.code == KeyCode::Esc ==> r is Close && *final(picker) == *old(picker),
        key.code == KeyCode::Up && (trim(old(picker).command_input@).len() == 0) ==> {
            let sel = (if old(picker).selected == 0 { 0 } else { (old(picker).selected - 1) as usize });
            &&& final(picker).selected == sel
            &&& *final(picker) == (KeyPickerState {
                selected: sel,
                scroll: if sel < old(picker).scroll { sel } else { old(picker).scroll },
                ..*old(picker)
            })
            &&& r is Stay
        },
        key.code == KeyCode::Down && (trim(old(picker).command_input@).len() == 0) ==> {
            let n = old(picker).entries@.len();
            let last = if n == 0 { 0 } else { n - 1 };
            let sel = (if old(picker).selected + 1 < last { old(picker).selected + 1 } else { last as int }) as usize;
            &&& final(picker).selected == sel
            &&& *final(picker) == (KeyPickerState {
                selected: sel,
                scroll: if sel < old(picker).scroll { sel } else { old(picker).scroll },
                ..*old(picker)
            })
            &&& r is Stay
        },
        key.code == KeyCode::Left ==> (if (trim(old(picker).command_input@).len() == 0) { r is OpenParent } else { r is Stay })
            && *final(picker) == *old(picker),
        key.code == KeyCode::Right ==> *final(picker) == *old(picker) && (if (trim(old(picker).command_input@).len() == 0)
            && old(picker).selected < old(picker).entries@.len() && old(picker).entries@[old(picker).selected as int].is_dir {
            r matches PickerKeyOutcome::OpenDirectory(p) && p == old(picker).entries@[old(picker).selected as int].path
        } else {
            r is Stay
        }),
        key.code == KeyCode::Tab ==> r is Complete && *final(picker) == *old(picker),
        key.code == KeyCode::Enter ==> *final(picker) == *old(picker) && (if !(trim(old(picker).command_input@).len() == 0) {
            r is RunCommand
        } else if old(picker).selected < old(picker).entries@.len() {
            let e = old(picker).entries@[old(picker).selected as int];
            if e.is_dir {
                r matches PickerKeyOutcome::OpenDirectory(p) && p == e.path
            } else {
                r matches PickerKeyOutcome::ChooseFile(p) && p == e.path
            }
        } else {
            r is Stay
        }),
        key.code is Char && !(key.modifiers.control || key.modifiers.alt || key.modifiers.super_key) ==> {
            &&& r is Stay
            &&& typed_into(*old(picker), *final(picker), key.code->Char_0)
        },
        key.code is Char && (key.modifiers.control || key.modifiers.alt || key.modifiers.super_key) ==> r is Stay
            && *final(picker) == *old(picker),
        key.code == KeyCode::Up && !(trim(old(picker).command_input@).len() == 0) ==> r is Stay && recalled_older(
            *old(picker),
            *final(picker),
        ),
        key.code == KeyCode::Down && !(trim(old(picker).command_input@).len() == 0) ==> r is Stay && recalled_newer(
            *old(picker),
            *final(picker),
        ),
        key.code == KeyCode::Backspace ==> r is Stay && erased_last(*old(picker), *final(picker)),
        !(key.code is Char || key.code == KeyCode::Esc || key.code == KeyCode::Up || key.code == KeyCode::Down
            || key.code == KeyCode::Left || key.code == KeyCode::Right || key.code == KeyCode::Tab || key.code
            == KeyCode::Enter || key.code == KeyCode::Backspace) ==> r is Stay && *final(picker) == *old(picker),
{
    let blank = is_blank_str(picker.command_input.as_str());
    match key.code {
        KeyCode::Esc => PickerKeyOutcome::Close,
        KeyCode::Up => {
            if blank {
                picker.selected = if picker.selected == 0 { 0 } else { picker.selected - 1 };
                picker.ensure_selection_visible();
            } else {
                picker.history_up();
            }
            PickerKeyOutcome::Stay
        },
        KeyCode::Down => {
            if blank {
                let n = picker.entries.len();
                let last = if n == 0 { 0 } else { n - 1 };
                let s = picker.selected;
                picker.selected = if s < last && s + 1 < last { s + 1 } else { last };
                picker.ensure_selection_visible();
            } else {
                picker.history_down();
            }
            PickerKeyOutcome::Stay
        },
        KeyCode::Backspace => {
            picker.erase_char();
            PickerKeyOutcome::Stay
        },
        KeyCode::Left => if blank { PickerKeyOutcome::OpenParent } else { PickerKeyOutcome::Stay },
        KeyCode::Right => {
            if blank && picker.selected < picker.entries.len() && picker.entries[picker.selected].is_dir {
                PickerKeyOutcome::OpenDirectory(picker.entries[picker.selected].path.clone())
            } else {
                PickerKeyOutcome::Stay
            }
        },
        KeyCode::Tab => PickerKeyOutcome::Complete,
        KeyCode::Char(c) => {
            if !(key.modifiers.control || key.modifiers.alt || key.modifiers.super_key) {
                picker.type_char(c);
            }
            PickerKeyOutcome::Stay
        },
        KeyCode::Enter => {
            if !blank {
                PickerKeyOutcome::RunCommand
            } else if picker.selected < picker.entries.len() {
                let e = &picker.entries[picker.selected];
                if e.is_dir {
                    PickerKeyOutcome::OpenDirectory(e.path.clone())
                } else {
                    PickerKeyOutcome::ChooseFile(e.path.clone())
                }
            } else {
                PickerKeyOutcome::Stay
            }
        },
        _ => PickerKeyOutcome::Stay,
    }
}

/// The length of the first word of `s` (up to its first whitespace).
pub open spec fn head_len(s: Seq<char>) -> nat
    decreases s.len(),
{
    if s.len() > 0 && !is_ws(s[0]) {
        1 + head_len(s.drop_first())
    } else {
        0
    }
}

/// `s` cut at its first whitespace character, as `splitn(2, char::is_whitespace)`
/// cuts it: the part before it, and the part after it (none when `s` has no
/// whitespace).
pub open spec fn split_once_ws(s: Seq<char>) -> (Seq<char>, Option<Seq<char>>) {
    let k = head_len(s);
    if k < s.len() {
        (s.subrange(0, k as int), Some(s.subrange(k as int + 1, s.len() as int)))
    } else {
        (s, None)
    }
}

proof fn lemma_head_len(s: Seq<char>, k: int)
    requires
        0 <= k <= s.len(),
        forall|j: int| 0 <= j < k ==> !is_ws(#[trigger] s[j]),
        k == s.len() || is_ws(s[k]),
    ensures
        head_len(s) == k,
    decreases k,
{
    if k > 0 {
        let t = s.drop_first();
        assert forall|j: int| 0 <= j < k - 1 implies !is_ws(#[trigger] t[j]) by {
            assert(t[j] == s[j + 1]);
        }
        lemma_head_len(t, k - 1);
    }
}

/// Cuts a text at its first whitespace character.
fn split_first_ws(s: &str) -> (r: (String, Option<String>))
    ensures
        r.0@ == split_once_ws(s@).0,
        match split_once_ws(s@).1 {
            Some(rest) => r.1 matches Some(x) && x@ == rest,
            None => r.1 is None,
        },
{
    let cs = chars_of(s);
    let n = cs.len();
    let mut k: usize = 0;
    while k < n && !char_is_ws(cs[k])
        invariant
            k <= n,
            n == cs@.len(),
            forall|j: int| 0 <= j < k ==> !is_ws(#[trigger] cs@[j]),
        decreases n - k,
    {
        k = k + 1;
    }
    proof {
        lemma_head_len(cs@, k as int);
    }
    if k < n {
        (string_of(&sub_chars(&cs, 0, k)), Some(string_of(&sub_chars(&cs, k + 1, n))))
    } else {
        assert(cs@.subrange(0, n as int) =~= cs@);
        (string_of(&cs), None)
    }
}

/// A command of the picker's command line.
#[derive(Clone, Debug)]
pub enum PickerCommand {
    /// Show the directory at this path.
    ChangeDirectory(String),
    /// Choose the file this argument names.
    Select(String),
    /// The command cannot run; the message says why.
    Invalid(String),
}

/// The mathematical value of a `PickerCommand`.
pub enum PickerCommandView {
    ChangeDirectory(Seq<char>),
    Select(Seq<char>),
    Invalid(Seq<char>),
}

impl View for PickerCommand {
    type V = PickerCommandView;

    open spec fn view(&self) -> PickerCommandView {
        match self {
            PickerCommand::ChangeDirectory(a) => PickerCommandView::ChangeDirectory(a@),
            PickerCommand::Select(a) => PickerCommandView::Select(a@),
            PickerCommand::Invalid(m) => PickerCommandView::Invalid(m@),
        }
    }
}

/// What a (trimmed, non-empty) command line says: its first word is the
/// command, the rest (trimmed) its argument.
pub open spec fn command_spec(command: Seq<char>) -> PickerCommandView {
    let (cmd, rest) = split_once_ws(command);
    let arg = match rest {
        Some(a) => trim(a),
        None => Seq::empty(),
    };
    if cmd == "cd"@ {
        if arg.len() == 0 {
            PickerCommandView::Invalid("Usage: cd <path>"@)
        } else {
            PickerCommandView::ChangeDirectory(arg)
        }
    } else if cmd == "select"@ {
        if arg.len() == 0 {
            PickerCommandView::Invalid("Usage: select <path|name>"@)
        } else {
            PickerCommandView::Select(arg)
        }
    } else {
        PickerCommandView::Invalid("Unknown command: "@ + cmd + ". Try cd or select"@)
    }
}

/// Reads a command line.
pub fn parse_picker_command(command: &str) -> (r: PickerCommand)
    ensures
        r@ == command_spec(command@),
{
    let (cmd, rest) = split_first_ws(command);
    let arg = match rest {
        Some(a) => trim_str(a.as_str()),
        None => String::new(),
    };
    let empty_arg = arg.as_str().unicode_len() == 0;
    if str_eq(cmd.as_str(), "cd") {
        if empty_arg {
            PickerCommand::Invalid("Usage: cd <path>".to_string())
        } else {
            PickerCommand::ChangeDirectory(arg)
        }
    } else if str_eq(cmd.as_str(), "select") {
        if empty_arg {
            PickerCommand::Invalid("Usage: select <path|name>".to_string())
        } else {
            PickerCommand::Select(arg)
        }
    } else {
        let a = concat_str("Unknown command: ", cmd.as_str());
        PickerCommand::Invalid(concat_str(a.as_str(), ". Try cd or select"))
    }
}

/// Starts running the command line: a blank line runs nothing; otherwise
/// the trimmed command goes into the history, the history and completion
/// are left and the messages cleared, and the command is returned read.
pub fn begin_picker_command(picker: &mut KeyPickerState) -> (r: Option<PickerCommand>)
    ensures
        trim(old(picker).command_input@).len() == 0 ==> r is None && *final(picker) == *old(picker),
        trim(old(picker).command_input@).len() > 0 ==> {
            let command = trim(old(picker).command_input@);
            &&& r matches Some(c) && c@ == command_spec(command)
            &&& string_views(final(picker).command_history@) == string_views(old(picker).command_history@).push(command)
            &&& final(picker).history_index is None
            &&& final(picker).completion_matches@.len() == 0
            &&& final(picker).error is None && final(picker).status is None
            &&& final(picker).command_input == old(picker).command_input
            &&& final(picker).entries == old(picker).entries
        },
{
    let command = trim_str(picker.command_input.as_str());
    if command.as_str().unicode_len() == 0 {
        return None;
    }
    let parsed = parse_picker_command(command.as_str());
    let ghost before = string_views(picker.command_history@);
    picker.command_history.push(command);
    assert(string_views(picker.command_history@) =~= before.push(trim(old(picker).command_input@)));
    picker.history_index = None;
    picker.reset_completion();
    picker.error = None;
    picker.status = None;
    Some(parsed)
}

/// The number `str::parse::<usize>` reads: an optional `+`, then decimal
/// digits whose value fits.
pub open spec fn parse_usize_spec(s: Seq<char>) -> Option<usize> {
    let d = if s.len() > 0 && s[0] == '+' { s.drop_first() } else { s };
    if d.len() > 0 && all_digits(d) && dec_value(d) <= usize::MAX {
        Some(dec_value(d) as usize)
    } else {
        None
    }
}

proof fn lemma_dec_value_grows(d: Seq<char>, i: int, j: int)
    requires
        0 <= i <= j <= d.len(),
        all_digits(d),
    ensures
        dec_value(d.subrange(0, i)) <= dec_value(d.subrange(0, j)),
    decreases j - i,
{
    if i < j {
        lemma_dec_value_grows(d, i, j - 1);
        assert(d.subrange(0, j).drop_last() =~= d.subrange(0, j - 1));
    }
}

/// `str::parse::<usize>`.
pub fn parse_usize(s: &str) -> (r: Option<usize>)
    ensures
        r == parse_usize_spec(s@),
{
    let cs = chars_of(s);
    let n = cs.len();
    let start: usize = if n > 0 && cs[0] == '+' { 1 } else { 0 };
    let ghost d = if s@.len() > 0 && s@[0] == '+' { s@.drop_first() } else { s@ };
    assert(d =~= cs@.subrange(start as int, n as int));
    if start == n {
        return None;
    }
    let mut value: usize = 0;
    let mut i: usize = start;
    while i < n
        invariant
            start <= i <= n,
            n == cs@.len(),
            cs@ == s@,
            d == cs@.subrange(start as int, n as int),
            d == (if s@.len() > 0 && s@[0] == '+' { s@.drop_first() } else { s@ }),
            all_digits(d.subrange(0, i - start)),
            value as nat == dec_value(d.subrange(0, i - start)),
        decreases n - i,
    {
        let c = cs[i];
        if !('0' <= c && c <= '9') {
            assert(d[i - start] == c);
            assert(!all_digits(d));
            return None;
        }
        let digit = (c as u32 - '0' as u32) as usize;
        proof {
            let p = d.subrange(0, (i + 1 - start) as int);
            assert(p.drop_last() =~= d.subrange(0, i - start));
            assert(p.last() == c);
            assert(all_digits(p));
            assert(dec_value(p) == value * 10 + digit);
        }
        let next = match value.checked_mul(10) {
            Some(t) => t.checked_add(digit),
            None => None,
        };
        match next {
            Some(v) => {
                value = v;
            },
            None => {
                proof {
                    if all_digits(d) {
                        lemma_dec_value_grows(d, (i + 1 - start) as int, d.len() as int);
                        assert(d.subrange(0, d.len() as int) =~= d);
                    }
                }
                return None;
            },
        }
        i = i + 1;
    }
    assert(d.subrange(0, n - start) =~= d);
    Some(value)
}

/// `s` without its trailing `/` characters.
pub open spec fn trim_slashes_end(s: Seq<char>) -> Seq<char>
    decreases s.len(),
{
    if s.len() > 0 && s.last() == '/' {
        trim_slashes_end(s.drop_last())
    } else {
        s
    }
}

fn strip_trailing_slashes(s: &str) -> (r: String)
    ensures
        r@ == trim_slashes_end(s@),
{
    let cs = chars_of(s);
    let mut k = cs.len();
    assert(cs@.subrange(0, k as int) =~= cs@);
    while k > 0 && cs[k - 1] == '/'
        invariant
            k <= cs@.len(),
            trim_slashes_end(cs@) == trim_slashes_end(cs@.subrange(0, k as int)),
        decreases k,
    {
        assert(cs@.subrange(0, k as int).drop_last() =~= cs@.subrange(0, k - 1));
        k = k - 1;
    }
    string_of(&sub_chars(&cs, 0, k))
}

/// Whether an entry is the one `arg` names: by its label, its label
/// without trailing slashes, or its file name.
pub open spec fn names_entry(e: PickerEntry, arg: Seq<char>) -> bool {
    e.label@ == arg || trim_slashes_end(e.label@) == arg || file_name_of(e.path@) == Some(arg)
}

/// The entry a `select` argument names, if it names one of the listing: a
/// number counts entries from 1; otherwise the first entry whose label or
/// file name it is.
pub open spec fn select_entry_spec(entries: Seq<PickerEntry>, arg: Seq<char>) -> Option<int> {
    match parse_usize_spec(arg) {
        Some(i) if i > 0 && i <= entries.len() => Some(i - 1),
        _ => if exists|k: int| 0 <= k < entries.len() && names_entry(entries[k], arg) {
            Some(choose|k: int| 0 <= k < entries.len() && names_entry(entries[k], arg) && forall|j: int| 0 <= j < k ==> !names_entry(entries[j], arg))
        } else {
            None
        },
    }
}

/// The path of the entry a `select` argument names, if it names one; the
/// caller then treats the argument as a path of its own.
pub fn select_entry_path(entries: &Vec<PickerEntry>, arg: &str) -> (r: Option<String>)
    ensures
        match select_entry_spec(entries@, arg@) {
            Some(k) => r matches Some(p) && p == entries@[k].path,
            None => r is None,
        },
{
    match parse_usize(arg) {
        Some(i) => {
            if i > 0 && i <= entries.len() {
                return Some(entries[i - 1].path.clone());
            }
        },
        None => {},
    }
    let mut k: usize = 0;
    while k < entries.len()
        invariant
            k <= entries@.len(),
            !(parse_usize_spec(arg@) matches Some(i) && i > 0 && i <= entries@.len()),
            forall|j: int| 0 <= j < k ==> !names_entry(#[trigger] entries@[j], arg@),
        decreases entries@.len() - k,
    {
        let e = &entries[k];
        let bare = strip_trailing_slashes(e.label.as_str());
        let by_file = match path_file_name(e.path.as_str()) {
            Some(n) => str_eq(n.as_str(), arg),
            None => false,
        };
        if str_eq(e.label.as_str(), arg) || str_eq(bare.as_str(), arg) || by_file {
            proof {
                assert(names_entry(entries@[k as int], arg@));
                let c = choose|c: int| 0 <= c < entries@.len() && names_entry(entries@[c], arg@) && forall|j: int| 0 <= j < c ==> !names_entry(entries@[j], arg@);
                if c < k {
                } else if c > k {
                    assert(!names_entry(entries@[k as int], arg@));
                }
            }
            return Some(e.path.clone());
        }
        k = k + 1;
    }
    None
}

/// The common prefix of two texts.
pub open spec fn common_prefix(a: Seq<char>, b: Seq<char>) -> Seq<char>
    decreases a.len(),
{
    if a.len() > 0 && b.len() > 0 && a[0] == b[0] {
        seq![a[0]] + common_prefix(a.drop_first(), b.drop_first())
    } else {
        Seq::empty()
    }
}

/// The longest common prefix of texts (empty for none).
pub open spec fn lcp_spec(v: Seq<Seq<char>>) -> Seq<char>
    decreases v.len(),
{
    if v.len() == 0 {
        Seq::empty()
    } else if v.len() == 1 {
        v[0]
    } else {
        common_prefix(lcp_spec(v.drop_last()), v.last())
    }
}

proof fn lemma_common_prefix_len(a: Seq<char>, b: Seq<char>, k: int)
    requires
        0 <= k <= a.len(),
        k <= b.len(),
        forall|j: int| 0 <= j < k ==> a[j] == b[j],
        k == a.len() || k == b.len() || a[k] != b[k],
    ensures
        common_prefix(a, b) == a.subrange(0, k),
    decreases k,
{
    if k == 0 {
        assert(a.subrange(0, 0) =~= Seq::<char>::empty());
    } else {
        lemma_common_prefix_len(a.drop_first(), b.drop_first(), k - 1);
        assert(seq![a[0]] + a.drop_first().subrange(0, k - 1) =~= a.subrange(0, k));
    }
}

fn common_prefix_of(a: &Vec<char>, b: &str) -> (r: Vec<char>)
    ensures
        r@ == common_prefix(a@, b@),
{
    let bs = chars_of(b);
    let mut k: usize = 0;
    while k < a.len() && k < bs.len() && a[k] == bs[k]
        invariant
            k <= a@.len(),
            k <= bs@.len(),
            forall|j: int| 0 <= j < k ==> a@[j] == bs@[j],
        decreases a@.len() - k,
    {
        k = k + 1;
    }
    proof {
        lemma_common_prefix_len(a@, bs@, k as int);
    }
    sub_chars(a, 0, k)
}

/// The longest common prefix of texts (empty for none).
pub fn longest_common_prefix(values: &Vec<String>) -> (r: String)
    ensures
        r@ == lcp_spec(string_views(values@)),
{
    let ghost v = string_views(values@);
    if values.len() == 0 {
        return String::new();
    }
    let mut prefix = chars_of(values[0].as_str());
    let mut i: usize = 1;
    assert(v.subrange(0, 1).len() == 1);
    while i < values.len()
        invariant
            1 <= i <= values@.len(),
            v == string_views(values@),
            prefix@ == lcp_spec(v.subrange(0, i as int)),
        decreases values@.len() - i,
    {
        let ghost p = v.subrange(0, i + 1);
        assert(p.drop_last() =~= v.subrange(0, i as int));
        prefix = common_prefix_of(&prefix, values[i].as_str());
        i = i + 1;
    }
    assert(v.subrange(0, values@.len() as int) =~= v);
    string_of(&prefix)
}

/// Whether `p` starts `s`.
pub open spec fn starts_with(s: Seq<char>, p: Seq<char>) -> bool {
    p.len() <= s.len() && s.subrange(0, p.len() as int) == p
}

fn chars_start_with(s: &str, p: &str) -> (r: bool)
    ensures
        r == starts_with(s@, p@),
{
    let a = chars_of(s);
    let b = chars_of(p);
    if b.len() > a.len() {
        return false;
    }
    let head = sub_chars(&a, 0, b.len());
    crate::text::chars_eq(&head, &b)
}

/// The texts joined with two spaces between them.
pub open spec fn join_spaced(v: Seq<Seq<char>>) -> Seq<char>
    decreases v.len(),
{
    if v.len() == 0 {
        Seq::empty()
    } else if v.len() == 1 {
        v[0]
    } else {
        join_spaced(v.drop_last()) + "  "@ + v.last()
    }
}

fn join_with_spaces(values: &Vec<String>) -> (r: String)
    ensures
        r@ == join_spaced(string_views(values@)),
{
    let ghost v = string_views(values@);
    if values.len() == 0 {
        return String::new();
    }
    let mut out = values[0].clone();
    let mut i: usize = 1;
    while i < values.len()
        invariant
            1 <= i <= values@.len(),
            v == string_views(values@),
            out@ == join_spaced(v.subrange(0, i as int)),
        decreases values@.len() - i,
    {
        let ghost p = v.subrange(0, i + 1);
        assert(p.drop_last() =~= v.subrange(0, i as int));
        let a = concat_str(out.as_str(), "  ");
        out = concat_str(a.as_str(), values[i].as_str());
        i = i + 1;
    }
    assert(v.subrange(0, values@.len() as int) =~= v);
    out
}

/// The result of completing a word against `matches`: one match completes
/// it (with `suffix` after), a longer common prefix extends it, otherwise
/// the matches are listed.
pub enum CompletionView {
    NoMatch,
    Replace(Seq<char>),
    List(Seq<char>),
}

/// How a word completes against its matches.
pub open spec fn complete_word_spec(word: Seq<char>, matches: Seq<Seq<char>>, suffix: Seq<char>) -> CompletionView {
    if matches.len() == 0 {
        CompletionView::NoMatch
    } else if matches.len() == 1 {
        CompletionView::Replace(matches[0] + suffix)
    } else if (byte_len(lcp_spec(matches)) as usize) > (byte_len(word) as usize) {
        CompletionView::Replace(lcp_spec(matches))
    } else {
        CompletionView::List("matches: "@ + join_spaced(matches))
    }
}

/// Whether `new` differs from `old` at most in the command line and the
/// two messages.
pub open spec fn only_line_and_messages(old: KeyPickerState, new: KeyPickerState) -> bool {
    new == (KeyPickerState { command_input: new.command_input, status: new.status, error: new.error, ..old })
}

/// What a completion of `word` against `matches` does to the picker:
/// no match leaves the line and says so; a single match or a longer common
/// prefix writes `head` and the completed word to the line; otherwise the
/// matches are listed and the line kept. Every other part of the picker
/// stays as it was.
pub open spec fn completed(
    old: KeyPickerState,
    new: KeyPickerState,
    head: Seq<char>,
    word: Seq<char>,
    matches: Seq<Seq<char>>,
    suffix: Seq<char>,
) -> bool {
    &&& only_line_and_messages(old, new)
    &&& match complete_word_spec(word, matches, suffix) {
        CompletionView::NoMatch => {
            &&& new.error matches Some(e) && e@ == "No completion matches"@
            &&& new.status is None
            &&& new.command_input == old.command_input
        },
        CompletionView::Replace(w) => {
            &&& new.command_input@ == head + w
            &&& new.error is None && new.status is None
        },
        CompletionView::List(m) => {
            &&& new.status matches Some(s) && s@ == m
            &&& new.error is None
            &&& new.command_input == old.command_input
        },
    }
}

/// Applies a word completion to the picker: `head` then the completed
/// word replaces the command line, or the matches are listed, or an error
/// says there are none.
fn apply_completion(picker: &mut KeyPickerState, head: &str, word: &str, matches: &Vec<String>, suffix: &str)
    ensures
        completed(*old(picker), *final(picker), head@, word@, string_views(matches@), suffix@),
{
    if matches.len() == 0 {
        picker.error = Some("No completion matches".to_string());
        picker.status = None;
        return;
    }
    if matches.len() == 1 {
        let w = concat_str(matches[0].as_str(), suffix);
        picker.command_input = concat_str(head, w.as_str());
        picker.error = None;
        picker.status = None;
        return;
    }
    let common = longest_common_prefix(matches);
    if str_byte_len(common.as_str()) > str_byte_len(word) {
        picker.command_input = concat_str(head, common.as_str());
        picker.error = None;
        picker.status = None;
        return;
    }
    picker.error = None;
    let joined = join_with_spaces(matches);
    picker.status = Some(concat_str("matches: ", joined.as_str()));
}

/// What tab completion works on: the command name, or the path after
/// `cd` or `select`, or nothing it supports.
#[derive(Clone, Debug)]
pub enum CompletionTarget {
    CommandName(String),
    Path { command: String, partial: String },
    Unsupported,
}

/// What tab completion works on for a command line: with no space after
/// its leading blanks, the command name; otherwise the path argument of
/// `cd` or `select`.
pub open spec fn completion_target_spec(input: Seq<char>) -> (int, Seq<char>, Seq<char>) {
    let t = trim_start(input);
    if !t.contains(' ') {
        (0, t, Seq::empty())
    } else {
        let (cmd, rest) = split_once_ws(t);
        let arg = match rest {
            Some(a) => trim_start(a),
            None => Seq::empty(),
        };
        if cmd == "cd"@ || cmd == "select"@ {
            (1, cmd, arg)
        } else {
            (2, Seq::empty(), Seq::empty())
        }
    }
}

/// What tab completion works on for the picker's command line.
pub fn completion_target(input: &str) -> (r: CompletionTarget)
    ensures
        match r {
            CompletionTarget::CommandName(t) => completion_target_spec(input@) == (0int, t@, Seq::<char>::empty()),
            CompletionTarget::Path { command, partial } => completion_target_spec(input@) == (1int, command@, partial@),
            CompletionTarget::Unsupported => completion_target_spec(input@).0 == 2,
        },
{
    let cs = chars_of(input);
    let (a, _b) = trim_bounds(&cs);
    let t = sub_chars(&cs, a, cs.len());
    let ts = string_of(&t);
    let mut has_space = false;
    let mut i: usize = 0;
    while i < t.len()
        invariant
            i <= t@.len(),
            has_space == (exists|j: int| 0 <= j < i && t@[j] == ' '),
        decreases t@.len() - i,
    {
        if t[i] == ' ' {
            has_space = true;
        }
        i = i + 1;
    }
    proof {
        if has_space {
            let j = choose|j: int| 0 <= j < t@.len() && t@[j] == ' ';
            assert(t@.contains(' '));
        } else {
            assert(!t@.contains(' '));
        }
    }
    if !has_space {
        return CompletionTarget::CommandName(ts);
    }
    let (cmd, rest) = split_first_ws(ts.as_str());
    let arg = match rest {
        Some(r) => {
            let rc = chars_of(r.as_str());
            let (c, _d) = trim_bounds(&rc);
            string_of(&sub_chars(&rc, c, rc.len()))
        },
        None => String::new(),
    };
    if str_eq(cmd.as_str(), "cd") || str_eq(cmd.as_str(), "select") {
        CompletionTarget::Path { command: cmd, partial: arg }
    } else {
        CompletionTarget::Unsupported
    }
}

/// The commands whose names start with `token`, in order.
pub open spec fn command_matches(token: Seq<char>) -> Seq<Seq<char>> {
    (if starts_with("cd"@, token) { seq!["cd"@] } else { Seq::<Seq<char>>::empty() }) + (if starts_with(
        "select"@,
        token,
    ) {
        seq!["select"@]
    } else {
        Seq::<Seq<char>>::empty()
    })
}

/// Completes the command name of the picker's command line.
pub fn complete_command_name(picker: &mut KeyPickerState, token: &str)
    ensures
        completed(*old(picker), *final(picker), Seq::empty(), token@, command_matches(token@), " "@),
{
    let mut matches: Vec<String> = Vec::new();
    if chars_start_with("cd", token) {
        matches.push("cd".to_string());
    }
    if chars_start_with("select", token) {
        matches.push("select".to_string());
    }
    assert(string_views(matches@) =~= command_matches(token@));
    proof {
        reveal_strlit("");
    }
    apply_completion(picker, "", token, &matches, " ");
    assert(forall|w: Seq<char>| Seq::<char>::empty() + w =~= w);
}

/// Completes the path argument of `cd` or `select` against `candidates`
/// (the caller lists the paths that start with it).
pub fn complete_path_argument(picker: &mut KeyPickerState, command: &str, partial: &str, candidates: &Vec<String>)
    ensures
        completed(
            *old(picker),
            *final(picker),
            command@ + seq![' '],
            partial@,
            string_views(candidates@),
            Seq::empty(),
        ),
{
    let mut head = command.to_string();
    push_char(&mut head, ' ');
    proof {
        reveal_strlit("");
    }
    assert(""@ =~= Seq::<char>::empty());
    assert(head@ =~= command@ + seq![' ']);
    apply_completion(picker, head.as_str(), partial, candidates, "");
}

/// Completion on a command the picker cannot complete.
pub fn complete_unsupported(picker: &mut KeyPickerState)
    ensures
        final(picker).error matches Some(e) && e@ == "Tab completion supports cd/select paths"@,
        final(picker).status is None,
        final(picker).command_input == old(picker).command_input,
        only_line_and_messages(*old(picker), *final(picker)),
{
    picker.error = Some("Tab completion supports cd/select paths".to_string());
    picker.status = None;
}

/// A file or directory found where a path is being completed: its name,
/// the path as the completion writes it, and whether it is a directory.
#[derive(Clone, Debug)]
pub struct DirListing {
    pub name: String,
    pub rendered: String,
    pub is_dir: bool,
}

/// A completion as offered: a directory's path ends with `/`.
pub open spec fn finished_path(e: DirListing) -> Seq<char> {
    if e.is_dir && !(e.rendered@.len() > 0 && e.rendered@.last() == '/') {
        e.rendered@.push('/')
    } else {
        e.rendered@
    }
}

/// The completions offered among the first `n` listed names: those that
/// start with `fragment`, in listing order.
pub open spec fn kept_upto(listing: Seq<DirListing>, fragment: Seq<char>, n: int) -> Seq<Seq<char>>
    decreases n,
{
    if n <= 0 {
        Seq::empty()
    } else {
        let prev = kept_upto(listing, fragment, n - 1);
        if starts_with(listing[n - 1].name@, fragment) {
            prev.push(finished_path(listing[n - 1]))
        } else {
            prev
        }
    }
}

/// Whether `r` is `kept` ordered by ASCII-lower-case text, equal ones in
/// their listing order.
pub open spec fn sorted_by_lower(kept: Seq<Seq<char>>, r: Seq<Seq<char>>) -> bool {
    exists|perm: Seq<usize>| {
        &&& perm.len() == kept.len()
        &&& r.len() == kept.len()
        &&& crate::order::sorted_positions(kept.map_values(|k: Seq<char>| crate::text::ascii_lower(k)), Seq::new(kept.len(), |i: int| 0u32), perm, kept.len() as int)
        &&& forall|p: usize| p < kept.len() ==> #[trigger] perm.contains(p)
        &&& forall|k: int| 0 <= k < r.len() ==> #[trigger] r[k] == kept[perm[k] as int]
    }
}

/// The completions for a path: the listed names that start with
/// `fragment`, directories marked with a trailing `/`, in ASCII-case-blind
/// alphabetical order (equal ones as listed).
pub fn finish_path_candidates(listing: &Vec<DirListing>, fragment: &str) -> (r: Vec<String>)
    ensures
        sorted_by_lower(kept_upto(listing@, fragment@, listing@.len() as int), string_views(r@)),
{
    let ghost lv = listing@;
    let mut kept: Vec<String> = Vec::new();
    let mut i: usize = 0;
    while i < listing.len()
        invariant
            i <= listing@.len(),
            lv == listing@,
            string_views(kept@) == kept_upto(lv, fragment@, i as int),
        decreases listing@.len() - i,
    {
        let e = &listing[i];
        if chars_start_with(e.name.as_str(), fragment) {
            let mut text = e.rendered.clone();
            let n = text.as_str().unicode_len();
            let ends_slash = n > 0 && text.as_str().get_char(n - 1) == '/';
            if e.is_dir && !ends_slash {
                push_char(&mut text, '/');
            }
            let ghost before = string_views(kept@);
            kept.push(text);
            assert(string_views(kept@) =~= before.push(finished_path(lv[i as int])));
        }
        i = i + 1;
    }
    let ghost kv = string_views(kept@);
    let mut keys: Vec<Vec<char>> = Vec::new();
    let mut zeros: Vec<u32> = Vec::new();
    let mut k: usize = 0;
    while k < kept.len()
        invariant
            k <= kept@.len(),
            kv == string_views(kept@),
            keys@.len() == k && zeros@.len() == k,
            forall|q: int| 0 <= q < k ==> (#[trigger] keys@[q])@ == crate::text::ascii_lower(kv[q]),
            forall|q: int| 0 <= q < k ==> (#[trigger] zeros@[q]) == 0,
        decreases kept@.len() - k,
    {
        let lowered = crate::text::ascii_lower_str(kept[k].as_str());
        keys.push(chars_of(lowered.as_str()));
        zeros.push(0);
        k = k + 1;
    }
    let perm = crate::order::sort_positions(&keys, &zeros);
    let mut out: Vec<String> = Vec::new();
    let mut t: usize = 0;
    while t < perm.len()
        invariant
            t <= perm@.len(),
            perm@.len() == kept@.len(),
            forall|q: int| 0 <= q < perm@.len() ==> (#[trigger] perm@[q]) < kept@.len(),
            out@.len() == t,
            forall|q: int| 0 <= q < t ==> (#[trigger] out@[q])@ == kv[perm@[q] as int],
            kv == string_views(kept@),
        decreases perm@.len() - t,
    {
        out.push(kept[perm[t]].clone());
        t = t + 1;
    }
    proof {
        let kl = kv.map_values(|x: Seq<char>| crate::text::ascii_lower(x));
        let km = keys@.map_values(|x: Vec<char>| x@);
        let zs = Seq::new(kv.len(), |i: int| 0u32);
        assert(km =~= kl);
        assert(zeros@ =~= zs);
        let ov = string_views(out@);
        assert forall|q: int| 0 <= q < ov.len() implies #[trigger] ov[q] == kv[perm@[q] as int] by {
        }
        assert(ov.len() == kv.len());
    }
    out
}

/// A copy of a listing entry.
fn copy_entry(e: &PickerEntry) -> (r: PickerEntry)
    ensures
        r == *e,
{
    PickerEntry { label: e.label.clone(), path: e.path.clone(), is_dir: e.is_dir }
}

/// Whether `r` is `v` ordered by ASCII-lower-case label, equal labels in
/// their given order.
pub open spec fn sorted_by_label(v: Seq<PickerEntry>, r: Seq<PickerEntry>) -> bool {
    exists|perm: Seq<usize>| {
        &&& perm.len() == v.len()
        &&& r.len() == v.len()
        &&& crate::order::sorted_positions(
            v.map_values(|e: PickerEntry| crate::text::ascii_lower(e.label@)),
            Seq::new(v.len(), |i: int| 0u32),
            perm,
            v.len() as int,
        )
        &&& forall|p: usize| p < v.len() ==> #[trigger] perm.contains(p)
        &&& forall|k: int| 0 <= k < r.len() ==> #[trigger] r[k] == v[perm[k] as int]
    }
}

/// Listing entries ordered by their lower-cased label (a stable sort).
pub fn sort_by_label(v: &Vec<PickerEntry>) -> (r: Vec<PickerEntry>)
    ensures
        sorted_by_label(v@, r@),
{
    let mut keys: Vec<Vec<char>> = Vec::new();
    let mut zeros: Vec<u32> = Vec::new();
    let mut k: usize = 0;
    while k < v.len()
        invariant
            k <= v@.len(),
            keys@.len() == k && zeros@.len() == k,
            forall|q: int| 0 <= q < k ==> (#[trigger] keys@[q])@ == crate::text::ascii_lower(v@[q].label@),
            forall|q: int| 0 <= q < k ==> (#[trigger] zeros@[q]) == 0,
        decreases v@.len() - k,
    {
        let lowered = crate::text::ascii_lower_str(v[k].label.as_str());
        keys.push(chars_of(lowered.as_str()));
        zeros.push(0);
        k = k + 1;
    }
    let perm = crate::order::sort_positions(&keys, &zeros);
    let mut out: Vec<PickerEntry> = Vec::new();
    let mut t: usize = 0;
    while t < perm.len()
        invariant
            t <= perm@.len(),
            perm@.len() == v@.len(),
            forall|q: int| 0 <= q < perm@.len() ==> (#[trigger] perm@[q]) < v@.len(),
            out@.len() == t,
            forall|q: int| 0 <= q < t ==> (#[trigger] out@[q]) == v@[perm@[q] as int],
        decreases perm@.len() - t,
    {
        out.push(copy_entry(&v[perm[t]]));
        t = t + 1;
    }
    proof {
        let kl = v@.map_values(|e: PickerEntry| crate::text::ascii_lower(e.label@));
        let km = keys@.map_values(|x: Vec<char>| x@);
        assert(km =~= kl);
        assert(zeros@ =~= Seq::new(v@.len(), |i: int| 0u32));
        assert(forall|k: int| 0 <= k < out@.len() ==> #[trigger] out@[k] == v@[perm@[k] as int]);
    }
    out
}

/// The order of a directory listing in the key picker: the parent (`../`)
/// first when there is one, then the directories, then the files, each
/// ordered by lower-cased label.
pub fn listing_order(parent: Option<PickerEntry>, dirs: &Vec<PickerEntry>, files: &Vec<PickerEntry>) -> (r: Vec<
    PickerEntry,
>)
    ensures
        exists|d: Seq<PickerEntry>, f: Seq<PickerEntry>|
            #![trigger sorted_by_label(dirs@, d), sorted_by_label(files@, f)]
            sorted_by_label(dirs@, d) && sorted_by_label(files@, f) && r@ == (match parent {
                Some(p) => seq![p],
                None => Seq::<PickerEntry>::empty(),
            }) + d + f,
{
    let d = sort_by_label(dirs);
    let f = sort_by_label(files);
    let mut r: Vec<PickerEntry> = Vec::new();
    match parent {
        Some(p) => r.push(p),
        None => {},
    }
    let ghost head = r@;
    let mut i: usize = 0;
    while i < d.len()
        invariant
            i <= d@.len(),
            r@ == head + d@.subrange(0, i as int),
        decreases d@.len() - i,
    {
        r.push(copy_entry(&d[i]));
        i = i + 1;
        assert(r@ =~= head + d@.subrange(0, i as int));
    }
    let ghost mid = r@;
    let mut j: usize = 0;
    while j < f.len()
        invariant
            j <= f@.len(),
            r@ == mid + f@.subrange(0, j as int),
        decreases f@.len() - j,
    {
        r.push(copy_entry(&f[j]));
        j = j + 1;
        assert(r@ =~= mid + f@.subrange(0, j as int));
    }
    proof {
        assert(d@.subrange(0, d@.len() as int) =~= d@);
        assert(f@.subrange(0, f@.len() as int) =~= f@);
        assert(head =~= (match parent {
            Some(p) => seq![p],
            None => Seq::<PickerEntry>::empty(),
        }));
    }
    r
}

} // verus!
