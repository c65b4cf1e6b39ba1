//! The dashboard's workspace (which page and which SSH tab are shown) and
//! the quick switcher that jumps between them.

use vstd::prelude::*;
use crate::input::{KeyCode, KeyEvent, KeyEventKind};
use crate::navigation::{DashboardPage, QuickSwitcherState};
use crate::text::{
    ascii_lower, ascii_lower_str, contains_seq, decimal, push_char, str_contains, trim, trim_str,
    u64_to_decimal,
};

verus! {

/// Where a quick-switcher entry leads.
#[derive(Clone, Copy, Debug, PartialEq, Eq, Structural)]
pub enum QuickSwitchTarget {
    Page(DashboardPage),
    Session(usize),
}

impl QuickSwitchTarget {
    /// Whether the target is an SSH session tab.
    pub fn is_session(self) -> (r: bool)
        ensures
            r == (self is Session),
    {
        match self {
            QuickSwitchTarget::Session(_) => true,
            _ => false,
        }
    }
}

/// One entry of the quick switcher: its number, its label and its target.
#[derive(Clone, Debug)]
pub struct QuickSwitchItem {
    pub number: usize,
    pub label: String,
    pub target: QuickSwitchTarget,
}

/// The mathematical value of a `QuickSwitchItem`.
pub struct ItemView {
    pub number: usize,
    pub label: Seq<char>,
    pub target: QuickSwitchTarget,
}

impl View for QuickSwitchItem {
    type V = ItemView;

    open spec fn view(&self) -> ItemView {
        ItemView { number: self.number, label: self.label@, target: self.target }
    }
}

/// The views of a sequence of items.
pub open spec fn items_view(v: Seq<QuickSwitchItem>) -> Seq<ItemView> {
    v.map_values(|x: QuickSwitchItem| x@)
}

/// The entries for a workspace whose SSH tabs have the given titles: Home,
/// then each tab, then Settings, numbered from 1.
pub open spec fn items_spec(tabs: Seq<Seq<char>>) -> Seq<ItemView> {
    Seq::new(
        (tabs.len() + 2) as nat,
        |i: int|
            if i == 0 {
                ItemView { number: 1, label: "Home"@, target: QuickSwitchTarget::Page(DashboardPage::Home) }
            } else if i <= tabs.len() {
                ItemView {
                    number: (i + 1) as usize,
                    label: tabs[i - 1],
                    target: QuickSwitchTarget::Session((i - 1) as usize),
                }
            } else {
                ItemView {
                    number: (tabs.len() + 2) as usize,
                    label: "Settings"@,
                    target: QuickSwitchTarget::Page(DashboardPage::Settings),
                }
            },
    )
}

/// The search text as it is matched: trimmed and in ASCII lower case.
pub open spec fn normalized_query(q: Seq<char>) -> Seq<char> {
    ascii_lower(trim(q))
}

/// Whether an entry fits a normalized search: its label (in lower case) or
/// its number contains it.
pub open spec fn item_matches(it: ItemView, q: Seq<char>) -> bool {
    contains_seq(ascii_lower(it.label), q) || contains_seq(decimal(it.number as nat), q)
}

/// The indices below `n` of the entries that fit `q`, in order.
pub open spec fn matching_upto(items: Seq<ItemView>, q: Seq<char>, n: int) -> Seq<usize>
    decreases n,
{
    if n <= 0 {
        Seq::empty()
    } else {
        let prev = matching_upto(items, q, n - 1);
        if item_matches(items[n - 1], q) {
            prev.push((n - 1) as usize)
        } else {
            prev
        }
    }
}

/// The quick switcher's search state, as a value.
pub struct SwitcherView {
    pub query: Seq<char>,
    pub selected_idx: usize,
    pub ctrl_cycle_on_release: bool,
}

/// The view of an optional quick switcher.
pub open spec fn switcher_view(s: Option<QuickSwitcherState>) -> Option<SwitcherView> {
    match s {
        Some(x) => Some(
            SwitcherView {
                query: x.query@,
                selected_idx: x.selected_idx,
                ctrl_cycle_on_release: x.ctrl_cycle_on_release,
            },
        ),
        None => None,
    }
}

/// Which page and SSH tab the dashboard shows, the titles of its open SSH
/// tabs, its last status line, and the quick switcher when it is open.
#[derive(Clone, Debug)]
pub struct Workspace {
    pub active_page: DashboardPage,
    pub active_ssh_tab: Option<usize>,
    pub tab_titles: Vec<String>,
    pub last_status: Option<String>,
    pub quick_switcher: Option<QuickSwitcherState>,
}

/// The mathematical value of a `Workspace`.
pub struct WorkspaceView {
    pub active_page: DashboardPage,
    pub active_ssh_tab: Option<usize>,
    pub tabs: Seq<Seq<char>>,
    pub last_status: Option<Seq<char>>,
    pub switcher: Option<SwitcherView>,
}

/// The views of a sequence of strings.
pub open spec fn strings_view(v: Seq<String>) -> Seq<Seq<char>> {
    v.map_values(|s: String| s@)
}

impl View for Workspace {
    type V = WorkspaceView;

    open spec fn view(&self) -> WorkspaceView {
        WorkspaceView {
            active_page: self.active_page,
            active_ssh_tab: self.active_ssh_tab,
            tabs: strings_view(self.tab_titles@),
            last_status: match self.last_status {
                Some(s) => Some(s@),
                None => None,
            },
            switcher: switcher_view(self.quick_switcher),
        }
    }
}

/// Whether a workspace has few enough tabs to number its entries.
pub open spec fn numbered(ws: WorkspaceView) -> bool {
    ws.tabs.len() + 2 <= usize::MAX
}

/// The search of a workspace's quick switcher (empty when it is closed).
pub open spec fn query_of(ws: WorkspaceView) -> Seq<char> {
    match ws.switcher {
        Some(s) => normalized_query(s.query),
        None => Seq::empty(),
    }
}

/// The indices of the entries the quick switcher lists.
pub open spec fn filtered_spec(ws: WorkspaceView) -> Seq<usize> {
    let items = items_spec(ws.tabs);
    matching_upto(items, query_of(ws), items.len() as int)
}

/// The stored selection (0 when the switcher is closed).
pub open spec fn stored_selection(ws: WorkspaceView) -> usize {
    match ws.switcher {
        Some(s) => s.selected_idx,
        None => 0,
    }
}

/// The stored selection, kept within a list of `len` entries.
pub open spec fn clamped_selection(ws: WorkspaceView, len: nat) -> int {
    let s = stored_selection(ws) as int;
    if len == 0 {
        0
    } else if s < len - 1 {
        s
    } else {
        len - 1
    }
}

/// The target of the listed entry that is selected, if any.
pub open spec fn selected_target_spec(ws: WorkspaceView) -> Option<QuickSwitchTarget> {
    let f = filtered_spec(ws);
    let s = clamped_selection(ws, f.len());
    if s < f.len() {
        Some(items_spec(ws.tabs)[f[s] as int].target)
    } else {
        None
    }
}

/// The workspace with a target shown: a page, or an existing SSH tab.
pub open spec fn preview_spec(ws: WorkspaceView, t: QuickSwitchTarget) -> WorkspaceView {
    match t {
        QuickSwitchTarget::Page(p) => WorkspaceView { active_page: p, ..ws },
        QuickSwitchTarget::Session(i) => if i < ws.tabs.len() {
            WorkspaceView { active_ssh_tab: Some(i), active_page: DashboardPage::Ssh, ..ws }
        } else {
            ws
        },
    }
}

/// The workspace with the switcher's stored selection set to `i`.
pub open spec fn with_selection(ws: WorkspaceView, i: usize) -> WorkspaceView {
    match ws.switcher {
        Some(s) => WorkspaceView { switcher: Some(SwitcherView { selected_idx: i, ..s }), ..ws },
        None => ws,
    }
}

/// The workspace with the switcher's release flag set to `b`.
pub open spec fn with_release_flag(ws: WorkspaceView, b: bool) -> WorkspaceView {
    match ws.switcher {
        Some(s) => WorkspaceView { switcher: Some(SwitcherView { ctrl_cycle_on_release: b, ..s }), ..ws },
        None => ws,
    }
}

/// The workspace with the switcher's search set to `q` and the first
/// entry selected.
pub open spec fn with_query(ws: WorkspaceView, q: Seq<char>) -> WorkspaceView {
    match ws.switcher {
        Some(s) => WorkspaceView { switcher: Some(SwitcherView { query: q, selected_idx: 0, ..s }), ..ws },
        None => ws,
    }
}

/// The workspace with the selected entry previewed, if there is one.
pub open spec fn preview_selected(ws: WorkspaceView) -> WorkspaceView {
    match selected_target_spec(ws) {
        Some(t) => preview_spec(ws, t),
        None => ws,
    }
}

/// The selection moved by one entry (backwards or forwards, wrapping
/// around the listed entries), and its target previewed when `activate`.
pub open spec fn cycle_spec(ws: WorkspaceView, backward: bool, activate: bool) -> WorkspaceView {
    let f = filtered_spec(ws);
    let len = f.len() as int;
    if len == 0 {
        ws
    } else {
        let cur = clamped_selection(ws, f.len());
        let next = if backward { (cur + len - 1) % len } else { (cur + 1) % len };
        let ws1 = with_selection(ws, next as usize);
        if activate {
            preview_spec(ws1, items_spec(ws.tabs)[f[next] as int].target)
        } else {
            ws1
        }
    }
}

/// The workspace once SSH tab `idx` is closed with a status line: the
/// next tab (or the last) is shown, or Home when none is left.
pub open spec fn close_tab_spec(ws: WorkspaceView, idx: usize, status: Seq<char>) -> WorkspaceView {
    if idx >= ws.tabs.len() {
        ws
    } else {
        let tabs = ws.tabs.remove(idx as int);
        if tabs.len() == 0 {
            WorkspaceView {
                tabs,
                last_status: Some(status),
                active_ssh_tab: None,
                active_page: DashboardPage::Home,
                ..ws
            }
        } else {
            WorkspaceView {
                tabs,
                last_status: Some(status),
                active_ssh_tab: Some(if idx < tabs.len() - 1 { idx } else { (tabs.len() - 1) as usize }),
                ..ws
            }
        }
    }
}

/// Closing the SSH tab of the selected entry, if it is one, and
/// previewing the entry then selected.
pub open spec fn close_selected_spec(ws: WorkspaceView) -> (WorkspaceView, Option<usize>) {
    match selected_target_spec(ws) {
        Some(QuickSwitchTarget::Session(idx)) => {
            let ws1 = close_tab_spec(ws, idx, "Connection closed"@);
            let f1 = filtered_spec(ws1);
            let ws2 = match ws1.switcher {
                Some(s) => with_selection(
                    ws1,
                    (if f1.len() == 0 { 0 } else if s.selected_idx < f1.len() - 1 { s.selected_idx as int } else { f1.len() - 1 }) as usize,
                ),
                None => ws1,
            };
            (preview_selected(ws2), if idx < ws.tabs.len() { Some(idx) } else { None })
        },
        _ => (ws, None),
    }
}

/// Whether Ctrl, Alt or Super is held.
pub open spec fn has_command_modifier(key: KeyEvent) -> bool {
    key.modifiers.control || key.modifiers.alt || key.modifiers.super_key
}

/// Whether the quick switcher cycles on key release.
pub open spec fn release_flag(ws: WorkspaceView) -> bool {
    match ws.switcher {
        Some(s) => s.ctrl_cycle_on_release,
        None => false,
    }
}

/// The search with its last character removed.
pub open spec fn query_popped(ws: WorkspaceView) -> Seq<char> {
    match ws.switcher {
        Some(s) => if s.query.len() > 0 { s.query.drop_last() } else { s.query },
        None => Seq::empty(),
    }
}

/// The search with `c` appended.
pub open spec fn query_pushed(ws: WorkspaceView, c: char) -> Seq<char> {
    match ws.switcher {
        Some(s) => s.query.push(c),
        None => Seq::empty(),
    }
}

/// What a key does in the quick switcher: the new workspace, and the index
/// of the SSH tab it closed, if it closed one.
pub open spec fn switcher_key_spec(ws: WorkspaceView, key: KeyEvent) -> (WorkspaceView, Option<usize>) {
    let code = key.code;
    if key.kind == KeyEventKind::Release {
        if release_flag(ws) && !key.modifiers.control {
            (cycle_spec(with_release_flag(ws, false), false, true), None)
        } else {
            (ws, None)
        }
    } else if code == KeyCode::Esc {
        (WorkspaceView { switcher: None, ..ws }, None)
    } else if code == KeyCode::Char('q') && key.modifiers.control {
        (cycle_spec(with_release_flag(ws, true), false, true), None)
    } else if code == KeyCode::Char('q') && release_flag(ws) {
        (cycle_spec(ws, false, true), None)
    } else if code == KeyCode::Up || code == KeyCode::Char('k') {
        (cycle_spec(ws, true, true), None)
    } else if code == KeyCode::Down || code == KeyCode::Char('j') {
        (cycle_spec(ws, false, true), None)
    } else if code == KeyCode::Backspace {
        (preview_selected(with_query(ws, query_popped(ws))), None)
    } else if code == KeyCode::Enter {
        let f = filtered_spec(ws);
        let s = clamped_selection(ws, f.len());
        if s < f.len() {
            (WorkspaceView { switcher: None, ..preview_spec(ws, items_spec(ws.tabs)[f[s] as int].target) }, None)
        } else {
            (ws, None)
        }
    } else if code == KeyCode::Char('x') && !has_command_modifier(key) {
        if ws.active_page == DashboardPage::Ssh && selected_target_spec(ws) matches Some(QuickSwitchTarget::Session(_)) {
            close_selected_spec(ws)
        } else if ws.switcher is Some {
            (preview_selected(with_query(ws, query_pushed(ws, 'x'))), None)
        } else {
            (ws, None)
        }
    } else if code is Char && !has_command_modifier(key) {
        (preview_selected(with_query(ws, query_pushed(ws, code->Char_0))), None)
    } else {
        (ws, None)
    }
}

proof fn lemma_matching_bounds(items: Seq<ItemView>, q: Seq<char>, n: int)
    requires
        0 <= n <= items.len(),
    ensures
        forall|j: int| 0 <= j < matching_upto(items, q, n).len() ==> (#[trigger] matching_upto(items, q, n)[j]) < n,
        matching_upto(items, q, n).len() <= n,
    decreases n,
{
    if n > 0 {
        lemma_matching_bounds(items, q, n - 1);
    }
}

proof fn lemma_matching_members(items: Seq<ItemView>, q: Seq<char>, n: int, j: usize)
    requires
        0 <= n <= items.len(),
        items.len() <= usize::MAX,
    ensures
        matching_upto(items, q, n).contains(j) <==> ((j as int) < n && item_matches(items[j as int], q)),
        forall|a: int, b: int|
            0 <= a < b < matching_upto(items, q, n).len() ==> #[trigger] matching_upto(items, q, n)[a]
                < #[trigger] matching_upto(items, q, n)[b],
    decreases n,
{
    let cur = matching_upto(items, q, n);
    if n <= 0 {
        assert(cur.len() == 0);
        assert(!cur.contains(j));
    } else {
        lemma_matching_members(items, q, n - 1, j);
        lemma_matching_bounds(items, q, n - 1);
        let prev = matching_upto(items, q, n - 1);
        if item_matches(items[n - 1], q) {
            assert(cur == prev.push((n - 1) as usize));
            assert(cur.len() == prev.len() + 1);
            if cur.contains(j) {
                let k = choose|k: int| 0 <= k < cur.len() && cur[k] == j;
                if k < prev.len() {
                    assert(prev[k] == j);
                    assert(prev.contains(j));
                }
            }
            if (j as int) == n - 1 {
                assert(cur[prev.len() as int] == j);
                assert(cur.contains(j));
            } else if (j as int) < n - 1 && item_matches(items[j as int], q) {
                assert(prev.contains(j));
                let k = choose|k: int| 0 <= k < prev.len() && prev[k] == j;
                assert(cur[k] == j);
                assert(cur.contains(j));
            }
            assert forall|a: int, b: int| 0 <= a < b < cur.len() implies #[trigger] cur[a] < #[trigger] cur[b] by {
                if b < prev.len() {
                    assert(cur[a] == prev[a] && cur[b] == prev[b]);
                } else {
                    assert(cur[a] == prev[a]);
                    assert(prev[a] < n - 1);
                    assert(cur[b] == (n - 1) as usize);
                }
            }
        } else {
            assert(cur == prev);
            if (j as int) == n - 1 && prev.contains(j) {
                let k = choose|k: int| 0 <= k < prev.len() && prev[k] == j;
                assert(prev[k] < n - 1);
            }
        }
    }
}

/// The quick switcher lists an entry exactly when the search text, trimmed
/// and in lower case, occurs somewhere (at any position, not only at the
/// start) in the entry's lower-cased label or in its number written in
/// decimal; the listed entries keep their order.
pub proof fn search_finds_text_anywhere(ws: WorkspaceView, j: usize)
    requires
        numbered(ws),
        ws.switcher is Some,
        j < items_spec(ws.tabs).len(),
    ensures
        ({
            let it = items_spec(ws.tabs)[j as int];
            let q = ascii_lower(trim(ws.switcher->Some_0.query));
            let label = ascii_lower(it.label);
            let num = decimal(it.number as nat);
            filtered_spec(ws).contains(j) <==> ((exists|i: int|
                0 <= i && i + q.len() <= label.len() && #[trigger] label.subrange(i, i + q.len()) == q) || (exists|i: int|
                0 <= i && i + q.len() <= num.len() && #[trigger] num.subrange(i, i + q.len()) == q))
        }),
        forall|a: int, b: int|
            0 <= a < b < filtered_spec(ws).len() ==> #[trigger] filtered_spec(ws)[a] < #[trigger] filtered_spec(ws)[b],
{
    let items = items_spec(ws.tabs);
    assert(items.len() == ws.tabs.len() + 2);
    lemma_matching_members(items, query_of(ws), items.len() as int, j);
    let it = items[j as int];
    let q = query_of(ws);
    let label = ascii_lower(it.label);
    let num = decimal(it.number as nat);
    if contains_seq(label, q) {
        let i = choose|i: int| crate::text::occurs_at(label, q, i);
        assert(label.subrange(i, i + q.len()) == q);
        assert(exists|i: int| 0 <= i && i + q.len() <= label.len() && #[trigger] label.subrange(i, i + q.len()) == q);
    }
    if contains_seq(num, q) {
        let i = choose|i: int| crate::text::occurs_at(num, q, i);
        assert(num.subrange(i, i + q.len()) == q);
        assert(exists|i: int| 0 <= i && i + q.len() <= num.len() && #[trigger] num.subrange(i, i + q.len()) == q);
    }
    if exists|i: int| 0 <= i && i + q.len() <= label.len() && #[trigger] label.subrange(i, i + q.len()) == q {
        let i = choose|i: int| 0 <= i && i + q.len() <= label.len() && #[trigger] label.subrange(i, i + q.len()) == q;
        assert(crate::text::occurs_at(label, q, i));
        assert(contains_seq(label, q));
    }
    if exists|i: int| 0 <= i && i + q.len() <= num.len() && #[trigger] num.subrange(i, i + q.len()) == q {
        let i = choose|i: int| 0 <= i && i + q.len() <= num.len() && #[trigger] num.subrange(i, i + q.len()) == q;
        assert(crate::text::occurs_at(num, q, i));
        assert(contains_seq(num, q));
    }
    let e1 = exists|i: int| 0 <= i && i + q.len() <= label.len() && #[trigger] label.subrange(i, i + q.len()) == q;
    let e2 = exists|i: int| 0 <= i && i + q.len() <= num.len() && #[trigger] num.subrange(i, i + q.len()) == q;
    assert(filtered_spec(ws).contains(j) ==> (e1 || e2));
    assert((e1 || e2) ==> filtered_spec(ws).contains(j));
}

/// The quick switcher's entries for the given SSH tab titles.
pub fn build_quick_switch_items(tab_titles: &Vec<String>) -> (r: Vec<QuickSwitchItem>)
    requires
        tab_titles@.len() + 2 <= usize::MAX,
    ensures
        items_view(r@) == items_spec(strings_view(tab_titles@)),
{
    let ghost tabs = strings_view(tab_titles@);
    let mut items: Vec<QuickSwitchItem> = Vec::new();
    items.push(
        QuickSwitchItem { number: 1, label: "Home".to_string(), target: QuickSwitchTarget::Page(DashboardPage::Home) },
    );
    let n = tab_titles.len();
    let mut i: usize = 0;
    while i < n
        invariant
            n == tab_titles@.len(),
            n + 2 <= usize::MAX,
            i <= n,
            tabs == strings_view(tab_titles@),
            items@.len() == i + 1,
            forall|j: int| 0 <= j < i + 1 ==> (#[trigger] items@[j])@ == items_spec(tabs)[j],
        decreases n - i,
    {
        items.push(
            QuickSwitchItem {
                number: i + 2,
                label: tab_titles[i].clone(),
                target: QuickSwitchTarget::Session(i),
            },
        );
        i = i + 1;
    }
    items.push(
        QuickSwitchItem {
            number: n + 2,
            label: "Settings".to_string(),
            target: QuickSwitchTarget::Page(DashboardPage::Settings),
        },
    );
    assert(items_view(items@) =~= items_spec(tabs));
    items
}

/// Whether an entry fits a normalized search.
fn item_fits(item: &QuickSwitchItem, query: &str) -> (r: bool)
    ensures
        r == item_matches(item@, query@),
{
    let label = ascii_lower_str(item.label.as_str());
    if str_contains(label.as_str(), query) {
        return true;
    }
    let number = u64_to_decimal(item.number as u64);
    str_contains(number.as_str(), query)
}

/// The normalized search of a workspace's quick switcher.
fn current_query(ws: &Workspace) -> (r: String)
    ensures
        r@ == query_of(ws@),
{
    match &ws.quick_switcher {
        Some(s) => {
            let t = trim_str(s.query.as_str());
            ascii_lower_str(t.as_str())
        },
        None => String::new(),
    }
}

/// The indices of the entries that fit the switcher's search, in order.
pub fn filtered_quick_switch_indices(ws: &Workspace, items: &Vec<QuickSwitchItem>) -> (r: Vec<usize>)
    requires
        items_view(items@) == items_spec(ws@.tabs),
    ensures
        r@ == filtered_spec(ws@),
{
    let q = current_query(ws);
    let ghost iv = items_view(items@);
    let mut r: Vec<usize> = Vec::new();
    let mut i: usize = 0;
    while i < items.len()
        invariant
            i <= items@.len(),
            iv == items_view(items@),
            q@ == query_of(ws@),
            r@ == matching_upto(iv, q@, i as int),
        decreases items@.len() - i,
    {
        assert(items@[i as int]@ == iv[i as int]);
        if item_fits(&items[i], q.as_str()) {
            r.push(i);
        }
        i = i + 1;
    }
    r
}

/// The stored selection, kept within a list of `len` entries.
fn clamp_selection(ws: &Workspace, len: usize) -> (r: usize)
    ensures
        r == clamped_selection(ws@, len as nat),
{
    let s = match &ws.quick_switcher {
        Some(x) => x.selected_idx,
        None => 0,
    };
    if len == 0 {
        0
    } else if s < len - 1 {
        s
    } else {
        len - 1
    }
}

impl Workspace {
    /// Shows a target: a page, or an existing SSH tab.
    pub fn preview(&mut self, target: QuickSwitchTarget)
        ensures
            final(self)@ == preview_spec(old(self)@, target),
    {
        match target {
            QuickSwitchTarget::Page(p) => {
                self.active_page = p;
            },
            QuickSwitchTarget::Session(i) => {
                if i < self.tab_titles.len() {
                    self.active_ssh_tab = Some(i);
                    self.active_page = DashboardPage::Ssh;
                }
            },
        }
    }

    /// The target of the selected entry, if any.
    pub fn selected_target(&self) -> (r: Option<QuickSwitchTarget>)
        requires
            numbered(self@),
        ensures
            r == selected_target_spec(self@),
    {
        let items = build_quick_switch_items(&self.tab_titles);
        let f = filtered_quick_switch_indices(self, &items);
        let s = clamp_selection(self, f.len());
        proof {
            lemma_matching_bounds(items_spec(self@.tabs), query_of(self@), items@.len() as int);
        }
        if s < f.len() {
            let k = f[s];
            assert(items@[k as int]@ == items_spec(self@.tabs)[k as int]);
            Some(items[k].target)
        } else {
            None
        }
    }

    fn preview_selected(&mut self)
        requires
            numbered(old(self)@),
        ensures
            final(self)@ == preview_selected(old(self)@),
    {
        match self.selected_target() {
            Some(t) => self.preview(t),
            None => {},
        }
    }

    fn set_selection(&mut self, i: usize)
        ensures
            final(self)@ == with_selection(old(self)@, i),
    {
        match &mut self.quick_switcher {
            Some(s) => {
                s.selected_idx = i;
            },
            None => {},
        }
    }

    fn set_release_flag(&mut self, b: bool)
        ensures
            final(self)@ == with_release_flag(old(self)@, b),
    {
        match &mut self.quick_switcher {
            Some(s) => {
                s.ctrl_cycle_on_release = b;
            },
            None => {},
        }
    }

    /// Moves the selection by one listed entry, wrapping around, and shows
    /// its target when `activate`.
    pub fn cycle_quick_switcher_selection(&mut self, backward: bool, activate: bool)
        requires
            numbered(old(self)@),
        ensures
            final(self)@ == cycle_spec(old(self)@, backward, activate),
    {
        let items = build_quick_switch_items(&self.tab_titles);
        let f = filtered_quick_switch_indices(self, &items);
        let len = f.len();
        if len == 0 {
            return;
        }
        proof {
            lemma_matching_bounds(items_spec(self@.tabs), query_of(self@), items@.len() as int);
        }
        let cur = clamp_selection(self, len);
        let next = if backward {
            if cur == 0 { len - 1 } else { cur - 1 }
        } else {
            (cur + 1) % len
        };
        proof {
            let c = cur as int;
            let l = len as int;
            if backward {
                if c == 0 {
                    assert((c + l - 1) % l == l - 1) by (nonlinear_arith)
                        requires c == 0, l > 0;
                } else {
                    assert((c + l - 1) % l == c - 1) by (nonlinear_arith)
                        requires 0 < c < l;
                }
            }
        }
        self.set_selection(next);
        if activate {
            let k = f[next];
            assert(items@[k as int]@ == items_spec(old(self)@.tabs)[k as int]);
            self.preview(items[k].target);
        }
    }

    /// Closes SSH tab `idx` with a status line; the next tab (or the last)
    /// is shown, or Home when none is left.
    pub fn close_ssh_tab(&mut self, idx: usize, status: String)
        ensures
            final(self)@ == close_tab_spec(old(self)@, idx, status@),
    {
        if idx >= self.tab_titles.len() {
            return;
        }
        self.tab_titles.remove(idx);
        assert(strings_view(self.tab_titles@) =~= strings_view(old(self).tab_titles@).remove(idx as int));
        self.last_status = Some(status);
        if self.tab_titles.len() == 0 {
            self.active_ssh_tab = None;
            self.active_page = DashboardPage::Home;
            return;
        }
        let last = self.tab_titles.len() - 1;
        let next = if idx < last { idx } else { last };
        self.active_ssh_tab = Some(next);
    }

    fn close_selected_session(&mut self) -> (closed: Option<usize>)
        requires
            numbered(old(self)@),
        ensures
            (final(self)@, closed) == close_selected_spec(old(self)@),
    {
        let target = self.selected_target();
        let idx = match target {
            Some(QuickSwitchTarget::Session(i)) => i,
            _ => return None,
        };
        let existed = idx < self.tab_titles.len();
        self.close_ssh_tab(idx, "Connection closed".to_string());
        let items = build_quick_switch_items(&self.tab_titles);
        let f = filtered_quick_switch_indices(self, &items);
        let flen = f.len();
        match &mut self.quick_switcher {
            Some(s) => {
                let v = if flen == 0 { 0 } else if s.selected_idx < flen - 1 { s.selected_idx } else { flen - 1 };
                s.selected_idx = v;
            },
            None => {},
        }
        self.preview_selected();
        if existed { Some(idx) } else { None }
    }

    fn set_query(&mut self, q: String)
        ensures
            final(self)@ == with_query(old(self)@, q@),
    {
        match &mut self.quick_switcher {
            Some(s) => {
                s.query = q;
                s.selected_idx = 0;
            },
            None => {},
        }
    }

    fn popped_query(&self) -> (r: String)
        ensures
            r@ == query_popped(self@),
    {
        match &self.quick_switcher {
            Some(s) => {
                let cs = crate::text::chars_of(s.query.as_str());
                let n = cs.len();
                if n > 0 {
                    let head = crate::text::sub_chars(&cs, 0, n - 1);
                    assert(head@ =~= s.query@.drop_last());
                    crate::text::string_of(&head)
                } else {
                    s.query.clone()
                }
            },
            None => String::new(),
        }
    }

    fn pushed_query(&self, c: char) -> (r: String)
        ensures
            r@ == query_pushed(self@, c),
    {
        match &self.quick_switcher {
            Some(s) => {
                let mut q = s.query.clone();
                push_char(&mut q, c);
                q
            },
            None => String::new(),
        }
    }

    /// Handles a key while the quick switcher is open; returns the index of
    /// the SSH tab it closed, if it closed one.
    pub fn handle_quick_switcher_key(&mut self, key: KeyEvent) -> (closed: Option<usize>)
        requires
            numbered(old(self)@),
        ensures
            (final(self)@, closed) == switcher_key_spec(old(self)@, key),
    {
        let flag = match &self.quick_switcher {
            Some(s) => s.ctrl_cycle_on_release,
            None => false,
        };
        if key.kind == KeyEventKind::Release {
            if flag && !key.modifiers.control {
                self.set_release_flag(false);
                self.cycle_quick_switcher_selection(false, true);
            }
            return None;
        }
        let command = key.modifiers.control || key.modifiers.alt || key.modifiers.super_key;
        let code = key.code;
        if code == KeyCode::Esc {
            self.quick_switcher = None;
            None
        } else if code == KeyCode::Char('q') && key.modifiers.control {
            self.set_release_flag(true);
            self.cycle_quick_switcher_selection(false, true);
            None
        } else if code == KeyCode::Char('q') && flag {
            self.cycle_quick_switcher_selection(false, true);
            None
        } else if code == KeyCode::Up || code == KeyCode::Char('k') {
            self.cycle_quick_switcher_selection(true, true);
            None
        } else if code == KeyCode::Down || code == KeyCode::Char('j') {
            self.cycle_quick_switcher_selection(false, true);
            None
        } else if code == KeyCode::Backspace {
            let q = self.popped_query();
            self.set_query(q);
            self.preview_selected();
            None
        } else if code == KeyCode::Enter {
            let items = build_quick_switch_items(&self.tab_titles);
            let f = filtered_quick_switch_indices(self, &items);
            let s = clamp_selection(self, f.len());
            proof {
                lemma_matching_bounds(items_spec(self@.tabs), query_of(self@), items@.len() as int);
            }
            if s < f.len() {
                let k = f[s];
                assert(items@[k as int]@ == items_spec(old(self)@.tabs)[k as int]);
                self.preview(items[k].target);
                self.quick_switcher = None;
            }
            None
        } else if code == KeyCode::Char('x') && !command {
            let on_session = match self.selected_target() {
                Some(t) => t.is_session(),
                None => false,
            };
            if self.active_page == DashboardPage::Ssh && on_session {
                self.close_selected_session()
            } else if self.quick_switcher.is_some() {
                let q = self.pushed_query('x');
                self.set_query(q);
                self.preview_selected();
                None
            } else {
                None
            }
        } else {
            match code {
                KeyCode::Char(c) => {
                    if !command {
                        let q = self.pushed_query(c);
                        self.set_query(q);
                        self.preview_selected();
                    }
                    None
                },
                _ => None,
            }
        }
    }

    /// Opens the quick switcher with Ctrl held: as `open_quick_switcher`,
    /// and letting Ctrl go moves to the next entry.
    pub fn open_quick_switcher_held(&mut self)
        requires
            numbered(old(self)@),
        ensures
            final(self)@ == (WorkspaceView {
                switcher: Some(
                    SwitcherView {
                        query: Seq::empty(),
                        selected_idx: current_entry(old(self)@),
                        ctrl_cycle_on_release: true,
                    },
                ),
                ..old(self)@
            }),
    {
        self.open_quick_switcher();
        match &mut self.quick_switcher {
            Some(sw) => {
                sw.ctrl_cycle_on_release = true;
            },
            None => {},
        }
    }

    /// Pasted text goes into the open quick switcher's search, whose
    /// selection goes back to the first entry; nothing else changes.
    pub fn paste_into_switcher(&mut self, text: &str)
        ensures
            final(self)@ == (match old(self)@.switcher {
                Some(sw) => with_query(old(self)@, sw.query + text@),
                None => old(self)@,
            }),
    {
        match &mut self.quick_switcher {
            Some(sw) => {
                let mut q = sw.query.clone();
                q.append(text);
                sw.query = q;
                sw.selected_idx = 0;
            },
            None => {},
        }
    }

    /// Opens the quick switcher on the entry of what is shown now.
    pub fn open_quick_switcher(&mut self)
        requires
            numbered(old(self)@),
        ensures
            final(self)@ == (WorkspaceView {
                switcher: Some(
                    SwitcherView {
                        query: Seq::empty(),
                        selected_idx: current_entry(old(self)@),
                        ctrl_cycle_on_release: false,
                    },
                ),
                ..old(self)@
            }),
    {
        let items = build_quick_switch_items(&self.tab_titles);
        let target = match self.active_page {
            DashboardPage::Home => QuickSwitchTarget::Page(DashboardPage::Home),
            DashboardPage::Settings => QuickSwitchTarget::Page(DashboardPage::Settings),
            DashboardPage::Ssh => match self.active_ssh_tab {
                Some(i) => QuickSwitchTarget::Session(i),
                None => QuickSwitchTarget::Page(DashboardPage::Home),
            },
        };
        let mut i: usize = 0;
        while i < items.len() && items[i].target != target
            invariant
                i <= items@.len(),
                items_view(items@) == items_spec(self@.tabs),
                forall|j: int| 0 <= j < i ==> items@[j].target != target,
            decreases items@.len() - i,
        {
            i = i + 1;
        }
        let sel = if i < items.len() { i } else { 0 };
        proof {
            assert(target == current_target(self@));
            if i < items@.len() {
                assert(items_spec(self@.tabs)[i as int].target == items@[i as int].target);
                lemma_first_position(items_spec(self@.tabs), target, i as int);
            } else {
                assert forall|j: int| 0 <= j < items_spec(self@.tabs).len() implies items_spec(self@.tabs)[j].target != target by {
                    assert(items@[j]@ == items_spec(self@.tabs)[j]);
                }
                lemma_no_position(items_spec(self@.tabs), target);
            }
        }
        let mut s = QuickSwitcherState::new();
        assert(s.query@ =~= Seq::<char>::empty());
        assert(sel == current_entry(old(self)@));
        s.selected_idx = sel;
        self.quick_switcher = Some(s);
    }
}

/// The target of what the workspace shows now.
pub open spec fn current_target(ws: WorkspaceView) -> QuickSwitchTarget {
    match ws.active_page {
        DashboardPage::Home => QuickSwitchTarget::Page(DashboardPage::Home),
        DashboardPage::Settings => QuickSwitchTarget::Page(DashboardPage::Settings),
        DashboardPage::Ssh => match ws.active_ssh_tab {
            Some(i) => QuickSwitchTarget::Session(i),
            None => QuickSwitchTarget::Page(DashboardPage::Home),
        },
    }
}

/// The entry the quick switcher opens on: the first entry for what the
/// workspace shows, or the first entry.
pub open spec fn current_entry(ws: WorkspaceView) -> usize {
    first_index_of(items_spec(ws.tabs), current_target(ws))
}

/// The first index in `items` whose target is `t`, or 0 when there is none.
pub open spec fn first_index_of(items: Seq<ItemView>, t: QuickSwitchTarget) -> usize {
    if exists|i: int| 0 <= i < items.len() && items[i].target == t {
        (choose|i: int| 0 <= i < items.len() && items[i].target == t && forall|j: int| 0 <= j < i ==> items[j].target != t) as usize
    } else {
        0
    }
}

proof fn lemma_first_position(items: Seq<ItemView>, t: QuickSwitchTarget, i: int)
    requires
        0 <= i < items.len(),
        items.len() <= usize::MAX,
        items[i].target == t,
        forall|j: int| 0 <= j < i ==> items[j].target != t,
    ensures
        first_index_of(items, t) == i,
{
    assert(exists|k: int| 0 <= k < items.len() && items[k].target == t && forall|j: int| 0 <= j < k ==> items[j].target != t);
    let k = choose|k: int| 0 <= k < items.len() && items[k].target == t && forall|j: int| 0 <= j < k ==> items[j].target != t;
    if k < i {
    } else if k > i {
        assert(items[i].target != t);
    }
}

proof fn lemma_no_position(items: Seq<ItemView>, t: QuickSwitchTarget)
    requires
        forall|j: int| 0 <= j < items.len() ==> items[j].target != t,
    ensures
        first_index_of(items, t) == 0,
{
}

/// Moving the quick switcher's selection forward and then back returns it
/// to where it was (for a selection on a listed entry).
pub proof fn cycle_round_trip(ws: WorkspaceView)
    requires
        numbered(ws),
        ws.switcher is Some,
        filtered_spec(ws).len() > 0,
        stored_selection(ws) < filtered_spec(ws).len(),
    ensures
        cycle_spec(cycle_spec(ws, false, false), true, false) == ws,
{
    let f = filtered_spec(ws);
    let len = f.len() as int;
    let s = stored_selection(ws) as int;
    lemma_matching_bounds(items_spec(ws.tabs), query_of(ws), items_spec(ws.tabs).len() as int);
    assert(len <= usize::MAX);
    assert(clamped_selection(ws, f.len()) == s);
    let next = (s + 1) % len;
    assert(0 <= next < len) by (nonlinear_arith)
        requires len > 0, next == (s + 1) % len;
    let ws1 = with_selection(ws, next as usize);
    assert(filtered_spec(ws1) == f);
    assert(clamped_selection(ws1, f.len()) == next);
    let back = (next + len - 1) % len;
    if s + 1 < len {
        assert(next == s + 1) by (nonlinear_arith)
            requires 0 <= s, s + 1 < len, next == (s + 1) % len;
        assert(back == s) by (nonlinear_arith)
            requires 0 <= s, s + 1 < len, back == (s + 1 + len - 1) % len;
    } else {
        assert(next == 0) by (nonlinear_arith)
            requires s + 1 == len, next == (s + 1) % len, len > 0;
        assert(back == s) by (nonlinear_arith)
            requires s + 1 == len, back == (0 + len - 1) % len, len > 0;
    }
    assert(cycle_spec(ws1, true, false) == with_selection(ws1, back as usize));
    assert(with_selection(ws1, s as usize) =~= ws) by {
        let sw = ws.switcher->0;
        assert(sw.selected_idx == s);
    }
}

/// Closing an SSH tab leaves the workspace showing a tab that exists, or no
/// tab and the home page once none is left.
pub proof fn closing_tab_keeps_active_tab_valid(ws: WorkspaceView, idx: usize, status: Seq<char>)
    requires
        idx < ws.tabs.len(),
    ensures
        ({
            let after = close_tab_spec(ws, idx, status);
            &&& after.tabs.len() == ws.tabs.len() - 1
            &&& after.tabs.len() > 0 ==> (after.active_ssh_tab matches Some(i) && i < after.tabs.len())
            &&& after.tabs.len() == 0 ==> after.active_ssh_tab is None && after.active_page == DashboardPage::Home
            &&& after.last_status == Some(status)
        }),
{
}

} // verus!
