//! Keys on the home page: the host grid in its grouped order, opening the
//! host dialog, and connecting to the selected host.

use vstd::prelude::*;
use crate::form::{filled_from, form_from_host};
use crate::home::{move_selection, move_target, sizes_of, total, HostGroupView, MoveDirection};
use crate::home_layout::home_grid_shows_each_host_once;
use crate::host_groups::{grouped_hosts, grouping_spec};
use crate::host_modal::session_title;
use crate::input::{KeyCode, KeyEvent};
use crate::model::{duplicate_endpoints, endpoints_view, SshHost};
use crate::navigation::{EndpointPickerState, HostFormState};
use crate::text::concat_str;

verus! {

/// The number of host cards per row of the home grid.
pub const HOME_GRID_COLUMNS: usize = 3;

/// The host positions of the groups, group after group.
pub open spec fn flatten(groups: Seq<HostGroupView>) -> Seq<usize>
    decreases groups.len(),
{
    if groups.len() == 0 {
        Seq::empty()
    } else {
        flatten(groups.drop_last()) + groups.last().host_indices@
    }
}

proof fn lemma_flatten_len(groups: Seq<HostGroupView>)
    ensures
        flatten(groups).len() == total(sizes_of(groups)),
    decreases groups.len(),
{
    if groups.len() > 0 {
        lemma_flatten_len(groups.drop_last());
        assert(sizes_of(groups).drop_last() =~= sizes_of(groups.drop_last()));
    }
}

/// The host positions in the order the home grid shows them.
pub fn visible_host_indices(groups: &Vec<HostGroupView>) -> (r: Vec<usize>)
    ensures
        r@ == flatten(groups@),
        r@.len() == total(sizes_of(groups@)),
{
    let mut r: Vec<usize> = Vec::new();
    let mut g: usize = 0;
    while g < groups.len()
        invariant
            g <= groups@.len(),
            r@ == flatten(groups@.subrange(0, g as int)),
        decreases groups@.len() - g,
    {
        let ghost before = r@;
        let members = &groups[g].host_indices;
        let mut k: usize = 0;
        while k < members.len()
            invariant
                k <= members@.len(),
                r@ == before + members@.subrange(0, k as int),
            decreases members@.len() - k,
        {
            r.push(members[k]);
            k = k + 1;
            assert(r@ =~= before + members@.subrange(0, k as int));
        }
        let ghost p = groups@.subrange(0, g + 1);
        assert(p.drop_last() =~= groups@.subrange(0, g as int));
        assert(members@.subrange(0, members@.len() as int) =~= members@);
        g = g + 1;
    }
    assert(groups@.subrange(0, groups@.len() as int) =~= groups@);
    proof {
        lemma_flatten_len(groups@);
    }
    r
}

/// The first position in `visible` of a host with id `id`.
fn find_visible_host(hosts: &Vec<SshHost>, visible: &Vec<usize>, id: u32) -> (r: Option<usize>)
    ensures
        match r {
            Some(v) => v < visible@.len() && visible@[v as int] < hosts@.len() && hosts@[visible@[v as int] as int].id == id,
            None => forall|w: int| 0 <= w < visible@.len() ==> !(visible@[w] < hosts@.len() && hosts@[visible@[w] as int].id == id),
        },
{
    let mut v: usize = 0;
    while v < visible.len()
        invariant
            v <= visible@.len(),
            forall|w: int| 0 <= w < v ==> !(visible@[w] < hosts@.len() && hosts@[visible@[w] as int].id == id),
        decreases visible@.len() - v,
    {
        let h = visible[v];
        if h < hosts.len() && hosts[h].id == id {
            return Some(v);
        }
        v = v + 1;
    }
    None
}

/// The position in the home grid of the host with id `id`; none when no
/// host has that id.
pub fn visible_index_for_host_id(hosts: &Vec<SshHost>, id: u32) -> (r: Option<usize>)
    ensures
        match r {
            Some(v) => exists|groups: Seq<HostGroupView>| #![trigger grouping_spec(hosts@, groups)] grouping_spec(hosts@, groups) && v < flatten(groups).len()
                && flatten(groups)[v as int] < hosts@.len() && hosts@[flatten(groups)[v as int] as int].id == id,
            None => forall|i: int| 0 <= i < hosts@.len() ==> (#[trigger] hosts@[i]).id != id,
        },
{
    let count = hosts.len();
    let groups = grouped_hosts(hosts);
    let visible = visible_host_indices(&groups);
    let found = find_visible_host(hosts, &visible, id);
    proof {
        if found is None {
            assert(hosts@.len() == count);
            home_grid_shows_each_host_once(hosts@, groups@);
            assert forall|i: int| 0 <= i < hosts@.len() implies (#[trigger] hosts@[i]).id != id by {
                assert(flatten(groups@).contains(i as usize));
                let w = choose|w: int| 0 <= w < visible@.len() && visible@[w] == i as usize;
                assert(!(visible@[w] < hosts@.len() && hosts@[visible@[w] as int].id == id));
            }
        }
    }
    found
}

/// What a key on the home page asks for.
#[derive(Clone, Debug)]
pub enum HomeAction {
    /// Nothing.
    Nothing,
    /// The host dialog opens empty, to add a host.
    AddHost,
    /// The host dialog opens on this host, to edit it.
    EditHost { host_id: u32, form: HostFormState },
    /// The grid selection moves here.
    Select(usize),
    /// The endpoint picker opens for a host with several endpoints.
    PickEndpoint(EndpointPickerState),
    /// A session to the host's only endpoint starts in a new tab.
    StartSession { host_id: u32, title: String },
}

/// The title of a session tab on a host's first endpoint: `name -
/// user@host:port`, or `n/a` in place of the endpoint when it has none.
pub open spec fn first_endpoint_title(host: SshHost) -> Seq<char> {
    if host.endpoints@.len() > 0 {
        crate::host_modal::session_title_spec(host.name@, host.user@, host.endpoints@[0]@)
    } else {
        host.name@ + " - "@ + host.user@ + "@n/a"@
    }
}

/// The title of a session tab for a host with one endpoint or none.
pub fn single_endpoint_title(host: &SshHost) -> (r: String)
    ensures
        r@ == first_endpoint_title(*host),
{
    if host.endpoints.len() > 0 {
        session_title(host.name.as_str(), host.user.as_str(), &host.endpoints[0])
    } else {
        let a = concat_str(host.name.as_str(), " - ");
        let b = concat_str(a.as_str(), host.user.as_str());
        concat_str(b.as_str(), "@n/a")
    }
}

/// What Enter on a host card asks for: the endpoint picker on the
/// remembered endpoint (kept within the endpoints) when the host has
/// several, otherwise a session to its endpoint.
pub fn connect_action(host: &SshHost, remembered: Option<usize>) -> (r: HomeAction)
    ensures
        if host.endpoints@.len() > 1 {
            let n = host.endpoints@.len();
            let pref = match remembered { Some(p) => p as int, None => 0 };
            r matches HomeAction::PickEndpoint(p) && p.host_id == host.id && p.host_name == host.name
                && p.host_user == host.user && endpoints_view(p.endpoints@) == endpoints_view(host.endpoints@)
                && p.selected == (if pref < n - 1 { pref } else { n - 1 })
        } else {
            r matches HomeAction::StartSession { host_id, title } && host_id == host.id && title@ == first_endpoint_title(
                *host,
            )
        },
{
    let count = host.endpoints.len();
    if count > 1 {
        let pref = match remembered {
            Some(p) => p,
            None => 0,
        };
        let sel = if pref < count - 1 { pref } else { count - 1 };
        HomeAction::PickEndpoint(EndpointPickerState {
            host_id: host.id,
            host_name: host.name.clone(),
            host_user: host.user.clone(),
            endpoints: duplicate_endpoints(&host.endpoints),
            selected: sel,
        })
    } else {
        HomeAction::StartSession { host_id: host.id, title: single_endpoint_title(host) }
    }
}

/// Handles a key on the home page. `a` adds a host, `e` edits the selected
/// one; the arrows and h/j/k/l move in the grid (three columns, fewer when
/// fewer hosts are shown); Enter connects to the selected host, through the
/// endpoint picker (on the remembered endpoint) when it has several.
#[verifier::rlimit(100)]
pub fn handle_home_key(hosts: &Vec<SshHost>, selected: usize, key: KeyEvent, remembered: Option<usize>) -> (r: HomeAction)
    ensures
        exists|groups: Seq<HostGroupView>| #![trigger grouping_spec(hosts@, groups)] {
            let vis = flatten(groups);
            let cols = if vis.len() == 0 { 1 } else if vis.len() < HOME_GRID_COLUMNS { vis.len() as int } else { HOME_GRID_COLUMNS as int };
            let chosen = if (selected as int) < vis.len() && vis[selected as int] < hosts@.len() { Some(vis[selected as int] as int) } else { None::<int> };
            &&& grouping_spec(hosts@, groups)
            &&& key.code == KeyCode::Char('a') ==> r is AddHost
            &&& key.code == KeyCode::Char('e') ==> match chosen {
                Some(h) => r matches HomeAction::EditHost { host_id, form } && host_id == hosts@[h].id && filled_from(
                    form,
                    hosts@[h],
                ),
                None => r is Nothing,
            }
            &&& (key.code == KeyCode::Left || key.code == KeyCode::Char('h')) ==> r == HomeAction::Select(
                move_target(sizes_of(groups), cols, selected as int, MoveDirection::Left) as usize,
            )
            &&& (key.code == KeyCode::Right || key.code == KeyCode::Char('l')) ==> r == HomeAction::Select(
                move_target(sizes_of(groups), cols, selected as int, MoveDirection::Right) as usize,
            )
            &&& (key.code == KeyCode::Up || key.code == KeyCode::Char('k')) ==> r == HomeAction::Select(
                move_target(sizes_of(groups), cols, selected as int, MoveDirection::Up) as usize,
            )
            &&& (key.code == KeyCode::Down || key.code == KeyCode::Char('j')) ==> r == HomeAction::Select(
                move_target(sizes_of(groups), cols, selected as int, MoveDirection::Down) as usize,
            )
            &&& key.code == KeyCode::Enter ==> match chosen {
                Some(h) => if hosts@[h].endpoints@.len() > 1 {
                    let n = hosts@[h].endpoints@.len();
                    let pref = match remembered { Some(p) => p as int, None => 0 };
                    r matches HomeAction::PickEndpoint(p) && p.host_id == hosts@[h].id && p.host_name == hosts@[h].name
                        && p.host_user == hosts@[h].user && endpoints_view(p.endpoints@) == endpoints_view(hosts@[h].endpoints@)
                        && p.selected == (if pref < n - 1 { pref } else { n - 1 })
                } else {
                    r matches HomeAction::StartSession { host_id, title } && host_id == hosts@[h].id
                        && title@ == first_endpoint_title(hosts@[h])
                },
                None => r is Nothing,
            }
            &&& !(key.code == KeyCode::Char('a') || key.code == KeyCode::Char('e') || key.code == KeyCode::Left
                || key.code == KeyCode::Char('h') || key.code == KeyCode::Right || key.code == KeyCode::Char('l')
                || key.code == KeyCode::Up || key.code == KeyCode::Char('k') || key.code == KeyCode::Down
                || key.code == KeyCode::Char('j') || key.code == KeyCode::Enter) ==> r is Nothing
        },
{
    let groups = grouped_hosts(hosts);
    let visible = visible_host_indices(&groups);
    let n = visible.len();
    let columns = if n == 0 { 1 } else if n < HOME_GRID_COLUMNS { n } else { HOME_GRID_COLUMNS };
    let chosen: Option<usize> = if selected < n && visible[selected] < hosts.len() { Some(visible[selected]) } else { None };
    let code = key.code;
    let r = if code == KeyCode::Char('a') {
        HomeAction::AddHost
    } else if code == KeyCode::Char('e') {
        match chosen {
            Some(h) => HomeAction::EditHost { host_id: hosts[h].id, form: form_from_host(&hosts[h]) },
            None => HomeAction::Nothing,
        }
    } else if code == KeyCode::Left || code == KeyCode::Char('h') {
        HomeAction::Select(move_selection(selected, groups.as_slice(), columns, MoveDirection::Left))
    } else if code == KeyCode::Right || code == KeyCode::Char('l') {
        HomeAction::Select(move_selection(selected, groups.as_slice(), columns, MoveDirection::Right))
    } else if code == KeyCode::Up || code == KeyCode::Char('k') {
        HomeAction::Select(move_selection(selected, groups.as_slice(), columns, MoveDirection::Up))
    } else if code == KeyCode::Down || code == KeyCode::Char('j') {
        HomeAction::Select(move_selection(selected, groups.as_slice(), columns, MoveDirection::Down))
    } else if code == KeyCode::Enter {
        match chosen {
            Some(h) => connect_action(&hosts[h], remembered),
            None => HomeAction::Nothing,
        }
    } else {
        HomeAction::Nothing
    };
    r
}

} // verus!
