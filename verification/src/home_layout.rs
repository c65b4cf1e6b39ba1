//! Why the home grid shows every host exactly once: each group lists the
//! hosts of its own key, each once, and no two groups share a key.

use vstd::prelude::*;
use crate::home::HostGroupView;
use crate::home_page::flatten;
use crate::host_groups::{
    belongs, group_key, grouping_spec, has_ungrouped, host_ids, is_ungrouped, lists_members, name_keys,
};
use crate::model::SshHost;
use crate::order::{item_before, lemma_text_lt_irreflexive, text_lt};
use crate::text::ascii_lower;

verus! {

/// The group a group entry stands for, as `belongs` names it.
spec fn entry_key(groups: Seq<HostGroupView>, g: int) -> Option<Seq<char>> {
    if groups[g].ungrouped {
        None
    } else {
        Some(ascii_lower(groups[g].name@))
    }
}

proof fn lemma_entries_list_members(hosts: Seq<SshHost>, groups: Seq<HostGroupView>, g: int)
    requires
        grouping_spec(hosts, groups),
        0 <= g < groups.len(),
    ensures
        lists_members(hosts, groups[g].host_indices@, entry_key(groups, g)),
{
}

proof fn lemma_entry_keys_differ(hosts: Seq<SshHost>, groups: Seq<HostGroupView>, g1: int, g2: int)
    requires
        grouping_spec(hosts, groups),
        0 <= g1 < g2 < groups.len(),
    ensures
        entry_key(groups, g1) != entry_key(groups, g2),
{
    let m = if has_ungrouped(hosts) { groups.len() - 1 } else { groups.len() as int };
    if g2 < m {
        assert(text_lt(ascii_lower(groups[g1].name@), ascii_lower(groups[g2].name@)));
        lemma_text_lt_irreflexive(ascii_lower(groups[g1].name@));
    }
}

proof fn lemma_member_order_distinct(hosts: Seq<SshHost>, v: Seq<usize>, key: Option<Seq<char>>, a: int, b: int)
    requires
        lists_members(hosts, v, key),
        0 <= a < b < v.len(),
    ensures
        v[a] != v[b],
{
    assert(item_before(name_keys(hosts), host_ids(hosts), v[a] as int, v[b] as int));
    lemma_text_lt_irreflexive(name_keys(hosts)[v[a] as int]);
}

proof fn lemma_prefix_step(groups: Seq<HostGroupView>, n: int)
    requires
        0 < n <= groups.len(),
    ensures
        flatten(groups.subrange(0, n)) == flatten(groups.subrange(0, n - 1)) + groups[n - 1].host_indices@,
{
    assert(groups.subrange(0, n).drop_last() =~= groups.subrange(0, n - 1));
}

/// Every position listed by the first `n` groups is a host of one of them.
proof fn lemma_prefix_members(hosts: Seq<SshHost>, groups: Seq<HostGroupView>, n: int)
    requires
        grouping_spec(hosts, groups),
        0 <= n <= groups.len(),
    ensures
        forall|t: int| 0 <= t < flatten(groups.subrange(0, n)).len() ==> {
            &&& (#[trigger] flatten(groups.subrange(0, n))[t]) < hosts.len()
            &&& exists|g: int| 0 <= g < n && belongs(hosts, flatten(groups.subrange(0, n))[t] as int, #[trigger] entry_key(groups, g))
        },
    decreases n,
{
    if n == 0 {
        assert(groups.subrange(0, 0) =~= Seq::<HostGroupView>::empty());
    } else {
        lemma_prefix_members(hosts, groups, n - 1);
        lemma_prefix_step(groups, n);
        lemma_entries_list_members(hosts, groups, n - 1);
        let f = flatten(groups.subrange(0, n));
        let front = flatten(groups.subrange(0, n - 1));
        let members = groups[n - 1].host_indices@;
        assert forall|t: int| 0 <= t < f.len() implies {
            &&& (#[trigger] f[t]) < hosts.len()
            &&& exists|g: int| 0 <= g < n && belongs(hosts, f[t] as int, #[trigger] entry_key(groups, g))
        } by {
            if t < front.len() {
                assert(f[t] == front[t]);
                let g = choose|g: int| 0 <= g < n - 1 && belongs(hosts, front[t] as int, #[trigger] entry_key(groups, g));
                assert(belongs(hosts, f[t] as int, entry_key(groups, g)));
            } else {
                assert(f[t] == members[t - front.len()]);
                assert(belongs(hosts, f[t] as int, entry_key(groups, n - 1)));
            }
        }
    }
}

/// The first `n` groups list no position twice.
proof fn lemma_prefix_distinct(hosts: Seq<SshHost>, groups: Seq<HostGroupView>, n: int)
    requires
        grouping_spec(hosts, groups),
        0 <= n <= groups.len(),
    ensures
        forall|a: int, b: int| 0 <= a < b < flatten(groups.subrange(0, n)).len() ==>
            flatten(groups.subrange(0, n))[a] != flatten(groups.subrange(0, n))[b],
    decreases n,
{
    if n == 0 {
        assert(groups.subrange(0, 0) =~= Seq::<HostGroupView>::empty());
    } else {
        lemma_prefix_distinct(hosts, groups, n - 1);
        lemma_prefix_members(hosts, groups, n - 1);
        lemma_prefix_step(groups, n);
        lemma_entries_list_members(hosts, groups, n - 1);
        let f = flatten(groups.subrange(0, n));
        let front = flatten(groups.subrange(0, n - 1));
        let members = groups[n - 1].host_indices@;
        assert forall|a: int, b: int| 0 <= a < b < f.len() implies f[a] != f[b] by {
            if b < front.len() {
                assert(f[a] == front[a] && f[b] == front[b]);
            } else if a >= front.len() {
                assert(f[a] == members[a - front.len()] && f[b] == members[b - front.len()]);
                lemma_member_order_distinct(hosts, members, entry_key(groups, n - 1), a - front.len(), b - front.len());
            } else {
                assert(f[a] == front[a]);
                assert(f[b] == members[b - front.len()]);
                assert(0 <= a < front.len());
                let g = choose|g: int| 0 <= g < n - 1 && belongs(hosts, front[a] as int, #[trigger] entry_key(groups, g));
                if f[a] == f[b] {
                    assert(belongs(hosts, f[b] as int, entry_key(groups, n - 1)));
                    lemma_entry_keys_differ(hosts, groups, g, n - 1);
                    assert(entry_key(groups, g) == entry_key(groups, n - 1));
                }
            }
        }
    }
}

/// The first `n` groups list every position each of them holds.
proof fn lemma_prefix_covers(groups: Seq<HostGroupView>, n: int)
    requires
        0 <= n <= groups.len(),
    ensures
        forall|g: int, s: int| 0 <= g < n && 0 <= s < groups[g].host_indices@.len() ==>
            flatten(groups.subrange(0, n)).contains(#[trigger] groups[g].host_indices@[s]),
    decreases n,
{
    if n > 0 {
        lemma_prefix_covers(groups, n - 1);
        lemma_prefix_step(groups, n);
        let f = flatten(groups.subrange(0, n));
        let front = flatten(groups.subrange(0, n - 1));
        let members = groups[n - 1].host_indices@;
        assert forall|g: int, s: int| 0 <= g < n && 0 <= s < groups[g].host_indices@.len() implies
            f.contains(#[trigger] groups[g].host_indices@[s]) by {
            if g < n - 1 {
                assert(front.contains(groups[g].host_indices@[s]));
                let k = choose|k: int| 0 <= k < front.len() && front[k] == groups[g].host_indices@[s];
                assert(f[k] == front[k]);
            } else {
                assert(f[front.len() + s] == members[s]);
            }
        }
    }
}

/// A list of distinct positions below `n` that holds every position below
/// `n` has length `n`.
proof fn lemma_distinct_cover_len(f: Seq<usize>, n: int)
    requires
        0 <= n <= usize::MAX + 1,
        forall|t: int| 0 <= t < f.len() ==> (#[trigger] f[t]) < n,
        forall|a: int, b: int| 0 <= a < b < f.len() ==> f[a] != f[b],
        forall|i: int| 0 <= i < n ==> #[trigger] f.contains(i as usize),
    ensures
        f.len() == n,
{
    let fi = f.map_values(|x: usize| x as int);
    assert(fi.no_duplicates()) by {
        assert forall|a: int, b: int| 0 <= a < fi.len() && 0 <= b < fi.len() && a != b implies fi[a] != fi[b] by {
            if a < b {
                assert(f[a] != f[b]);
            } else {
                assert(f[b] != f[a]);
            }
        }
    }
    fi.unique_seq_to_set();
    let range = vstd::set_lib::set_int_range(0, n);
    assert(fi.to_set() =~= range) by {
        assert forall|i: int| #[trigger] fi.to_set().contains(i) implies range.contains(i) by {
            let t = choose|t: int| 0 <= t < fi.len() && fi[t] == i;
            assert(f[t] < n);
        }
        assert forall|i: int| #[trigger] range.contains(i) implies fi.to_set().contains(i) by {
            assert(f.contains(i as usize));
            let t = choose|t: int| 0 <= t < f.len() && f[t] == i as usize;
            assert(fi[t] == i);
        }
    }
    vstd::set_lib::lemma_int_range(0, n);
}

/// Every host is listed by some group.
proof fn lemma_host_listed(hosts: Seq<SshHost>, groups: Seq<HostGroupView>, i: int) -> (gs: (int, int))
    requires
        grouping_spec(hosts, groups),
        0 <= i < hosts.len(),
    ensures
        0 <= gs.0 < groups.len(),
        0 <= gs.1 < groups[gs.0].host_indices@.len(),
        groups[gs.0].host_indices@[gs.1] == i as usize,
{
    let m = if has_ungrouped(hosts) { groups.len() - 1 } else { groups.len() as int };
    let g = if is_ungrouped(hosts[i]) {
        assert(has_ungrouped(hosts));
        m
    } else {
        choose|g: int| 0 <= g < m && ascii_lower(#[trigger] groups[g].name@) == group_key(hosts[i])
    };
    lemma_entries_list_members(hosts, groups, g);
    assert(belongs(hosts, i, entry_key(groups, g)));
    let s = choose|s: int| 0 <= s < groups[g].host_indices@.len() && groups[g].host_indices@[s] == i as usize;
    (g, s)
}

/// The home grid shows every host, each exactly once: the positions it
/// lists are those of the host list, none twice and none missing.
pub proof fn home_grid_shows_each_host_once(hosts: Seq<SshHost>, groups: Seq<HostGroupView>)
    requires
        grouping_spec(hosts, groups),
        hosts.len() <= usize::MAX,
    ensures
        forall|t: int| 0 <= t < flatten(groups).len() ==> (#[trigger] flatten(groups)[t]) < hosts.len(),
        forall|a: int, b: int| 0 <= a < b < flatten(groups).len() ==> flatten(groups)[a] != flatten(groups)[b],
        forall|i: int| 0 <= i < hosts.len() ==> #[trigger] flatten(groups).contains(i as usize),
        flatten(groups).len() == hosts.len(),
{
    let n = groups.len() as int;
    lemma_prefix_members(hosts, groups, n);
    lemma_prefix_distinct(hosts, groups, n);
    lemma_prefix_covers(groups, n);
    assert(groups.subrange(0, n) =~= groups);
    let f = flatten(groups);
    assert forall|i: int| 0 <= i < hosts.len() implies #[trigger] f.contains(i as usize) by {
        let (g, s) = lemma_host_listed(hosts, groups, i);
        assert(f.contains(groups[g].host_indices@[s]));
    }
    lemma_distinct_cover_len(f, hosts.len() as int);
}

} // verus!
