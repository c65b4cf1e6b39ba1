//! How the home page groups and orders hosts: named groups (compared
//! without regard to ASCII case) in alphabetical order, then the hosts
//! without a group; within a group, hosts by name (ignoring ASCII case),
//! then id, then position.

use vstd::prelude::*;
use crate::home::HostGroupView;
use crate::model::SshHost;
use crate::order::{item_before, sort_positions, sorted_positions, text_lt, lemma_text_lt_total, lemma_text_lt_irreflexive};
use crate::text::{ascii_lower, ascii_lower_str, chars_eq, chars_of, trim, trim_str};

verus! {

/// The label of the group of hosts without a group.
pub open spec fn ungrouped_label() -> Seq<char> {
    "Ungrouped"@
}

/// A host's group as compared: trimmed, in ASCII lower case.
pub open spec fn group_key(h: SshHost) -> Seq<char> {
    ascii_lower(trim(h.group@))
}

/// Whether a host has no group (a blank one).
pub open spec fn is_ungrouped(h: SshHost) -> bool {
    trim(h.group@).len() == 0
}

/// The order keys of the hosts: their names in ASCII lower case.
pub open spec fn name_keys(hosts: Seq<SshHost>) -> Seq<Seq<char>> {
    hosts.map_values(|h: SshHost| ascii_lower(h.name@))
}

/// The ids of the hosts.
pub open spec fn host_ids(hosts: Seq<SshHost>) -> Seq<u32> {
    hosts.map_values(|h: SshHost| h.id)
}

/// Whether host `i` belongs to the group with compared name `key` (`None`:
/// the hosts without a group).
pub open spec fn belongs(hosts: Seq<SshHost>, i: int, key: Option<Seq<char>>) -> bool {
    match key {
        None => is_ungrouped(hosts[i]),
        Some(k) => !is_ungrouped(hosts[i]) && group_key(hosts[i]) == k,
    }
}

/// Whether `v` lists exactly the hosts of the group `key`, each once, in
/// the order by name, id and position.
pub open spec fn lists_members(hosts: Seq<SshHost>, v: Seq<usize>, key: Option<Seq<char>>) -> bool {
    &&& forall|t: int| 0 <= t < v.len() ==> (#[trigger] v[t]) < hosts.len() && belongs(hosts, v[t] as int, key)
    &&& forall|i: int| 0 <= i < hosts.len() && #[trigger] belongs(hosts, i, key) ==> v.contains(i as usize)
    &&& forall|a: int, b: int| 0 <= a < b < v.len() ==> item_before(name_keys(hosts), host_ids(hosts), v[a] as int, v[b] as int)
}

/// Whether host `i` is the first with its (non-blank) group.
pub open spec fn first_of_group(hosts: Seq<SshHost>, i: int) -> bool {
    &&& !is_ungrouped(hosts[i])
    &&& forall|j: int| 0 <= j < i ==> is_ungrouped(hosts[j]) || group_key(hosts[j]) != group_key(hosts[i])
}

/// Whether some host has no group.
pub open spec fn has_ungrouped(hosts: Seq<SshHost>) -> bool {
    exists|i: int| 0 <= i < hosts.len() && is_ungrouped(hosts[i])
}

/// Whether `groups` is the home page's grouping of `hosts`: first the named
/// groups, each named as its first host writes it (trimmed), in strictly
/// increasing order of their lower-case names, one for each group any host
/// has; each lists its hosts in order. Then, when some host has no group,
/// a last group "Ungrouped" with those hosts in order.
pub open spec fn grouping_spec(hosts: Seq<SshHost>, groups: Seq<HostGroupView>) -> bool {
    let m = if has_ungrouped(hosts) { groups.len() - 1 } else { groups.len() as int };
    &&& 0 <= m
    &&& forall|g: int| 0 <= g < m ==> {
        &&& !(#[trigger] groups[g]).ungrouped
        &&& exists|i: int| 0 <= i < hosts.len() && first_of_group(hosts, i) && groups[g].name@ == trim(hosts[i].group@)
        &&& lists_members(hosts, groups[g].host_indices@, Some(ascii_lower(groups[g].name@)))
    }
    &&& forall|g1: int, g2: int| 0 <= g1 < g2 < m ==> text_lt(ascii_lower((#[trigger] groups[g1]).name@), ascii_lower((#[trigger] groups[g2]).name@))
    &&& forall|i: int| 0 <= i < hosts.len() && !is_ungrouped(hosts[i]) ==> exists|g: int| 0 <= g < m && ascii_lower(#[trigger] groups[g].name@) == group_key(hosts[i])
    &&& has_ungrouped(hosts) ==> {
        &&& groups[m].ungrouped
        &&& groups[m].name@ == ungrouped_label()
        &&& lists_members(hosts, groups[m].host_indices@, None)
    }
}

/// The hosts among `candidates` (host positions, increasing) that `pick`
/// selects, ordered by name, id and position.
fn ordered_members(hosts: &Vec<SshHost>, lowered: &Vec<Vec<char>>, picked: Vec<usize>) -> (r: Vec<usize>)
    requires
        lowered@.len() == hosts@.len(),
        forall|i: int| 0 <= i < hosts@.len() ==> (#[trigger] lowered@[i])@ == ascii_lower(hosts@[i].name@),
        forall|t: int| 0 <= t < picked@.len() ==> (#[trigger] picked@[t]) < hosts@.len(),
        forall|a: int, b: int| 0 <= a < b < picked@.len() ==> picked@[a] < picked@[b],
    ensures
        r@.len() == picked@.len(),
        forall|t: int| 0 <= t < r@.len() ==> picked@.contains(#[trigger] r@[t]),
        forall|t: int| 0 <= t < picked@.len() ==> r@.contains(#[trigger] picked@[t]),
        forall|a: int, b: int| 0 <= a < b < r@.len() ==> item_before(name_keys(hosts@), host_ids(hosts@), r@[a] as int, r@[b] as int),
{
    let mut keys: Vec<Vec<char>> = Vec::new();
    let mut nums: Vec<u32> = Vec::new();
    let mut t: usize = 0;
    while t < picked.len()
        invariant
            t <= picked@.len(),
            keys@.len() == t,
            nums@.len() == t,
            lowered@.len() == hosts@.len(),
            forall|q: int| 0 <= q < picked@.len() ==> (#[trigger] picked@[q]) < hosts@.len(),
            forall|q: int| 0 <= q < t ==> (#[trigger] keys@[q])@ == lowered@[picked@[q] as int]@,
            forall|q: int| 0 <= q < t ==> (#[trigger] nums@[q]) == hosts@[picked@[q] as int].id,
        decreases picked@.len() - t,
    {
        let h = picked[t];
        keys.push(lowered[h].clone());
        nums.push(hosts[h].id);
        t = t + 1;
    }
    let perm = sort_positions(&keys, &nums);
    let ghost ks = keys@.map_values(|k: Vec<char>| k@);
    let mut r: Vec<usize> = Vec::new();
    let mut k: usize = 0;
    while k < perm.len()
        invariant
            k <= perm@.len(),
            perm@.len() == picked@.len(),
            r@.len() == k,
            forall|q: int| 0 <= q < k ==> (#[trigger] r@[q]) == picked@[perm@[q] as int],
            forall|q: int| 0 <= q < perm@.len() ==> (#[trigger] perm@[q]) < picked@.len(),
        decreases perm@.len() - k,
    {
        r.push(picked[perm[k]]);
        k = k + 1;
    }
    proof {
        assert forall|q: int| 0 <= q < r@.len() implies picked@.contains(#[trigger] r@[q]) by {
            assert(picked@[perm@[q] as int] == r@[q]);
        }
        assert forall|q: int| 0 <= q < picked@.len() implies r@.contains(#[trigger] picked@[q]) by {
            assert(perm@.contains(q as usize));
            let w = choose|w: int| 0 <= w < perm@.len() && perm@[w] == q as usize;
            assert(r@[w] == picked@[q]);
        }
        assert forall|a: int, b: int| 0 <= a < b < r@.len() implies item_before(name_keys(hosts@), host_ids(hosts@), r@[a] as int, r@[b] as int) by {
            let pa = perm@[a] as int;
            let pb = perm@[b] as int;
            assert(item_before(ks, nums@, pa, pb));
            assert(ks[pa] == keys@[pa]@);
            assert(ks[pb] == keys@[pb]@);
            assert(name_keys(hosts@)[r@[a] as int] == ascii_lower(hosts@[r@[a] as int].name@));
            assert(name_keys(hosts@)[r@[b] as int] == ascii_lower(hosts@[r@[b] as int].name@));
            assert(host_ids(hosts@)[r@[a] as int] == hosts@[r@[a] as int].id);
            assert(host_ids(hosts@)[r@[b] as int] == hosts@[r@[b] as int].id);
            if pa < pb {
                assert(picked@[pa] < picked@[pb]);
            } else if pb < pa {
                assert(picked@[pb] < picked@[pa]);
            }
        }
    }
    r
}

/// The compared group, the trimmed group and the lowered name of each host.
fn host_keys(hosts: &Vec<SshHost>) -> (r: (Vec<Vec<char>>, Vec<String>, Vec<Vec<char>>))
    ensures
        r.0@.len() == hosts@.len() && r.1@.len() == hosts@.len() && r.2@.len() == hosts@.len(),
        forall|q: int| 0 <= q < hosts@.len() ==> (#[trigger] r.0@[q])@ == group_key(hosts@[q]),
        forall|q: int| 0 <= q < hosts@.len() ==> (#[trigger] r.1@[q])@ == trim(hosts@[q].group@),
        forall|q: int| 0 <= q < hosts@.len() ==> (#[trigger] r.2@[q])@ == ascii_lower(hosts@[q].name@),
{
    let n = hosts.len();
    let mut gkeys: Vec<Vec<char>> = Vec::new();
    let mut trimmed: Vec<String> = Vec::new();
    let mut lowered: Vec<Vec<char>> = Vec::new();
    let mut i: usize = 0;
    while i < n
        invariant
            n == hosts@.len(),
            i <= n,
            gkeys@.len() == i && trimmed@.len() == i && lowered@.len() == i,
            forall|q: int| 0 <= q < i ==> (#[trigger] gkeys@[q])@ == group_key(hosts@[q]),
            forall|q: int| 0 <= q < i ==> (#[trigger] trimmed@[q])@ == trim(hosts@[q].group@),
            forall|q: int| 0 <= q < i ==> (#[trigger] lowered@[q])@ == ascii_lower(hosts@[q].name@),
        decreases n - i,
    {
        let t = trim_str(hosts[i].group.as_str());
        let k = ascii_lower_str(t.as_str());
        gkeys.push(chars_of(k.as_str()));
        trimmed.push(t);
        let ln = ascii_lower_str(hosts[i].name.as_str());
        lowered.push(chars_of(ln.as_str()));
        i = i + 1;
    }
    (gkeys, trimmed, lowered)
}

/// The first host of each named group, in host order, and whether some
/// host has no group.
fn group_firsts(hosts: &Vec<SshHost>, gkeys: &Vec<Vec<char>>, trimmed: &Vec<String>) -> (r: (Vec<usize>, bool))
    requires
        gkeys@.len() == hosts@.len() && trimmed@.len() == hosts@.len(),
        forall|q: int| 0 <= q < hosts@.len() ==> (#[trigger] gkeys@[q])@ == group_key(hosts@[q]),
        forall|q: int| 0 <= q < hosts@.len() ==> (#[trigger] trimmed@[q])@ == trim(hosts@[q].group@),
    ensures
        r.1 == has_ungrouped(hosts@),
        forall|t: int| 0 <= t < r.0@.len() ==> (#[trigger] r.0@[t]) < hosts@.len() && first_of_group(hosts@, r.0@[t] as int),
        forall|a: int, b: int| 0 <= a < b < r.0@.len() ==> r.0@[a] < r.0@[b],
        forall|q: int| 0 <= q < hosts@.len() && !is_ungrouped(#[trigger] hosts@[q]) ==> exists|t: int| 0 <= t < r.0@.len() && group_key(hosts@[#[trigger] r.0@[t] as int]) == group_key(hosts@[q]),
{
    let n = hosts.len();
    let mut firsts: Vec<usize> = Vec::new();
    let mut any_ungrouped = false;
    let mut i: usize = 0;
    while i < n
        invariant
            n == hosts@.len(),
            i <= n,
            gkeys@.len() == n && trimmed@.len() == n,
            forall|q: int| 0 <= q < n ==> (#[trigger] gkeys@[q])@ == group_key(hosts@[q]),
            forall|q: int| 0 <= q < n ==> (#[trigger] trimmed@[q])@ == trim(hosts@[q].group@),
            any_ungrouped == (exists|q: int| 0 <= q < i && is_ungrouped(#[trigger] hosts@[q])),
            forall|t: int| 0 <= t < firsts@.len() ==> (#[trigger] firsts@[t]) < i && first_of_group(hosts@, firsts@[t] as int),
            forall|a: int, b: int| 0 <= a < b < firsts@.len() ==> firsts@[a] < firsts@[b],
            forall|q: int| 0 <= q < i && !is_ungrouped(#[trigger] hosts@[q]) ==> exists|t: int| 0 <= t < firsts@.len() && group_key(hosts@[#[trigger] firsts@[t] as int]) == group_key(hosts@[q]),
        decreases n - i,
    {
        if trimmed[i].as_str().unicode_len() == 0 {
            any_ungrouped = true;
        } else {
            let mut t: usize = 0;
            let mut seen = false;
            while t < firsts.len() && !seen
                invariant
                    t <= firsts@.len(),
                    gkeys@.len() == n,
                    i < n,
                    forall|q: int| 0 <= q < firsts@.len() ==> (#[trigger] firsts@[q]) < n,
                    seen ==> exists|w: int| 0 <= w < t && group_key(hosts@[#[trigger] firsts@[w] as int]) == group_key(hosts@[i as int]),
                    !seen ==> forall|w: int| 0 <= w < t ==> group_key(hosts@[#[trigger] firsts@[w] as int]) != group_key(hosts@[i as int]),
                    forall|q: int| 0 <= q < n ==> (#[trigger] gkeys@[q])@ == group_key(hosts@[q]),
                decreases firsts@.len() - t,
            {
                if chars_eq(gkeys[firsts[t]].as_slice(), gkeys[i].as_slice()) {
                    seen = true;
                }
                t = t + 1;
            }
            let ghost before = firsts@;
            if !seen {
                proof {
                    assert forall|j: int| 0 <= j < i implies is_ungrouped(hosts@[j]) || group_key(hosts@[j]) != group_key(hosts@[i as int]) by {
                        if !is_ungrouped(hosts@[j]) {
                            let w = choose|w: int| 0 <= w < firsts@.len() && group_key(hosts@[#[trigger] firsts@[w] as int]) == group_key(hosts@[j]);
                        }
                    }
                }
                firsts.push(i);
            }
            proof {
                assert forall|q: int| 0 <= q < i + 1 && !is_ungrouped(#[trigger] hosts@[q]) implies exists|t: int| 0 <= t < firsts@.len() && group_key(hosts@[#[trigger] firsts@[t] as int]) == group_key(hosts@[q]) by {
                    if q == i {
                        if seen {
                            let w = choose|w: int| 0 <= w < before.len() && group_key(hosts@[#[trigger] before[w] as int]) == group_key(hosts@[i as int]);
                            assert(firsts@[w] == before[w]);
                        } else {
                            assert(firsts@[before.len() as int] == i);
                        }
                    } else {
                        let w = choose|w: int| 0 <= w < before.len() && group_key(hosts@[#[trigger] before[w] as int]) == group_key(hosts@[q]);
                        assert(firsts@[w] == before[w]);
                    }
                }
            }
        }
        i = i + 1;
    }
    proof {
        assert forall|q: int| 0 <= q < hosts@.len() && !is_ungrouped(#[trigger] hosts@[q]) implies exists|t: int| 0 <= t < firsts@.len() && group_key(hosts@[#[trigger] firsts@[t] as int]) == group_key(hosts@[q]) by {
            assert(q < i);
        }
    }
    (firsts, any_ungrouped)
}

/// The hosts of the named group with compared name `key`, or (with
/// `ungrouped`) the hosts without a group, in host order.
fn pick_members(hosts: &Vec<SshHost>, gkeys: &Vec<Vec<char>>, trimmed: &Vec<String>, key: &Vec<char>, ungrouped: bool) -> (r: Vec<usize>)
    requires
        gkeys@.len() == hosts@.len() && trimmed@.len() == hosts@.len(),
        forall|q: int| 0 <= q < hosts@.len() ==> (#[trigger] gkeys@[q])@ == group_key(hosts@[q]),
        forall|q: int| 0 <= q < hosts@.len() ==> (#[trigger] trimmed@[q])@ == trim(hosts@[q].group@),
    ensures
        forall|q: int| 0 <= q < r@.len() ==> (#[trigger] r@[q]) < hosts@.len() && (if ungrouped {
            is_ungrouped(hosts@[r@[q] as int])
        } else {
            !is_ungrouped(hosts@[r@[q] as int]) && group_key(hosts@[r@[q] as int]) == key@
        }),
        forall|q: int| 0 <= q < hosts@.len() && (if ungrouped {
            is_ungrouped(#[trigger] hosts@[q])
        } else {
            !is_ungrouped(hosts@[q]) && group_key(hosts@[q]) == key@
        }) ==> r@.contains(q as usize),
        forall|a: int, b: int| 0 <= a < b < r@.len() ==> r@[a] < r@[b],
{
    let n = hosts.len();
    let mut picked: Vec<usize> = Vec::new();
    let mut h: usize = 0;
    while h < n
        invariant
            h <= n,
            n == hosts@.len(),
            gkeys@.len() == n && trimmed@.len() == n,
            forall|q: int| 0 <= q < n ==> (#[trigger] gkeys@[q])@ == group_key(hosts@[q]),
            forall|q: int| 0 <= q < n ==> (#[trigger] trimmed@[q])@ == trim(hosts@[q].group@),
            forall|q: int| 0 <= q < picked@.len() ==> (#[trigger] picked@[q]) < h && (if ungrouped {
                is_ungrouped(hosts@[picked@[q] as int])
            } else {
                !is_ungrouped(hosts@[picked@[q] as int]) && group_key(hosts@[picked@[q] as int]) == key@
            }),
            forall|q: int| 0 <= q < h && (if ungrouped {
                is_ungrouped(#[trigger] hosts@[q])
            } else {
                !is_ungrouped(hosts@[q]) && group_key(hosts@[q]) == key@
            }) ==> picked@.contains(q as usize),
            forall|a: int, b: int| 0 <= a < b < picked@.len() ==> picked@[a] < picked@[b],
        decreases n - h,
    {
        let ghost before = picked@;
        let blank = trimmed[h].as_str().unicode_len() == 0;
        let take = if ungrouped { blank } else { !blank && chars_eq(gkeys[h].as_slice(), key.as_slice()) };
        if take {
            picked.push(h);
        }
        proof {
            assert forall|q: int| 0 <= q < h + 1 && (if ungrouped {
                is_ungrouped(#[trigger] hosts@[q])
            } else {
                !is_ungrouped(hosts@[q]) && group_key(hosts@[q]) == key@
            }) implies picked@.contains(q as usize) by {
                if q == h {
                    assert(picked@[before.len() as int] == h);
                } else {
                    let w = choose|w: int| 0 <= w < before.len() && before[w] == q as usize;
                    assert(picked@[w] == before[w]);
                }
            }
        }
        h = h + 1;
    }
    picked
}

/// Groups and orders hosts for the home page.
#[verifier::rlimit(100)]
pub fn grouped_hosts(hosts: &Vec<SshHost>) -> (r: Vec<HostGroupView>)
    ensures
        grouping_spec(hosts@, r@),
{
    let n = hosts.len();
    let (gkeys, trimmed, lowered) = host_keys(hosts);
    let (firsts, any_ungrouped) = group_firsts(hosts, &gkeys, &trimmed);
    // Named groups in order of their compared names.
    let mut fkeys: Vec<Vec<char>> = Vec::new();
    let mut zeros: Vec<u32> = Vec::new();
    let mut t: usize = 0;
    while t < firsts.len()
        invariant
            t <= firsts@.len(),
            fkeys@.len() == t && zeros@.len() == t,
            gkeys@.len() == n,
            forall|q: int| 0 <= q < firsts@.len() ==> (#[trigger] firsts@[q]) < n,
            forall|q: int| 0 <= q < t ==> (#[trigger] fkeys@[q])@ == gkeys@[firsts@[q] as int]@,
            forall|q: int| 0 <= q < t ==> (#[trigger] zeros@[q]) == 0,
        decreases firsts@.len() - t,
    {
        fkeys.push(gkeys[firsts[t]].clone());
        zeros.push(0);
        t = t + 1;
    }
    let order = sort_positions(&fkeys, &zeros);
    let ghost fk = fkeys@.map_values(|k: Vec<char>| k@);
    let mut groups: Vec<HostGroupView> = Vec::new();
    let mut g: usize = 0;
    while g < order.len()
        invariant
            g <= order@.len(),
            order@.len() == firsts@.len(),
            groups@.len() == g,
            n == hosts@.len(),
            gkeys@.len() == n && trimmed@.len() == n && lowered@.len() == n,
            forall|q: int| 0 <= q < n ==> (#[trigger] gkeys@[q])@ == group_key(hosts@[q]),
            forall|q: int| 0 <= q < n ==> (#[trigger] trimmed@[q])@ == trim(hosts@[q].group@),
            forall|q: int| 0 <= q < n ==> (#[trigger] lowered@[q])@ == ascii_lower(hosts@[q].name@),
            forall|q: int| 0 <= q < order@.len() ==> (#[trigger] order@[q]) < firsts@.len(),
            forall|q: int| 0 <= q < firsts@.len() ==> (#[trigger] firsts@[q]) < n && first_of_group(hosts@, firsts@[q] as int),
            forall|q: int| 0 <= q < g ==> (#[trigger] groups@[q]).name@ == trim(hosts@[firsts@[order@[q] as int] as int].group@),
            forall|q: int| 0 <= q < g ==> !(#[trigger] groups@[q]).ungrouped,
            forall|q: int| 0 <= q < g ==> lists_members(hosts@, (#[trigger] groups@[q]).host_indices@, Some(ascii_lower(groups@[q].name@))),
        decreases order@.len() - g,
    {
        let f = firsts[order[g]];
        let picked = pick_members(hosts, &gkeys, &trimmed, &gkeys[f], false);
        let members = ordered_members(hosts, &lowered, picked);
        let name = trimmed[f].clone();
        groups.push(HostGroupView { name, host_indices: members, ungrouped: false });
        g = g + 1;
    }
    let ghost named = groups@;
    proof {
        assert forall|q: int| 0 <= q < groups@.len() implies ascii_lower((#[trigger] groups@[q]).name@) == fk[order@[q] as int] by {
            assert(fk[order@[q] as int] == fkeys@[order@[q] as int]@);
        }
        assert forall|g1: int, g2: int| 0 <= g1 < g2 < groups@.len() implies text_lt(ascii_lower((#[trigger] groups@[g1]).name@), ascii_lower((#[trigger] groups@[g2]).name@)) by {
            let o1 = order@[g1] as int;
            let o2 = order@[g2] as int;
            assert(item_before(fk, zeros@, o1, o2));
            assert(zeros@[o1] == 0 && zeros@[o2] == 0);
            assert(fk[o1] == fkeys@[o1]@ && fk[o2] == fkeys@[o2]@);
            if fk[o1] == fk[o2] {
                lemma_text_lt_irreflexive(fk[o1]);
                assert(o1 < o2);
                assert(firsts@[o1] < firsts@[o2]);
                assert(first_of_group(hosts@, firsts@[o2] as int));
            }
        }
        assert forall|q: int| 0 <= q < n && !is_ungrouped(#[trigger] hosts@[q]) implies exists|g: int| 0 <= g < groups@.len() && ascii_lower(#[trigger] groups@[g].name@) == group_key(hosts@[q]) by {
            let t = choose|t: int| 0 <= t < firsts@.len() && group_key(hosts@[#[trigger] firsts@[t] as int]) == group_key(hosts@[q]);
            assert(order@.contains(t as usize));
            let g = choose|g: int| 0 <= g < order@.len() && order@[g] == t as usize;
            assert(fk[t] == fkeys@[t]@);
            assert(ascii_lower(groups@[g].name@) == group_key(hosts@[q]));
        }
        assert forall|q: int| 0 <= q < groups@.len() implies exists|i: int| 0 <= i < hosts@.len() && first_of_group(hosts@, i) && (#[trigger] groups@[q]).name@ == trim(hosts@[i].group@) by {
            let f = firsts@[order@[q] as int] as int;
            assert(first_of_group(hosts@, f));
        }
    }
    if any_ungrouped {
        let empty: Vec<char> = Vec::new();
        let picked = pick_members(hosts, &gkeys, &trimmed, &empty, true);
        let ghost picked_copy = picked;
        let members = ordered_members(hosts, &lowered, picked);
        let ghost mv = members@;
        let ghost pv = picked_copy@;
        groups.push(HostGroupView { name: "Ungrouped".to_string(), host_indices: members, ungrouped: true });
        proof {
            assert forall|q: int| 0 <= q < named.len() implies #[trigger] groups@[q] == named[q] by {
            }
            let last = groups@[named.len() as int];
            assert(last.host_indices@ == mv);
            assert forall|t: int| 0 <= t < mv.len() implies (#[trigger] mv[t]) < hosts@.len() && belongs(hosts@, mv[t] as int, None) by {
                assert(pv.contains(mv[t]));
                let w = choose|w: int| 0 <= w < pv.len() && pv[w] == mv[t];
            }
            assert forall|i: int| 0 <= i < hosts@.len() && #[trigger] belongs(hosts@, i, None) implies mv.contains(i as usize) by {
                assert(pv.contains(i as usize));
                let w = choose|w: int| 0 <= w < pv.len() && pv[w] == i as usize;
                assert(mv.contains(pv[w]));
            }
            assert("Ungrouped"@ == ungrouped_label());
        }
    }
    proof {
        let m = if has_ungrouped(hosts@) { groups@.len() - 1 } else { groups@.len() as int };
        assert(m == named.len());
        assert forall|g: int| 0 <= g < m implies (#[trigger] groups@[g]) == named[g] by {
        }
        let gs = groups@;
        assert(0 <= m);
        assert(forall|g: int| 0 <= g < m ==> {
            &&& !(#[trigger] gs[g]).ungrouped
            &&& exists|i: int| 0 <= i < hosts@.len() && first_of_group(hosts@, i) && gs[g].name@ == trim(hosts@[i].group@)
            &&& lists_members(hosts@, gs[g].host_indices@, Some(ascii_lower(gs[g].name@)))
        });
        assert(forall|g1: int, g2: int| 0 <= g1 < g2 < m ==> text_lt(ascii_lower((#[trigger] gs[g1]).name@), ascii_lower((#[trigger] gs[g2]).name@)));
        assert forall|i: int| 0 <= i < hosts@.len() && !is_ungrouped(hosts@[i]) implies exists|g: int| 0 <= g < m && ascii_lower(#[trigger] gs[g].name@) == group_key(hosts@[i]) by {
            assert(!is_ungrouped(hosts@[i]));
            let g = choose|g: int| 0 <= g < named.len() && ascii_lower(#[trigger] named[g].name@) == group_key(hosts@[i]);
            assert(gs[g] == named[g]);
        }
        assert(has_ungrouped(hosts@) ==> {
            &&& gs[m].ungrouped
            &&& gs[m].name@ == ungrouped_label()
            &&& lists_members(hosts@, gs[m].host_indices@, None)
        });
    }
    groups
}

} // verus!
