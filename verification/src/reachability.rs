//! What the host cards show of the reachability probes: one status per
//! endpoint, kept while it still fits the host, unknown otherwise.

use vstd::prelude::*;
use std::collections::HashMap;
use crate::model::SshHost;
use crate::navigation::HostConnectionStatus;

verus! {

broadcast use vstd::std_specs::hash::group_hash_axioms;

/// How often the endpoints are probed, in seconds.
pub const PROBE_INTERVAL_SECS: u64 = 5;

/// The longest a probe waits for an endpoint, in seconds.
pub const PROBE_TIMEOUT_CAP_SECS: u64 = 2;

/// How long a probe waits for an endpoint: the SSH connect timeout (at
/// least a second), but never more than two seconds.
pub fn probe_timeout_secs(connect_timeout_secs: u64) -> (r: u64)
    ensures
        r == (if connect_timeout_secs < 1 { 1 } else if connect_timeout_secs > PROBE_TIMEOUT_CAP_SECS {
            PROBE_TIMEOUT_CAP_SECS
        } else {
            connect_timeout_secs
        }),
{
    let t = if connect_timeout_secs < 1 { 1 } else { connect_timeout_secs };
    if t > PROBE_TIMEOUT_CAP_SECS { PROBE_TIMEOUT_CAP_SECS } else { t }
}

/// `n` unknown statuses.
pub open spec fn unknowns(n: nat) -> Seq<HostConnectionStatus> {
    Seq::new(n, |i: int| HostConnectionStatus::Unknown)
}

/// The ids of the hosts.
pub open spec fn host_id_set(hosts: Seq<SshHost>) -> Set<u32> {
    Set::new(|id: u32| exists|i: int| 0 <= i < hosts.len() && (#[trigger] hosts[i]).id == id)
}

/// The statuses of a map, as sequences.
pub open spec fn status_views(m: Map<u32, Vec<HostConnectionStatus>>) -> Map<u32, Seq<HostConnectionStatus>> {
    m.map_values(|v: Vec<HostConnectionStatus>| v@)
}

/// The statuses once the first `n` hosts are taken in: those of hosts that
/// are gone are dropped, then each host keeps its statuses when there is
/// one per endpoint and otherwise gets one unknown status per endpoint.
pub open spec fn synced(hosts: Seq<SshHost>, known: Map<u32, Seq<HostConnectionStatus>>, n: int) -> Map<
    u32,
    Seq<HostConnectionStatus>,
>
    decreases n,
{
    if n <= 0 {
        known.restrict(host_id_set(hosts))
    } else {
        let m = synced(hosts, known, n - 1);
        let h = hosts[n - 1];
        if m.contains_key(h.id) && m[h.id].len() == h.endpoints@.len() {
            m
        } else {
            m.insert(h.id, unknowns(h.endpoints@.len()))
        }
    }
}

/// A copy of some statuses.
fn copy_statuses(v: &Vec<HostConnectionStatus>) -> (r: Vec<HostConnectionStatus>)
    ensures
        r@ == v@,
{
    let mut r: Vec<HostConnectionStatus> = Vec::new();
    let mut i: usize = 0;
    while i < v.len()
        invariant
            i <= v@.len(),
            r@ == v@.subrange(0, i as int),
        decreases v@.len() - i,
    {
        r.push(v[i]);
        i = i + 1;
        assert(r@ =~= v@.subrange(0, i as int));
    }
    assert(v@.subrange(0, v@.len() as int) =~= v@);
    r
}

/// `n` unknown statuses.
fn unknown_statuses(n: usize) -> (r: Vec<HostConnectionStatus>)
    ensures
        r@ == unknowns(n as nat),
{
    let mut r: Vec<HostConnectionStatus> = Vec::new();
    let mut i: usize = 0;
    while i < n
        invariant
            i <= n,
            r@ == unknowns(i as nat),
        decreases n - i,
    {
        r.push(HostConnectionStatus::Unknown);
        i = i + 1;
        assert(r@ =~= unknowns(i as nat));
    }
    r
}

/// The statuses the host cards show after the host list changed: statuses
/// of removed hosts are forgotten, and a host whose number of endpoints no
/// longer matches its statuses starts over with unknown ones.
pub fn sync_host_statuses(hosts: &Vec<SshHost>, known: &HashMap<u32, Vec<HostConnectionStatus>>) -> (r: HashMap<
    u32,
    Vec<HostConnectionStatus>,
>)
    ensures
        status_views(r@) == synced(hosts@, status_views(known@), hosts@.len() as int),
{
    let ghost kv = status_views(known@);
    let mut m: HashMap<u32, Vec<HostConnectionStatus>> = HashMap::new();
    let mut i: usize = 0;
    while i < hosts.len()
        invariant
            i <= hosts@.len(),
            kv == status_views(known@),
            status_views(m@) == kv.restrict(host_id_set(hosts@.subrange(0, i as int))),
        decreases hosts@.len() - i,
    {
        let id = hosts[i].id;
        let ghost before = host_id_set(hosts@.subrange(0, i as int));
        let ghost after = host_id_set(hosts@.subrange(0, i as int + 1));
        assert(after =~= before.insert(id)) by {
            assert forall|x: u32| after.contains(x) implies before.insert(id).contains(x) by {
                let j = choose|j: int| 0 <= j < i + 1 && (#[trigger] hosts@.subrange(0, i as int + 1)[j]).id == x;
                if j < i {
                    assert(hosts@.subrange(0, i as int)[j] == hosts@[j]);
                }
            }
            assert forall|x: u32| before.insert(id).contains(x) implies after.contains(x) by {
                if x == id {
                    assert(hosts@.subrange(0, i as int + 1)[i as int] == hosts@[i as int]);
                } else {
                    let j = choose|j: int| 0 <= j < i && (#[trigger] hosts@.subrange(0, i as int)[j]).id == x;
                    assert(hosts@.subrange(0, i as int + 1)[j] == hosts@[j]);
                }
            }
        }
        match known.get(&id) {
            Some(v) => {
                assert(known@.contains_key(id) && known@[id] == *v);
                assert(kv.contains_key(id) && kv[id] == v@);
                let copy = copy_statuses(v);
                let ghost old_m = m@;
                m.insert(id, copy);
                assert(m@ == old_m.insert(id, copy));
                assert(status_views(m@) =~= status_views(old_m).insert(id, v@));
                assert(status_views(m@) =~= kv.restrict(after));
            },
            None => {
                assert(status_views(m@) =~= kv.restrict(after));
            },
        }
        i = i + 1;
    }
    assert(hosts@.subrange(0, hosts@.len() as int) =~= hosts@);
    let mut j: usize = 0;
    while j < hosts.len()
        invariant
            j <= hosts@.len(),
            kv == status_views(known@),
            status_views(m@) == synced(hosts@, kv, j as int),
        decreases hosts@.len() - j,
    {
        let id = hosts[j].id;
        let n = hosts[j].endpoints.len();
        let keep = match m.get(&id) {
            Some(v) => v.len() == n,
            None => false,
        };
        if !keep {
            let fresh = unknown_statuses(n);
            m.insert(id, fresh);
        }
        assert(status_views(m@) =~= synced(hosts@, kv, j as int + 1));
        j = j + 1;
    }
    m
}

} // verus!
