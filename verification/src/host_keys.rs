//! Which server keys the user trusts: checking the key a server presents
//! against the trusted keys, and trusting a new key for an endpoint.

use vstd::prelude::*;
use crate::model::{keys_view, TrustedHostKey, TrustedKeyView};
use crate::text::str_eq;

verus! {

/// What the user is asked when a server's key is not trusted.
#[derive(Clone, Debug)]
pub struct TrustChallenge {
    /// The key the server presented.
    pub proposed_key: TrustedHostKey,
    /// The fingerprint of a key trusted earlier for the same endpoint.
    pub previous_fingerprint: Option<String>,
}

/// The outcome of checking a server's key.
#[derive(Clone, Debug)]
pub enum HostKeyCheck {
    /// The key is trusted: the connection may go on.
    Trusted,
    /// The key is not trusted: the user must decide.
    NeedsTrust(TrustChallenge),
}

/// The trusted keys recorded for the endpoint `host:port`, in order.
pub open spec fn keys_for(keys: Seq<TrustedKeyView>, host: Seq<char>, port: u16) -> Seq<
    TrustedKeyView,
>
    decreases keys.len(),
{
    if keys.len() == 0 {
        Seq::empty()
    } else {
        let rest = keys_for(keys.drop_last(), host, port);
        let k = keys.last();
        if k.host == host && k.port == port {
            rest.push(k)
        } else {
            rest
        }
    }
}

/// The trusted keys not recorded for the endpoint `host:port`, in order.
pub open spec fn keys_not_for(keys: Seq<TrustedKeyView>, host: Seq<char>, port: u16) -> Seq<
    TrustedKeyView,
>
    decreases keys.len(),
{
    if keys.len() == 0 {
        Seq::empty()
    } else {
        let rest = keys_not_for(keys.drop_last(), host, port);
        let k = keys.last();
        if k.host == host && k.port == port {
            rest
        } else {
            rest.push(k)
        }
    }
}

/// Whether two key records hold the same key.
pub open spec fn same_key(a: TrustedKeyView, b: TrustedKeyView) -> bool {
    a.algorithm == b.algorithm && a.public_key_base64 == b.public_key_base64
}

/// Whether some key in `keys` is the same key as `k`.
pub open spec fn has_same_key(keys: Seq<TrustedKeyView>, k: TrustedKeyView) -> bool {
    exists|i: int| 0 <= i < keys.len() && same_key(#[trigger] keys[i], k)
}

/// The check of a server key: trusted when a key recorded for the endpoint
/// is the same key; otherwise a challenge that carries the fingerprint of the
/// first key recorded for the endpoint, if there is one.
pub open spec fn check_spec(keys: Seq<TrustedKeyView>, host: Seq<char>, port: u16, incoming: TrustedKeyView) -> Option<
    Option<Seq<char>>,
> {
    let own = keys_for(keys, host, port);
    if own.len() == 0 {
        Some(None)
    } else if has_same_key(own, incoming) {
        None
    } else {
        Some(Some(own[0].fingerprint_sha256))
    }
}

/// The spec value of a check outcome: `None` for trusted, otherwise the
/// previous fingerprint of the challenge.
pub open spec fn check_outcome(r: HostKeyCheck) -> Option<Option<Seq<char>>> {
    match r {
        HostKeyCheck::Trusted => None,
        HostKeyCheck::NeedsTrust(ch) => Some(
            match ch.previous_fingerprint {
                Some(f) => Some(f@),
                None => None,
            },
        ),
    }
}

/// Whether a key record is for the endpoint `host:port`.
fn is_for_endpoint(k: &TrustedHostKey, host: &str, port: u16) -> (r: bool)
    ensures
        r == (k@.host == host@ && k@.port == port),
{
    k.port == port && str_eq(k.host.as_str(), host)
}

/// Checks the key a server at `host:port` presented against the trusted keys.
pub fn check_server_key(
    trusted: &[TrustedHostKey],
    host: &str,
    port: u16,
    incoming: TrustedHostKey,
) -> (r: HostKeyCheck)
    ensures
        check_outcome(r) == check_spec(keys_view(trusted@), host@, port, incoming@),
        r matches HostKeyCheck::NeedsTrust(ch) ==> ch.proposed_key == incoming,
{
    let ghost all = keys_view(trusted@);
    let mut first: Option<usize> = None;
    let mut found = false;
    let mut i: usize = 0;
    while i < trusted.len()
        invariant
            i <= trusted@.len(),
            all == keys_view(trusted@),
            first is None <==> keys_for(all.subrange(0, i as int), host@, port).len() == 0,
            first matches Some(f) ==> f < trusted@.len() && all[f as int] == keys_for(
                all.subrange(0, i as int),
                host@,
                port,
            )[0],
            found == has_same_key(keys_for(all.subrange(0, i as int), host@, port), incoming@),
        decreases trusted@.len() - i,
    {
        let ghost before = keys_for(all.subrange(0, i as int), host@, port);
        proof {
            assert(all.subrange(0, i as int + 1).drop_last() =~= all.subrange(0, i as int));
            assert(all.subrange(0, i as int + 1).last() == trusted@[i as int]@);
        }
        let k = &trusted[i];
        if is_for_endpoint(k, host, port) {
            let ghost after = before.push(k@);
            if first.is_none() {
                first = Some(i);
            }
            if !found && str_eq(k.algorithm.as_str(), incoming.algorithm.as_str()) && str_eq(
                k.public_key_base64.as_str(),
                incoming.public_key_base64.as_str(),
            ) {
                found = true;
                assert(same_key(after[after.len() - 1], incoming@));
            }
            proof {
                if has_same_key(after, incoming@) && !found {
                    let j = choose|j: int| 0 <= j < after.len() && same_key(#[trigger] after[j], incoming@);
                    if j < before.len() {
                        assert(after[j] == before[j]);
                    }
                }
                if has_same_key(before, incoming@) {
                    let j = choose|j: int| 0 <= j < before.len() && same_key(#[trigger] before[j], incoming@);
                    assert(after[j] == before[j]);
                }
            }
        }
        i = i + 1;
    }
    assert(all.subrange(0, trusted@.len() as int) =~= all);
    if found {
        HostKeyCheck::Trusted
    } else {
        match first {
            None => HostKeyCheck::NeedsTrust(
                TrustChallenge { proposed_key: incoming, previous_fingerprint: None },
            ),
            Some(f) => HostKeyCheck::NeedsTrust(
                TrustChallenge {
                    proposed_key: incoming,
                    previous_fingerprint: Some(trusted[f].fingerprint_sha256.clone()),
                },
            ),
        }
    }
}

/// Makes `key` the one trusted key of its endpoint: keys recorded earlier
/// for the same host and port are dropped, and `key` is added last.
pub fn trust_host_key(keys: &mut Vec<TrustedHostKey>, key: TrustedHostKey)
    ensures
        keys_view(final(keys)@) == keys_not_for(keys_view(old(keys)@), key@.host, key@.port).push(
            key@,
        ),
{
    let ghost all = keys_view(keys@);
    let mut kept: Vec<TrustedHostKey> = Vec::new();
    let mut i: usize = 0;
    while i < keys.len()
        invariant
            i <= keys@.len(),
            all == keys_view(keys@),
            keys_view(kept@) == keys_not_for(all.subrange(0, i as int), key@.host, key@.port),
        decreases keys@.len() - i,
    {
        proof {
            assert(all.subrange(0, i as int + 1).drop_last() =~= all.subrange(0, i as int));
            assert(all.subrange(0, i as int + 1).last() == keys@[i as int]@);
        }
        if !is_for_endpoint(&keys[i], key.host.as_str(), key.port) {
            let ghost before = kept@;
            kept.push(keys[i].duplicate());
            assert(keys_view(kept@) =~= keys_view(before).push(keys@[i as int]@));
        }
        i = i + 1;
    }
    assert(all.subrange(0, keys@.len() as int) =~= all);
    let ghost before = kept@;
    kept.push(key);
    assert(keys_view(kept@) =~= keys_view(before).push(kept@.last()@));
    *keys = kept;
}

proof fn lemma_keys_for_of_not_for(keys: Seq<TrustedKeyView>, host: Seq<char>, port: u16)
    ensures
        keys_for(keys_not_for(keys, host, port), host, port).len() == 0,
    decreases keys.len(),
{
    if keys.len() > 0 {
        lemma_keys_for_of_not_for(keys.drop_last(), host, port);
        let rest = keys_not_for(keys.drop_last(), host, port);
        let k = keys.last();
        if !(k.host == host && k.port == port) {
            assert(rest.push(k).drop_last() =~= rest);
        }
    }
}

proof fn lemma_keys_for_push(keys: Seq<TrustedKeyView>, k: TrustedKeyView, host: Seq<char>, port: u16)
    ensures
        keys_for(keys.push(k), host, port) == (if k.host == host && k.port == port {
            keys_for(keys, host, port).push(k)
        } else {
            keys_for(keys, host, port)
        }),
{
    assert(keys.push(k).drop_last() =~= keys);
}

/// Once a key is trusted for its endpoint, a server at that endpoint that
/// presents the same key is trusted without a challenge.
pub proof fn trusted_key_is_accepted(keys: Seq<TrustedKeyView>, key: TrustedKeyView, presented: TrustedKeyView)
    requires
        same_key(presented, key),
    ensures
        check_spec(
            keys_not_for(keys, key.host, key.port).push(key),
            key.host,
            key.port,
            presented,
        ) == None::<Option<Seq<char>>>,
{
    let kept = keys_not_for(keys, key.host, key.port);
    lemma_keys_for_of_not_for(keys, key.host, key.port);
    lemma_keys_for_push(kept, key, key.host, key.port);
    let own = keys_for(kept.push(key), key.host, key.port);
    assert(own.len() == 1);
    assert(same_key(own[0], presented));
}

/// Trusting a key for one endpoint leaves the checks of every other
/// endpoint as they were.
pub proof fn trust_leaves_other_endpoints(
    keys: Seq<TrustedKeyView>,
    key: TrustedKeyView,
    host: Seq<char>,
    port: u16,
    presented: TrustedKeyView,
)
    requires
        !(host == key.host && port == key.port),
    ensures
        check_spec(keys_not_for(keys, key.host, key.port).push(key), host, port, presented)
            == check_spec(keys, host, port, presented),
{
    lemma_keys_for_drop_other(keys, key.host, key.port, host, port);
    lemma_keys_for_push(keys_not_for(keys, key.host, key.port), key, host, port);
}

proof fn lemma_keys_for_drop_other(
    keys: Seq<TrustedKeyView>,
    h1: Seq<char>,
    p1: u16,
    h2: Seq<char>,
    p2: u16,
)
    requires
        !(h1 == h2 && p1 == p2),
    ensures
        keys_for(keys_not_for(keys, h1, p1), h2, p2) == keys_for(keys, h2, p2),
    decreases keys.len(),
{
    if keys.len() > 0 {
        lemma_keys_for_drop_other(keys.drop_last(), h1, p1, h2, p2);
        let rest = keys_not_for(keys.drop_last(), h1, p1);
        let k = keys.last();
        if !(k.host == h1 && k.port == p1) {
            lemma_keys_for_push(rest, k, h2, p2);
        }
    }
}

} // verus!
