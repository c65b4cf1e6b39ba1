//! Ordering texts as `String`'s `Ord` does (character by character, a
//! prefix first) and sorting by such keys.

use vstd::prelude::*;

verus! {

/// Whether `a` comes before `b`: at the first difference its character is
/// smaller, or it is a proper prefix of `b`.
pub open spec fn text_lt(a: Seq<char>, b: Seq<char>) -> bool
    decreases a.len(),
{
    if a.len() == 0 {
        b.len() > 0
    } else if b.len() == 0 {
        false
    } else if a[0] != b[0] {
        a[0] < b[0]
    } else {
        text_lt(a.drop_first(), b.drop_first())
    }
}

/// No text comes before itself.
pub proof fn lemma_text_lt_irreflexive(a: Seq<char>)
    ensures
        !text_lt(a, a),
    decreases a.len(),
{
    if a.len() > 0 {
        lemma_text_lt_irreflexive(a.drop_first());
    }
}

/// Of two different texts, one comes before the other, and not both.
pub proof fn lemma_text_lt_total(a: Seq<char>, b: Seq<char>)
    ensures
        a != b ==> (text_lt(a, b) || text_lt(b, a)),
        !(text_lt(a, b) && text_lt(b, a)),
    decreases a.len(),
{
    if a.len() > 0 && b.len() > 0 && a[0] == b[0] {
        lemma_text_lt_total(a.drop_first(), b.drop_first());
        if a != b {
            assert(a.drop_first() != b.drop_first()) by {
                if a.drop_first() == b.drop_first() {
                    assert(a =~= seq![a[0]] + a.drop_first());
                    assert(b =~= seq![b[0]] + b.drop_first());
                }
            }
        }
    } else if a.len() == 0 && b.len() == 0 {
        assert(a =~= b);
    }
}

/// The order of texts is transitive.
pub proof fn lemma_text_lt_transitive(a: Seq<char>, b: Seq<char>, c: Seq<char>)
    requires
        text_lt(a, b),
        text_lt(b, c),
    ensures
        text_lt(a, c),
    decreases a.len(),
{
    if a.len() > 0 && b.len() > 0 && c.len() > 0 && a[0] == b[0] && b[0] == c[0] {
        lemma_text_lt_transitive(a.drop_first(), b.drop_first(), c.drop_first());
    }
}

proof fn lemma_text_lt_skip(a: Seq<char>, b: Seq<char>, i: int)
    requires
        0 <= i <= a.len(),
        i <= b.len(),
        forall|j: int| 0 <= j < i ==> a[j] == b[j],
    ensures
        text_lt(a, b) == text_lt(a.subrange(i, a.len() as int), b.subrange(i, b.len() as int)),
    decreases i,
{
    if i > 0 {
        assert forall|j: int| 0 <= j < i - 1 implies a.drop_first()[j] == b.drop_first()[j] by {
            assert(a.drop_first()[j] == a[j + 1]);
        }
        lemma_text_lt_skip(a.drop_first(), b.drop_first(), i - 1);
        assert(a.drop_first().subrange(i - 1, a.len() - 1) =~= a.subrange(i, a.len() as int));
        assert(b.drop_first().subrange(i - 1, b.len() - 1) =~= b.subrange(i, b.len() as int));
    } else {
        assert(a.subrange(0, a.len() as int) =~= a);
        assert(b.subrange(0, b.len() as int) =~= b);
    }
}

/// Whether `a` comes before `b`.
pub fn text_less(a: &[char], b: &[char]) -> (r: bool)
    ensures
        r == text_lt(a@, b@),
{
    let mut i: usize = 0;
    while i < a.len() && i < b.len() && a[i] == b[i]
        invariant
            i <= a@.len(),
            i <= b@.len(),
            forall|j: int| 0 <= j < i ==> a@[j] == b@[j],
        decreases a@.len() - i,
    {
        i = i + 1;
    }
    proof {
        lemma_text_lt_skip(a@, b@, i as int);
    }
    if i == a.len() {
        i < b.len()
    } else if i == b.len() {
        false
    } else {
        a[i] < b[i]
    }
}

/// Whether item `x` comes before item `y` when items are ordered by their
/// text key, then their number, then their position.
pub open spec fn item_before(keys: Seq<Seq<char>>, nums: Seq<u32>, x: int, y: int) -> bool {
    ||| text_lt(keys[x], keys[y])
    ||| (keys[x] == keys[y] && nums[x] < nums[y])
    ||| (keys[x] == keys[y] && nums[x] == nums[y] && x < y)
}

proof fn lemma_item_before_transitive(keys: Seq<Seq<char>>, nums: Seq<u32>, x: int, y: int, z: int)
    requires
        item_before(keys, nums, x, y),
        item_before(keys, nums, y, z),
    ensures
        item_before(keys, nums, x, z),
{
    if text_lt(keys[x], keys[y]) && text_lt(keys[y], keys[z]) {
        lemma_text_lt_transitive(keys[x], keys[y], keys[z]);
    }
}

proof fn lemma_item_before_total(keys: Seq<Seq<char>>, nums: Seq<u32>, x: int, y: int)
    requires
        x != y,
    ensures
        item_before(keys, nums, x, y) || item_before(keys, nums, y, x),
        !(item_before(keys, nums, x, y) && item_before(keys, nums, y, x)),
{
    lemma_text_lt_total(keys[x], keys[y]);
    lemma_text_lt_irreflexive(keys[x]);
}

/// Whether `perm` lists positions below `n`, each at most once, in the item
/// order.
pub open spec fn sorted_positions(keys: Seq<Seq<char>>, nums: Seq<u32>, perm: Seq<usize>, n: int) -> bool {
    &&& forall|i: int| 0 <= i < perm.len() ==> (#[trigger] perm[i]) < n
    &&& forall|i: int, j: int| 0 <= i < j < perm.len() ==> item_before(keys, nums, perm[i] as int, perm[j] as int)
}

/// Whether item `x` has a smaller key than item `y`, or the same key and a
/// smaller number.
fn key_before(keys: &Vec<Vec<char>>, nums: &Vec<u32>, x: usize, y: usize) -> (r: bool)
    requires
        x < keys@.len(),
        y < keys@.len(),
        keys@.len() == nums@.len(),
    ensures
        r == (text_lt(keys@[x as int]@, keys@[y as int]@) || (keys@[x as int]@ == keys@[y as int]@ && nums@[x as int] < nums@[y as int])),
{
    text_less(keys[x].as_slice(), keys[y].as_slice()) || (crate::text::chars_eq(keys[x].as_slice(), keys[y].as_slice())
        && nums[x] < nums[y])
}

/// Orders the positions of items by their text key, then their number, then
/// their position (a stable sort by key and number): the result lists every
/// position once, in that order.
pub fn sort_positions(keys: &Vec<Vec<char>>, nums: &Vec<u32>) -> (perm: Vec<usize>)
    requires
        keys@.len() == nums@.len(),
    ensures
        perm@.len() == keys@.len(),
        sorted_positions(keys@.map_values(|k: Vec<char>| k@), nums@, perm@, keys@.len() as int),
        forall|p: usize| p < keys@.len() ==> #[trigger] perm@.contains(p),
{
    let ghost ks = keys@.map_values(|k: Vec<char>| k@);
    let n = keys.len();
    let mut perm: Vec<usize> = Vec::new();
    let mut i: usize = 0;
    while i < n
        invariant
            n == keys@.len(),
            n == nums@.len(),
            ks == keys@.map_values(|k: Vec<char>| k@),
            i <= n,
            perm@.len() == i,
            sorted_positions(ks, nums@, perm@, i as int),
            forall|p: usize| p < i ==> #[trigger] perm@.contains(p),
        decreases n - i,
    {
        // Find where item `i` goes: after every item that comes before it.
        let mut j = perm.len();
        while j > 0 && key_before(keys, nums, i, perm[j - 1])
            invariant
                j <= perm@.len(),
                perm@.len() == i,
                i < n,
                n == keys@.len(),
                n == nums@.len(),
                ks == keys@.map_values(|k: Vec<char>| k@),
                sorted_positions(ks, nums@, perm@, i as int),
                forall|t: int| j <= t < perm@.len() ==> item_before(ks, nums@, i as int, #[trigger] perm@[t] as int),
            decreases j,
        {
            proof {
                let q = perm@[j - 1] as int;
                assert(ks[q] == keys@[q]@);
                assert(ks[i as int] == keys@[i as int]@);
            }
            j = j - 1;
        }
        proof {
            if j > 0 {
                let q = perm@[j - 1] as int;
                assert(ks[q] == keys@[q]@);
                assert(ks[i as int] == keys@[i as int]@);
                assert(q < i);
                lemma_item_before_total(ks, nums@, q, i as int);
                assert(item_before(ks, nums@, q, i as int));
            }
        }
        let ghost old_perm = perm@;
        perm.insert(j, i);
        proof {
            assert(perm@ =~= old_perm.subrange(0, j as int).push(i) + old_perm.subrange(j as int, old_perm.len() as int));
            assert forall|a: int, b: int| 0 <= a < b < perm@.len() implies item_before(ks, nums@, perm@[a] as int, perm@[b] as int) by {
                if a < j && b < j {
                    assert(perm@[a] == old_perm[a] && perm@[b] == old_perm[b]);
                } else if a < j && b == j {
                    assert(perm@[a] == old_perm[a]);
                    if a < j - 1 {
                        lemma_item_before_transitive(ks, nums@, old_perm[a] as int, old_perm[j - 1] as int, i as int);
                    }
                } else if a < j && b > j {
                    assert(perm@[a] == old_perm[a] && perm@[b] == old_perm[b - 1]);
                } else if a == j {
                    assert(perm@[b] == old_perm[b - 1]);
                } else {
                    assert(perm@[a] == old_perm[a - 1] && perm@[b] == old_perm[b - 1]);
                }
            }
            assert forall|p: usize| p < i + 1 implies #[trigger] perm@.contains(p) by {
                if p == i {
                    assert(perm@[j as int] == i);
                } else {
                    assert(old_perm.contains(p));
                    let t = choose|t: int| 0 <= t < old_perm.len() && old_perm[t] == p;
                    if t < j {
                        assert(perm@[t] == p);
                    } else {
                        assert(perm@[t + 1] == p);
                    }
                }
            }
        }
        i = i + 1;
    }
    perm
}

} // verus!
