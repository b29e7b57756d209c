//! Stable ordering by text keys.
//!
//! A stable sort by key orders items by their key and keeps items with equal
//! keys in their given order; equivalently it orders the item indices by
//! the pair (key, index). That order is strict and total, so exactly one
//! arrangement satisfies it, and the contracts below pin the result.

use vstd::prelude::*;

verus! {

/// Strict lexicographic order on character sequences, by code point (the
/// order of `str` and `String`).
pub open spec fn seq_lt(a: Seq<char>, b: Seq<char>) -> bool
    decreases a.len(),
{
    if a.len() == 0 {
        b.len() > 0
    } else if b.len() == 0 {
        false
    } else if a[0] != b[0] {
        a[0] < b[0]
    } else {
        seq_lt(a.drop_first(), b.drop_first())
    }
}

/// Index `i` goes before index `j` when its key is smaller, or the keys are
/// equal and `i` came first.
pub open spec fn key_index_lt(keys: Seq<Seq<char>>, i: int, j: int) -> bool {
    seq_lt(keys[i], keys[j]) || (keys[i] == keys[j] && i < j)
}

/// `order` lists the indices of `keys` in stable-sorted order.
pub open spec fn is_stable_order(keys: Seq<Seq<char>>, order: Seq<usize>) -> bool {
    &&& order.len() == keys.len()
    &&& forall|k: int| 0 <= k < order.len() ==> (#[trigger] order[k]) < keys.len()
    &&& forall|a: int, b: int|
        0 <= a < b < order.len() ==> key_index_lt(keys, #[trigger] order[a] as int, #[trigger] order[b] as int)
}

pub proof fn lemma_seq_lt_irreflexive(a: Seq<char>)
    ensures
        !seq_lt(a, a),
    decreases a.len(),
{
    if a.len() > 0 {
        assert(a.drop_first() == a.drop_first());
        lemma_seq_lt_irreflexive(a.drop_first());
    }
}

pub proof fn lemma_seq_lt_transitive(a: Seq<char>, b: Seq<char>, c: Seq<char>)
    requires
        seq_lt(a, b),
        seq_lt(b, c),
    ensures
        seq_lt(a, c),
    decreases a.len(),
{
    if a.len() > 0 && b.len() > 0 && c.len() > 0 && a[0] == b[0] && b[0] == c[0] {
        lemma_seq_lt_transitive(a.drop_first(), b.drop_first(), c.drop_first());
    }
}

pub proof fn lemma_seq_lt_total(a: Seq<char>, b: Seq<char>)
    ensures
        seq_lt(a, b) || seq_lt(b, a) || a == b,
    decreases a.len(),
{
    if a.len() > 0 && b.len() > 0 {
        if a[0] == b[0] {
            lemma_seq_lt_total(a.drop_first(), b.drop_first());
            if a.drop_first() == b.drop_first() {
                assert(a =~= seq![a[0]] + a.drop_first());
                assert(b =~= seq![b[0]] + b.drop_first());
            }
        } else {
            assert(a[0] < b[0] || b[0] < a[0]);
        }
    } else if a.len() == 0 && b.len() == 0 {
        assert(a =~= b);
    }
}


/// Whether `a` comes strictly before `b` lexicographically.
pub fn chars_lt(a: &[char], b: &[char]) -> (r: bool)
    ensures
        r == seq_lt(a@, b@),
{
    let mut i: usize = 0;
    assert(a@.skip(0) =~= a@);
    assert(b@.skip(0) =~= b@);
    while i < a.len() && i < b.len() && a[i] == b[i]
        invariant
            i <= a.len(),
            i <= b.len(),
            seq_lt(a@, b@) == seq_lt(a@.skip(i as int), b@.skip(i as int)),
        decreases a.len() - i,
    {
        assert(a@.skip(i as int).drop_first() =~= a@.skip(i + 1));
        assert(b@.skip(i as int).drop_first() =~= b@.skip(i + 1));
        i += 1;
    }
    if i == a.len() {
        i < b.len()
    } else if i == b.len() {
        false
    } else {
        a[i] < b[i]
    }
}

/// The indices of `keys` in stable order of their keys.
pub fn stable_order(keys: &Vec<Vec<char>>) -> (order: Vec<usize>)
    ensures
        is_stable_order(keys@.map_values(|k: Vec<char>| k@), order@),
{
    let ghost ks = keys@.map_values(|k: Vec<char>| k@);
    let mut order: Vec<usize> = Vec::new();
    let mut i: usize = 0;
    while i < keys.len()
        invariant
            i <= keys.len(),
            ks == keys@.map_values(|k: Vec<char>| k@),
            order.len() == i,
            forall|k: int| 0 <= k < order.len() ==> (#[trigger] order@[k]) < i,
            forall|a: int, b: int|
                0 <= a < b < order.len() ==> key_index_lt(ks, #[trigger] order@[a] as int, #[trigger] order@[b] as int),
        decreases keys.len() - i,
    {
        // Find the insertion point: after every index whose key is not
        // larger than the new key.
        let mut p: usize = order.len();
        while p > 0 && chars_lt(keys[i].as_slice(), keys[order[p - 1]].as_slice())
            invariant
                p <= order.len(),
                i < keys.len(),
                ks == keys@.map_values(|k: Vec<char>| k@),
                forall|k: int| 0 <= k < order.len() ==> (#[trigger] order@[k]) < i,
                forall|k: int| p <= k < order.len() ==> seq_lt(ks[i as int], #[trigger] ks[order@[k] as int]),
            decreases p,
        {
            p -= 1;
        }
        proof {
            // Every index before p has a key not larger than the new key.
            if p > 0 {
                let q = order@[p - 1] as int;
                assert(!seq_lt(ks[i as int], ks[q]));
                assert forall|k: int| 0 <= k < p implies key_index_lt(ks, #[trigger] order@[k] as int, i as int) by {
                    let e = order@[k] as int;
                    lemma_seq_lt_total(ks[i as int], ks[q]);
                    if k < p - 1 {
                        assert(key_index_lt(ks, e, q));
                        if seq_lt(ks[e], ks[q]) {
                            if seq_lt(ks[q], ks[i as int]) {
                                lemma_seq_lt_transitive(ks[e], ks[q], ks[i as int]);
                            }
                        }
                    }
                }
            }
        }
        let ghost before = order@;
        order.insert(p, i);
        proof {
            assert(order@ == before.insert(p as int, i));
            assert forall|a: int, b: int|
                0 <= a < b < order.len() implies key_index_lt(ks, #[trigger] order@[a] as int, #[trigger] order@[b] as int) by {
                if b < p {
                    assert(order@[a] == before[a] && order@[b] == before[b]);
                } else if a < p && b == p {
                    assert(order@[a] == before[a]);
                } else if a < p && b > p {
                    assert(order@[a] == before[a] && order@[b] == before[b - 1]);
                } else if a == p && b > p {
                    assert(order@[b] == before[b - 1]);
                    assert(seq_lt(ks[i as int], ks[before[b - 1] as int]));
                } else {
                    assert(order@[a] == before[a - 1] && order@[b] == before[b - 1]);
                }
            }
        }
        i += 1;
    }
    order
}

/// Index `i` goes before index `j` when its count is larger, or the counts
/// are equal and `i` came first.
pub open spec fn count_index_before(counts: Seq<u32>, i: int, j: int) -> bool {
    counts[i] > counts[j] || (counts[i] == counts[j] && i < j)
}

/// `order` lists the indices of `counts` stably sorted by count, largest
/// first.
pub open spec fn is_stable_order_desc(counts: Seq<u32>, order: Seq<usize>) -> bool {
    &&& order.len() == counts.len()
    &&& forall|k: int| 0 <= k < order.len() ==> (#[trigger] order[k]) < counts.len()
    &&& forall|a: int, b: int|
        0 <= a < b < order.len() ==> count_index_before(counts, #[trigger] order[a] as int, #[trigger] order[b] as int)
}

/// The indices of `counts` stably sorted by count, largest first.
pub fn stable_order_desc(counts: &Vec<u32>) -> (order: Vec<usize>)
    ensures
        is_stable_order_desc(counts@, order@),
{
    let ghost cs = counts@;
    let mut order: Vec<usize> = Vec::new();
    let mut i: usize = 0;
    while i < counts.len()
        invariant
            i <= counts.len(),
            cs == counts@,
            order.len() == i,
            forall|k: int| 0 <= k < order.len() ==> (#[trigger] order@[k]) < i,
            forall|a: int, b: int|
                0 <= a < b < order.len() ==> count_index_before(cs, #[trigger] order@[a] as int, #[trigger] order@[b] as int),
        decreases counts.len() - i,
    {
        // Insert after every index whose count is not smaller.
        let mut p: usize = order.len();
        while p > 0 && counts[order[p - 1]] < counts[i]
            invariant
                p <= order.len(),
                i < counts.len(),
                cs == counts@,
                forall|k: int| 0 <= k < order.len() ==> (#[trigger] order@[k]) < i,
                forall|k: int| p <= k < order.len() ==> cs[#[trigger] order@[k] as int] < cs[i as int],
            decreases p,
        {
            p -= 1;
        }
        proof {
            if p > 0 {
                let q = order@[p - 1] as int;
                assert(cs[q] >= cs[i as int]);
                assert forall|k: int| 0 <= k < p implies count_index_before(cs, #[trigger] order@[k] as int, i as int) by {
                    if k < p - 1 {
                        assert(count_index_before(cs, order@[k] as int, q));
                    }
                }
            }
        }
        let ghost before = order@;
        order.insert(p, i);
        proof {
            assert(order@ == before.insert(p as int, i));
            assert forall|a: int, b: int|
                0 <= a < b < order.len() implies count_index_before(cs, #[trigger] order@[a] as int, #[trigger] order@[b] as int) by {
                if b < p {
                    assert(order@[a] == before[a] && order@[b] == before[b]);
                } else if a < p && b == p {
                    assert(order@[a] == before[a]);
                } else if a < p && b > p {
                    assert(order@[a] == before[a] && order@[b] == before[b - 1]);
                } else if a == p && b > p {
                    assert(order@[b] == before[b - 1]);
                } else {
                    assert(order@[a] == before[a - 1] && order@[b] == before[b - 1]);
                }
            }
        }
        i += 1;
    }
    order
}

/// `part` taken in the order of the indices in `order`.
pub open spec fn permuted<A>(part: Seq<A>, order: Seq<usize>) -> Seq<A> {
    order.map_values(|i: usize| part[i as int])
}

/// `order` lists each index below `n` exactly once.
pub open spec fn is_index_permutation(order: Seq<usize>, n: nat) -> bool {
    &&& order.len() == n
    &&& forall|k: int| 0 <= k < order.len() ==> (#[trigger] order[k]) < n
    &&& forall|a: int, b: int| 0 <= a < b < order.len() ==> #[trigger] order[a] != #[trigger] order[b]
}

/// Taking the items in the order of an index permutation keeps the same
/// items, each as often.
pub proof fn lemma_permuted_multiset<A>(part: Seq<A>, order: Seq<usize>)
    requires
        is_index_permutation(order, part.len()),
    ensures
        permuted(part, order).to_multiset() =~= part.to_multiset(),
    decreases part.len(),
{
    broadcast use vstd::seq_lib::group_to_multiset_ensures;
    broadcast use vstd::multiset::group_multiset_axioms;

    if part.len() == 0 {
        assert(permuted(part, order) =~= Seq::<A>::empty());
        assert(part =~= Seq::<A>::empty());
    } else {
        let n = part.len() as int;
        let j = order.last() as int;
        let o1 = order.drop_last();
        let o2 = o1.map_values(|x: usize| if (x as int) > j { (x - 1) as usize } else { x });
        let p2 = part.remove(j);
        assert forall|k: int| 0 <= k < o2.len() implies (#[trigger] o2[k]) < n - 1 by {
            assert(o1[k] == order[k]);
            assert(order[k] != order[n - 1]);
        }
        assert forall|a: int, b: int| 0 <= a < b < o2.len() implies #[trigger] o2[a] != #[trigger] o2[b] by {
            assert(o1[a] == order[a] && o1[b] == order[b]);
            assert(order[a] != order[b]);
            assert(order[a] != order[n - 1]);
            assert(order[b] != order[n - 1]);
        }
        lemma_permuted_multiset(p2, o2);
        assert forall|k: int| 0 <= k < o1.len() implies #[trigger] p2[o2[k] as int] == part[o1[k] as int] by {
            assert(o1[k] == order[k]);
            assert(order[k] != order[n - 1]);
        }
        assert(permuted(part, o1) =~= permuted(p2, o2));
        assert(permuted(part, order) =~= permuted(part, o1).push(part[j]));
        assert(part.to_multiset().count(part[j]) > 0) by {
            assert(part.contains(part[j]));
        }
        assert(part.to_multiset().remove(part[j]).insert(part[j]) =~= part.to_multiset());
    }
}

/// A stable order by text key visits each index once.
pub proof fn lemma_stable_order_is_permutation(keys: Seq<Seq<char>>, order: Seq<usize>)
    requires
        is_stable_order(keys, order),
    ensures
        is_index_permutation(order, keys.len()),
{
    assert forall|a: int, b: int| 0 <= a < b < order.len() implies #[trigger] order[a] != #[trigger] order[b] by {
        if order[a] == order[b] {
            lemma_seq_lt_irreflexive(keys[order[a] as int]);
        }
    }
}

/// A stable order by count visits each index once.
pub proof fn lemma_stable_order_desc_is_permutation(counts: Seq<u32>, order: Seq<usize>)
    requires
        is_stable_order_desc(counts, order),
    ensures
        is_index_permutation(order, counts.len()),
{
    assert forall|a: int, b: int| 0 <= a < b < order.len() implies #[trigger] order[a] != #[trigger] order[b] by {
        assert(count_index_before(counts, order[a] as int, order[b] as int));
    }
}

} // verus!
