//! Walking a map in the order of its keys.

use std::collections::BTreeMap;
use vstd::prelude::*;
use vstd::std_specs::cmp::OrdSpec;
use vstd::std_specs::iter::IteratorSpec;

verus! {

/// `ids` lists exactly the members of `dom`, smallest first.
pub open spec fn lists_in_order(ids: Seq<u64>, dom: Set<u64>) -> bool {
    &&& forall|i: int, j: int| 0 <= i < j < ids.len() ==> ids[i] < ids[j]
    &&& forall|k: u64| dom.contains(k) <==> ids.contains(k)
}

/// The members of `dom`, smallest first.
pub open spec fn ids_in_order(dom: Set<u64>) -> Seq<u64> {
    choose|ids: Seq<u64>| lists_in_order(ids, dom)
}

/// A set has at most one listing.
pub proof fn lemma_listing_unique(a: Seq<u64>, b: Seq<u64>, dom: Set<u64>)
    requires
        lists_in_order(a, dom),
        lists_in_order(b, dom),
    ensures
        a == b,
    decreases a.len(),
{
    if a.len() == 0 {
        if b.len() > 0 {
            assert(b.contains(b[0]));
            assert(a.contains(b[0]));
        }
        assert(a =~= b);
    } else {
        let x = a.last();
        assert(a.contains(x));
        assert(b.contains(x));
        let y = b.last();
        assert(b.contains(y));
        assert(a.contains(y));
        assert(x == y);
        let rest = dom.remove(x);
        let a0 = a.drop_last();
        let b0 = b.drop_last();
        assert forall|k: u64| rest.contains(k) <==> a0.contains(k) by {
            if rest.contains(k) {
                assert(a.contains(k));
                let i = choose|i: int| 0 <= i < a.len() && a[i] == k;
                assert(a0[i] == k);
            }
            if a0.contains(k) {
                let i = choose|i: int| 0 <= i < a0.len() && a0[i] == k;
                assert(a[i] == k);
                assert(a.contains(k));
            }
        }
        assert forall|k: u64| rest.contains(k) <==> b0.contains(k) by {
            if rest.contains(k) {
                assert(b.contains(k));
                let i = choose|i: int| 0 <= i < b.len() && b[i] == k;
                assert(b0[i] == k);
            }
            if b0.contains(k) {
                let i = choose|i: int| 0 <= i < b0.len() && b0[i] == k;
                assert(b[i] == k);
                assert(b.contains(k));
            }
        }
        lemma_listing_unique(a0, b0, rest);
        assert(a =~= a0.push(x));
        assert(b =~= b0.push(y));
    }
}

/// Whoever holds a listing of `dom` holds `ids_in_order(dom)`.
pub proof fn lemma_listing_is_ids_in_order(ids: Seq<u64>, dom: Set<u64>)
    requires
        lists_in_order(ids, dom),
    ensures
        ids == ids_in_order(dom),
{
    lemma_listing_unique(ids, ids_in_order(dom), dom);
}

/// The keys of a listing of entries.
pub open spec fn entry_ids<V>(entries: Seq<(u64, &V)>) -> Seq<u64> {
    entries.map_values(|e: (u64, &V)| e.0)
}

/// The entries of `map`, smallest key first.
pub fn entries_in_order<V>(map: &BTreeMap<u64, V>) -> (r: Vec<(u64, &V)>)
    ensures
        entry_ids(r@) == ids_in_order(map@.dom()),
        forall|i: int|
            0 <= i < r.len() ==> map@.contains_key(#[trigger] r[i].0) && map@[r[i].0] == *r[i].1,
{
    let mut out: Vec<(u64, &V)> = Vec::new();
    let ghost all = map.iter().remaining();
    for kv in it: map.iter()
        invariant
            it.seq() == all,
            out.len() == it.index(),
            forall|i: int|
                0 <= i < out.len() ==> out[i].0 == *all[i].0 && out[i].1 == all[i].1,
    {
        out.push((*kv.0, kv.1));
    }
    proof {
        let keys = all.map_values(|kv: (&u64, &V)| *kv.0);
        let ids = entry_ids(out@);
        assert(ids =~= keys);
        vstd::std_specs::btree::axiom_increasing_seq_meaning::<u64>(keys);
        assert forall|i: int, j: int| 0 <= i < j < ids.len() implies ids[i] < ids[j] by {
            assert(keys[i].cmp_spec(&keys[j]) is Less);
        }
        assert forall|k: u64| map@.dom().contains(k) <==> ids.contains(k) by {
            if map@.dom().contains(k) {
                assert(all.contains((&k, &map@[k])));
                let i = choose|i: int| 0 <= i < all.len() && all[i] == (&k, &map@[k]);
                assert(ids[i] == k);
            }
            if ids.contains(k) {
                let i = choose|i: int| 0 <= i < ids.len() && ids[i] == k;
                assert(map@.contains_key(*all[i].0));
            }
        }
        lemma_listing_is_ids_in_order(ids, map@.dom());
        assert forall|i: int| 0 <= i < out.len() implies map@.contains_key(#[trigger] out[i].0)
            && map@[out[i].0] == *out[i].1 by {
            assert(map@.contains_key(*all[i].0));
        }
    }
    out
}

/// One more step of a filter that walks a sequence from its start.
pub proof fn lemma_filter_step<A>(s: Seq<A>, pred: spec_fn(A) -> bool, i: int)
    requires
        0 <= i < s.len(),
    ensures
        s.take(i + 1).filter(pred) == if pred(s[i]) {
            s.take(i).filter(pred).push(s[i])
        } else {
            s.take(i).filter(pred)
        },
{
    reveal(Seq::filter);
    let next = s.take(i + 1);
    assert(next.drop_last() =~= s.take(i));
    assert(next.last() == s[i]);
}

/// What a filter keeps first is the first element it keeps.
pub proof fn lemma_filter_first<A>(s: Seq<A>, pred: spec_fn(A) -> bool, i: int)
    requires
        0 <= i < s.len(),
        pred(s[i]),
        s.take(i).filter(pred).len() == 0,
    ensures
        s.filter(pred).len() > 0,
        s.filter(pred)[0] == s[i],
{
    lemma_filter_step(s, pred, i);
    Seq::filter_distributes_over_add(s.take(i + 1), s.skip(i + 1), pred);
    assert(s =~= s.take(i + 1) + s.skip(i + 1));
}

} // verus!
