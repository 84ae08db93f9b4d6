//! Sequences of keyed entries and the map they stand for.
//!
//! The in-memory backends keep their records in vectors. Their contracts
//! speak of maps, so this module relates a sequence of `(key, value)` pairs
//! whose keys are pairwise distinct to the map from each key to its value.

use vstd::prelude::*;

verus! {

/// No key occurs at two positions of `s`.
pub open spec fn distinct_keys<K, V>(s: Seq<(K, V)>) -> bool {
    forall|i: int, j: int| 0 <= i < j < s.len() ==> (#[trigger] s[i]).0 != (#[trigger] s[j]).0
}

/// `k` is the key of some entry of `s`.
pub open spec fn has_key<K, V>(s: Seq<(K, V)>, k: K) -> bool {
    exists|i: int| 0 <= i < s.len() && (#[trigger] s[i]).0 == k
}

/// The map that sends the key of each entry of `s` to its value. Where a key
/// occurs more than once the last entry wins.
pub open spec fn as_map<K, V>(s: Seq<(K, V)>) -> Map<K, V>
    decreases s.len(),
{
    if s.len() == 0 {
        Map::empty()
    } else {
        as_map(s.drop_last()).insert(s.last().0, s.last().1)
    }
}

/// The domain of the map is the set of keys that occur in the sequence.
pub proof fn lemma_as_map_domain<K, V>(s: Seq<(K, V)>, k: K)
    ensures
        as_map(s).contains_key(k) <==> has_key(s, k),
    decreases s.len(),
{
    if s.len() > 0 {
        let front = s.drop_last();
        lemma_as_map_domain(front, k);
        if has_key(front, k) {
            let i = choose|i: int| 0 <= i < front.len() && (#[trigger] front[i]).0 == k;
            assert(s[i].0 == k);
        }
        if has_key(s, k) {
            let i = choose|i: int| 0 <= i < s.len() && (#[trigger] s[i]).0 == k;
            if i < s.len() - 1 {
                assert(front[i].0 == k);
            }
        }
    }
}

/// With distinct keys, the map holds at each entry's key that entry's value.
pub proof fn lemma_as_map_entry<K, V>(s: Seq<(K, V)>, i: int)
    requires
        distinct_keys(s),
        0 <= i < s.len(),
    ensures
        as_map(s).contains_key(s[i].0),
        as_map(s)[s[i].0] == s[i].1,
    decreases s.len(),
{
    let front = s.drop_last();
    if i < s.len() - 1 {
        assert(distinct_keys(front)) by {
            assert forall|a: int, b: int| 0 <= a < b < front.len() implies (#[trigger] front[a]).0
                != (#[trigger] front[b]).0 by {
                assert(s[a].0 != s[b].0);
            }
        }
        lemma_as_map_entry(front, i);
        assert(front[i] == s[i]);
        assert(s[i].0 != s[s.len() - 1].0);
    }
}

/// A key that no entry carries is not in the map.
pub proof fn lemma_as_map_absent<K, V>(s: Seq<(K, V)>, k: K)
    requires
        forall|i: int| 0 <= i < s.len() ==> (#[trigger] s[i]).0 != k,
    ensures
        !as_map(s).contains_key(k),
{
    lemma_as_map_domain(s, k);
}

/// Appending an entry inserts it into the map; a fresh key keeps the keys
/// distinct.
pub proof fn lemma_as_map_push<K, V>(s: Seq<(K, V)>, k: K, v: V)
    ensures
        as_map(s.push((k, v))) == as_map(s).insert(k, v),
        distinct_keys(s) && !as_map(s).contains_key(k) ==> distinct_keys(s.push((k, v))),
{
    let t = s.push((k, v));
    assert(t.drop_last() =~= s);
    if distinct_keys(s) && !as_map(s).contains_key(k) {
        lemma_as_map_domain(s, k);
        assert forall|a: int, b: int| 0 <= a < b < t.len() implies (#[trigger] t[a]).0 != (
        #[trigger] t[b]).0 by {
            if b < s.len() {
                assert(s[a].0 != s[b].0);
            } else {
                assert(s[a].0 != k);
            }
        }
    }
}

/// Removing the entry at `i` removes its key from the map and leaves every
/// other key as it was.
pub proof fn lemma_as_map_remove<K, V>(s: Seq<(K, V)>, i: int)
    requires
        distinct_keys(s),
        0 <= i < s.len(),
    ensures
        distinct_keys(s.remove(i)),
        as_map(s.remove(i)) == as_map(s).remove(s[i].0),
{
    let t = s.remove(i);
    assert forall|a: int, b: int| 0 <= a < b < t.len() implies (#[trigger] t[a]).0 != (
    #[trigger] t[b]).0 by {
        let a0 = if a < i { a } else { a + 1 };
        let b0 = if b < i { b } else { b + 1 };
        assert(s[a0].0 != s[b0].0);
    }
    let want = as_map(s).remove(s[i].0);
    assert forall|k: K| as_map(t).contains_key(k) <==> want.contains_key(k) by {
        lemma_as_map_domain(t, k);
        lemma_as_map_domain(s, k);
        if has_key(t, k) {
            let a = choose|a: int| 0 <= a < t.len() && (#[trigger] t[a]).0 == k;
            let a0 = if a < i { a } else { a + 1 };
            assert(s[a0].0 == k);
            if a0 < i {
                assert(s[a0].0 != s[i].0);
            } else {
                assert(s[i].0 != s[a0].0);
            }
        }
        if has_key(s, k) && k != s[i].0 {
            let a = choose|a: int| 0 <= a < s.len() && (#[trigger] s[a]).0 == k;
            let a1 = if a < i { a } else { a - 1 };
            assert(t[a1].0 == k);
        }
    }
    assert forall|k: K| as_map(t).contains_key(k) implies as_map(t)[k] == want[k] by {
        lemma_as_map_domain(t, k);
        let a = choose|a: int| 0 <= a < t.len() && (#[trigger] t[a]).0 == k;
        let a0 = if a < i { a } else { a + 1 };
        lemma_as_map_entry(t, a);
        lemma_as_map_entry(s, a0);
    }
    assert(as_map(t) =~= want);
}

/// Replacing the value at `i` under the same key overwrites that key in the
/// map.
pub proof fn lemma_as_map_update<K, V>(s: Seq<(K, V)>, i: int, v: V)
    requires
        distinct_keys(s),
        0 <= i < s.len(),
    ensures
        distinct_keys(s.update(i, (s[i].0, v))),
        as_map(s.update(i, (s[i].0, v))) == as_map(s).insert(s[i].0, v),
{
    let t = s.update(i, (s[i].0, v));
    assert forall|a: int, b: int| 0 <= a < b < t.len() implies (#[trigger] t[a]).0 != (
    #[trigger] t[b]).0 by {
        assert(s[a].0 != s[b].0);
    }
    let want = as_map(s).insert(s[i].0, v);
    assert forall|k: K| as_map(t).contains_key(k) <==> want.contains_key(k) by {
        lemma_as_map_domain(t, k);
        lemma_as_map_domain(s, k);
        if has_key(t, k) {
            let a = choose|a: int| 0 <= a < t.len() && (#[trigger] t[a]).0 == k;
            assert(s[a].0 == k);
        }
        if has_key(s, k) {
            let a = choose|a: int| 0 <= a < s.len() && (#[trigger] s[a]).0 == k;
            assert(t[a].0 == k);
        }
        if k == s[i].0 {
            assert(t[i].0 == k);
        }
    }
    assert forall|k: K| as_map(t).contains_key(k) implies as_map(t)[k] == want[k] by {
        lemma_as_map_domain(t, k);
        let a = choose|a: int| 0 <= a < t.len() && (#[trigger] t[a]).0 == k;
        lemma_as_map_entry(t, a);
        lemma_as_map_entry(s, a);
    }
    assert(as_map(t) =~= want);
}

/// A sequence with distinct keys has as many keys as entries.
pub proof fn lemma_distinct_count<K, V>(s: Seq<(K, V)>)
    requires
        distinct_keys(s),
    ensures
        as_map(s).dom().finite(),
        as_map(s).dom().len() == s.len(),
    decreases s.len(),
{
    if s.len() == 0 {
        assert(as_map(s).dom() =~= Set::<K>::empty());
    } else {
        let front = s.drop_last();
        assert(distinct_keys(front)) by {
            assert forall|a: int, b: int| 0 <= a < b < front.len() implies (#[trigger] front[a]).0
                != (#[trigger] front[b]).0 by {
                assert(s[a].0 != s[b].0);
            }
        }
        lemma_distinct_count(front);
        assert(!as_map(front).contains_key(s.last().0)) by {
            assert forall|i: int| 0 <= i < front.len() implies (#[trigger] front[i]).0
                != s.last().0 by {
                assert(s[i].0 != s[s.len() - 1].0);
            }
            lemma_as_map_absent(front, s.last().0);
        }
        assert(as_map(s).dom() =~= as_map(front).dom().insert(s.last().0));
    }
}

/// `cur` is what a purge has made of `orig` so far: nothing was added or
/// changed, everything that `keep` holds of is still there, and from
/// position `from` on only such entries are left.
pub open spec fn purged_from<K, V>(
    cur: Seq<(K, V)>,
    orig: Map<K, V>,
    keep: spec_fn(V) -> bool,
    from: int,
) -> bool {
    &&& distinct_keys(cur)
    &&& forall|k: K| #[trigger]
        as_map(cur).contains_key(k) ==> orig.contains_key(k) && orig[k] == as_map(cur)[k]
    &&& forall|k: K| orig.contains_key(k) && keep(orig[k]) ==> #[trigger] as_map(cur).contains_key(k)
    &&& forall|j: int| from <= j < cur.len() ==> keep((#[trigger] cur[j]).1)
}

/// Dropping an entry that `keep` does not hold of carries a purge one
/// position further.
pub proof fn lemma_purge_drop<K, V>(
    cur: Seq<(K, V)>,
    orig: Map<K, V>,
    keep: spec_fn(V) -> bool,
    i: int,
)
    requires
        purged_from(cur, orig, keep, i + 1),
        0 <= i < cur.len(),
        !keep(cur[i].1),
    ensures
        purged_from(cur.remove(i), orig, keep, i),
{
    lemma_as_map_remove(cur, i);
    lemma_as_map_entry(cur, i);
    let rest = cur.remove(i);
    assert forall|j: int| i <= j < rest.len() implies keep((#[trigger] rest[j]).1) by {
        assert(rest[j] == cur[j + 1]);
    }
}

/// Once a purge has passed every position, what is left is exactly the part
/// of the map that `keep` holds of.
pub proof fn lemma_purge_done<K, V>(cur: Seq<(K, V)>, orig: Map<K, V>, keep: spec_fn(V) -> bool)
    requires
        purged_from(cur, orig, keep, 0),
    ensures
        as_map(cur) == orig.restrict(Set::new(|k: K| orig.contains_key(k) && keep(orig[k]))),
{
    assert forall|k: K| #[trigger] as_map(cur).contains_key(k) implies keep(orig[k]) by {
        lemma_as_map_domain(cur, k);
        let j = choose|j: int| 0 <= j < cur.len() && (#[trigger] cur[j]).0 == k;
        lemma_as_map_entry(cur, j);
    }
    assert(as_map(cur) =~= orig.restrict(
        Set::new(|k: K| orig.contains_key(k) && keep(orig[k])),
    ));
}

} // verus!
