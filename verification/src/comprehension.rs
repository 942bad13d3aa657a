//! List and map comprehensions as functions: build a vector or a map from
//! the items of a vector, with an optional filter, and flatten nested
//! comprehensions.
//!
//! The functions take closures. What a closure returns is known to the
//! verifier only through the closure's own contract, so the contracts here
//! say of every element which call produced it.

use std::collections::HashMap;
use std::hash::Hash;
use vstd::prelude::*;
use vstd::std_specs::hash::obeys_key_model;

verus! {

/// Whether `picked` lists, in increasing order, the positions of the items
/// that `keep` accepts, and `keep` rejects every other item.
pub open spec fn selects<T, P: Fn(&T) -> bool>(items: Seq<T>, keep: P, picked: Seq<int>) -> bool {
    &&& forall|k: int|
        0 <= k < picked.len() ==> 0 <= #[trigger] picked[k] < items.len() && call_ensures(
            keep,
            (&items[picked[k]],),
            true,
        )
    &&& forall|k: int, l: int| 0 <= k < l < picked.len() ==> picked[k] < picked[l]
    &&& forall|i: int|
        0 <= i < items.len() && !picked.contains(i) ==> call_ensures(
            keep,
            (&#[trigger] items[i],),
            false,
        )
}

/// `[f(x) for x in items]`: one element for each item, in order.
pub fn collect<T, U, F: Fn(&T) -> U>(items: &Vec<T>, f: F) -> (out: Vec<U>)
    requires
        forall|i: int| 0 <= i < items.len() ==> call_requires(f, (&#[trigger] items[i],)),
    ensures
        out.len() == items.len(),
        forall|i: int| 0 <= i < items.len() ==> call_ensures(f, (&items[i],), #[trigger] out[i]),
{
    let mut out: Vec<U> = Vec::new();
    let mut j: usize = 0;
    while j < items.len()
        invariant
            j <= items.len(),
            out.len() == j,
            forall|i: int| 0 <= i < items.len() ==> call_requires(f, (&#[trigger] items[i],)),
            forall|i: int| 0 <= i < j ==> call_ensures(f, (&items[i],), #[trigger] out[i]),
        decreases items.len() - j,
    {
        out.push(f(&items[j]));
        j += 1;
    }
    out
}

/// `[f(x) for x in items if keep(x)]`: one element for each item that
/// `keep` accepts, in order, and none for the others.
pub fn collect_if<T, U, P: Fn(&T) -> bool, F: Fn(&T) -> U>(items: &Vec<T>, keep: P, f: F) -> (out:
    Vec<U>)
    requires
        forall|i: int| 0 <= i < items.len() ==> call_requires(keep, (&#[trigger] items[i],)),
        forall|i: int| 0 <= i < items.len() ==> call_requires(f, (&#[trigger] items[i],)),
    ensures
        exists|picked: Seq<int>|
            {
                &&& selects(items@, keep, picked)
                &&& out.len() == picked.len()
                &&& forall|k: int|
                    0 <= k < picked.len() ==> call_ensures(
                        f,
                        (&items[picked[k]],),
                        #[trigger] out[k],
                    )
            },
{
    let mut out: Vec<U> = Vec::new();
    let ghost mut picked: Seq<int> = Seq::empty();
    let mut j: usize = 0;
    while j < items.len()
        invariant
            j <= items.len(),
            forall|i: int| 0 <= i < items.len() ==> call_requires(keep, (&#[trigger] items[i],)),
            forall|i: int| 0 <= i < items.len() ==> call_requires(f, (&#[trigger] items[i],)),
            out.len() == picked.len(),
            forall|k: int|
                0 <= k < picked.len() ==> 0 <= #[trigger] picked[k] < j && call_ensures(
                    keep,
                    (&items[picked[k]],),
                    true,
                ),
            forall|k: int, l: int| 0 <= k < l < picked.len() ==> picked[k] < picked[l],
            forall|i: int|
                0 <= i < j && !picked.contains(i) ==> call_ensures(
                    keep,
                    (&#[trigger] items[i],),
                    false,
                ),
            forall|k: int|
                0 <= k < picked.len() ==> call_ensures(f, (&items[picked[k]],), #[trigger] out[k]),
        decreases items.len() - j,
    {
        let ghost before = picked;
        if keep(&items[j]) {
            out.push(f(&items[j]));
            proof {
                picked = before.push(j as int);
                assert forall|i: int| 0 <= i < j + 1 && !picked.contains(i) implies call_ensures(
                    keep,
                    (&#[trigger] items[i],),
                    false,
                ) by {
                    assert(picked[before.len() as int] == j);
                    if i < j && before.contains(i) {
                        let k = choose|k: int| 0 <= k < before.len() && before[k] == i;
                        assert(picked[k] == i);
                    }
                }
            }
        } else {
            proof {
                assert forall|i: int| 0 <= i < j + 1 && !picked.contains(i) implies call_ensures(
                    keep,
                    (&#[trigger] items[i],),
                    false,
                ) by {}
            }
        }
        j += 1;
    }
    assert(selects(items@, keep, picked));
    out
}

/// `[e for y in outer for e in row(y)]`: the rows that `row` makes of the
/// items, one after the other.
pub fn flat_collect<T, U, F: Fn(&T) -> Vec<U>>(outer: &Vec<T>, row: F) -> (out: Vec<U>)
    requires
        forall|i: int| 0 <= i < outer.len() ==> call_requires(row, (&#[trigger] outer[i],)),
    ensures
        exists|rows: Seq<Vec<U>>|
            {
                &&& rows.len() == outer.len()
                &&& forall|i: int|
                    0 <= i < outer.len() ==> call_ensures(row, (&outer[i],), #[trigger] rows[i])
                &&& out@ == rows.map_values(|r: Vec<U>| r@).flatten()
            },
{
    let mut out: Vec<U> = Vec::new();
    let ghost mut rows: Seq<Vec<U>> = Seq::empty();
    let mut j: usize = 0;
    proof {
        assert(rows.map_values(|r: Vec<U>| r@) =~= Seq::<Seq<U>>::empty());
    }
    while j < outer.len()
        invariant
            j <= outer.len(),
            forall|i: int| 0 <= i < outer.len() ==> call_requires(row, (&#[trigger] outer[i],)),
            rows.len() == j,
            forall|i: int| 0 <= i < j ==> call_ensures(row, (&outer[i],), #[trigger] rows[i]),
            out@ == rows.map_values(|r: Vec<U>| r@).flatten_alt(),
        decreases outer.len() - j,
    {
        let mut next = row(&outer[j]);
        proof {
            let wider = rows.push(next);
            assert(wider.map_values(|r: Vec<U>| r@).drop_last() =~= rows.map_values(
                |r: Vec<U>| r@,
            ));
            assert(wider.map_values(|r: Vec<U>| r@).last() == next@);
            rows = wider;
        }
        out.append(&mut next);
        j += 1;
    }
    proof {
        rows.map_values(|r: Vec<U>| r@).lemma_flatten_and_flatten_alt_are_equivalent();
    }
    out
}

/// The map that holds, for each key, the value that stands at the last
/// position the key stands at.
pub open spec fn keyed<K, V>(keys: Seq<K>, values: Seq<V>) -> Map<K, V>
    decreases keys.len(),
{
    if keys.len() == 0 {
        Map::empty()
    } else {
        keyed(keys.drop_last(), values.drop_last()).insert(keys.last(), values.last())
    }
}

/// `{key(x): value(x) for x in items if keep(x)}`: one entry for each item
/// that `keep` accepts; where two of them have the same key, the later one
/// stays.
pub fn collect_map_if<T, K: Eq + Hash, V, P: Fn(&T) -> bool, FK: Fn(&T) -> K, FV: Fn(&T) -> V>(
    items: &Vec<T>,
    keep: P,
    key: FK,
    value: FV,
) -> (out: HashMap<K, V>)
    requires
        forall|i: int| 0 <= i < items.len() ==> call_requires(keep, (&#[trigger] items[i],)),
        forall|i: int| 0 <= i < items.len() ==> call_requires(key, (&#[trigger] items[i],)),
        forall|i: int| 0 <= i < items.len() ==> call_requires(value, (&#[trigger] items[i],)),
    ensures
        obeys_key_model::<K>() ==> exists|picked: Seq<int>, keys: Seq<K>, values: Seq<V>|
            {
                &&& selects(items@, keep, picked)
                &&& keys.len() == picked.len()
                &&& values.len() == picked.len()
                &&& forall|k: int|
                    0 <= k < picked.len() ==> call_ensures(
                        key,
                        (&items[picked[k]],),
                        #[trigger] keys[k],
                    )
                &&& forall|k: int|
                    0 <= k < picked.len() ==> call_ensures(
                        value,
                        (&items[picked[k]],),
                        #[trigger] values[k],
                    )
                &&& out@ == keyed(keys, values)
            },
{
    broadcast use vstd::std_specs::hash::group_hash_axioms;

    let mut out: HashMap<K, V> = HashMap::new();
    let ghost mut picked: Seq<int> = Seq::empty();
    let ghost mut keys: Seq<K> = Seq::empty();
    let ghost mut values: Seq<V> = Seq::empty();
    let mut j: usize = 0;
    while j < items.len()
        invariant
            j <= items.len(),
            forall|i: int| 0 <= i < items.len() ==> call_requires(keep, (&#[trigger] items[i],)),
            forall|i: int| 0 <= i < items.len() ==> call_requires(key, (&#[trigger] items[i],)),
            forall|i: int| 0 <= i < items.len() ==> call_requires(value, (&#[trigger] items[i],)),
            keys.len() == picked.len(),
            values.len() == picked.len(),
            forall|k: int|
                0 <= k < picked.len() ==> 0 <= #[trigger] picked[k] < j && call_ensures(
                    keep,
                    (&items[picked[k]],),
                    true,
                ),
            forall|k: int, l: int| 0 <= k < l < picked.len() ==> picked[k] < picked[l],
            forall|i: int|
                0 <= i < j && !picked.contains(i) ==> call_ensures(
                    keep,
                    (&#[trigger] items[i],),
                    false,
                ),
            forall|k: int|
                0 <= k < picked.len() ==> call_ensures(key, (&items[picked[k]],), #[trigger] keys[k]),
            forall|k: int|
                0 <= k < picked.len() ==> call_ensures(
                    value,
                    (&items[picked[k]],),
                    #[trigger] values[k],
                ),
            obeys_key_model::<K>() ==> out@ == keyed(keys, values),
        decreases items.len() - j,
    {
        let ghost before = picked;
        if keep(&items[j]) {
            let k = key(&items[j]);
            let v = value(&items[j]);
            proof {
                picked = before.push(j as int);
                assert(keys.push(k).drop_last() =~= keys);
                assert(values.push(v).drop_last() =~= values);
                keys = keys.push(k);
                values = values.push(v);
                assert forall|i: int| 0 <= i < j + 1 && !picked.contains(i) implies call_ensures(
                    keep,
                    (&#[trigger] items[i],),
                    false,
                ) by {
                    assert(picked[before.len() as int] == j);
                    if i < j && before.contains(i) {
                        let at = choose|at: int| 0 <= at < before.len() && before[at] == i;
                        assert(picked[at] == i);
                    }
                }
            }
            out.insert(k, v);
        } else {
            proof {
                assert forall|i: int| 0 <= i < j + 1 && !picked.contains(i) implies call_ensures(
                    keep,
                    (&#[trigger] items[i],),
                    false,
                ) by {}
            }
        }
        j += 1;
    }
    assert(selects(items@, keep, picked));
    out
}

/// `{key(x): value(x) for x in items}`: one entry for each item; where two
/// items have the same key, the later one stays.
pub fn collect_map<T, K: Eq + Hash, V, FK: Fn(&T) -> K, FV: Fn(&T) -> V>(
    items: &Vec<T>,
    key: FK,
    value: FV,
) -> (out: HashMap<K, V>)
    requires
        forall|i: int| 0 <= i < items.len() ==> call_requires(key, (&#[trigger] items[i],)),
        forall|i: int| 0 <= i < items.len() ==> call_requires(value, (&#[trigger] items[i],)),
    ensures
        obeys_key_model::<K>() ==> exists|keys: Seq<K>, values: Seq<V>|
            {
                &&& keys.len() == items.len()
                &&& values.len() == items.len()
                &&& forall|i: int|
                    0 <= i < items.len() ==> call_ensures(key, (&items[i],), #[trigger] keys[i])
                &&& forall|i: int|
                    0 <= i < items.len() ==> call_ensures(
                        value,
                        (&items[i],),
                        #[trigger] values[i],
                    )
                &&& out@ == keyed(keys, values)
            },
{
    broadcast use vstd::std_specs::hash::group_hash_axioms;

    let mut out: HashMap<K, V> = HashMap::new();
    let ghost mut keys: Seq<K> = Seq::empty();
    let ghost mut values: Seq<V> = Seq::empty();
    let mut j: usize = 0;
    while j < items.len()
        invariant
            j <= items.len(),
            forall|i: int| 0 <= i < items.len() ==> call_requires(key, (&#[trigger] items[i],)),
            forall|i: int| 0 <= i < items.len() ==> call_requires(value, (&#[trigger] items[i],)),
            keys.len() == j,
            values.len() == j,
            forall|i: int| 0 <= i < j ==> call_ensures(key, (&items[i],), #[trigger] keys[i]),
            forall|i: int| 0 <= i < j ==> call_ensures(value, (&items[i],), #[trigger] values[i]),
            obeys_key_model::<K>() ==> out@ == keyed(keys, values),
        decreases items.len() - j,
    {
        let k = key(&items[j]);
        let v = value(&items[j]);
        proof {
            assert(keys.push(k).drop_last() =~= keys);
            assert(values.push(v).drop_last() =~= values);
            keys = keys.push(k);
            values = values.push(v);
        }
        out.insert(k, v);
        j += 1;
    }
    out
}

} // verus!
