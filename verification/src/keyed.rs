//! Lists of values keyed by text, with no key twice: what the service keeps in `HashMap`s.
use vstd::prelude::*;
use crate::text::text_eq;

verus! {

/// No key occurs twice.
pub open spec fn keys_unique<V>(e: Seq<(Seq<char>, V)>) -> bool {
    forall|i: int, j: int| 0 <= i < j < e.len() ==> #[trigger] e[i].0 != #[trigger] e[j].0
}

/// Some entry has key `k`.
pub open spec fn has_key<V>(e: Seq<(Seq<char>, V)>, k: Seq<char>) -> bool {
    exists|i: int| 0 <= i < e.len() && #[trigger] e[i].0 == k
}

/// The position of key `k`, or -1.
pub open spec fn index_of<V>(e: Seq<(Seq<char>, V)>, k: Seq<char>) -> int {
    if has_key(e, k) {
        choose|i: int| 0 <= i < e.len() && #[trigger] e[i].0 == k
    } else {
        -1
    }
}

/// The value stored under key `k`.
pub open spec fn value_of<V>(e: Seq<(Seq<char>, V)>, k: Seq<char>) -> Option<V> {
    if has_key(e, k) {
        Some(e[index_of(e, k)].1)
    } else {
        None
    }
}

/// Storing `v` under `k`: the entry of `k` is replaced in place, or a new entry goes last.
pub open spec fn upsert<V>(e: Seq<(Seq<char>, V)>, k: Seq<char>, v: V) -> Seq<(Seq<char>, V)> {
    if has_key(e, k) {
        e.update(index_of(e, k), (k, v))
    } else {
        e.push((k, v))
    }
}

/// Removing the entry of key `k`, if there is one.
pub open spec fn remove_key<V>(e: Seq<(Seq<char>, V)>, k: Seq<char>) -> Seq<(Seq<char>, V)> {
    if has_key(e, k) {
        e.remove(index_of(e, k))
    } else {
        e
    }
}

/// The entries as text-keyed pairs of plain models.
pub open spec fn keyed_view<V>(e: Seq<(String, V)>) -> Seq<(Seq<char>, V)> {
    e.map_values(|p: (String, V)| (p.0@, p.1))
}

/// The position of key `key`, if some entry has it.
pub fn find_key<V>(entries: &Vec<(String, V)>, key: &str) -> (res: Option<usize>)
    ensures
        match res {
            Some(i) => i < entries@.len() && entries@[i as int].0@ == key@
                && (keys_unique(keyed_view(entries@)) ==> i == index_of(keyed_view(entries@), key@)),
            None => !has_key(keyed_view(entries@), key@),
        },
{
    let ghost kv = keyed_view(entries@);
    let n = entries.len();
    for i in 0..n
        invariant
            n == entries@.len(),
            kv == keyed_view(entries@),
            forall|j: int| 0 <= j < i ==> kv[j].0 != key@,
    {
        assert(kv[i as int].0 == entries@[i as int].0@);
        if text_eq(entries[i].0.as_str(), key) {
            proof {
                assert(has_key(kv, key@));
                if keys_unique(kv) {
                    let j = index_of(kv, key@);
                    assert(kv[j].0 == key@);
                    if j != i as int {
                        if j < i as int {
                            assert(kv[j].0 != kv[i as int].0);
                        } else {
                            assert(kv[i as int].0 != kv[j].0);
                        }
                    }
                }
            }
            return Some(i);
        }
    }
    None
}

/// Removing an entry keeps the keys unique.
pub proof fn lemma_remove_keeps_unique<V>(e: Seq<(Seq<char>, V)>, i: int)
    requires
        keys_unique(e),
        0 <= i < e.len(),
    ensures
        keys_unique(e.remove(i)),
{
    let r = e.remove(i);
    assert forall|a: int, b: int| 0 <= a < b < r.len() implies #[trigger] r[a].0 != #[trigger] r[b].0 by {
        let a2 = if a < i { a } else { a + 1 };
        let b2 = if b < i { b } else { b + 1 };
        assert(r[a] == e[a2]);
        assert(r[b] == e[b2]);
    }
}

/// Storing under a key keeps the keys unique.
pub proof fn lemma_upsert_keeps_unique<V>(e: Seq<(Seq<char>, V)>, k: Seq<char>, v: V)
    requires
        keys_unique(e),
    ensures
        keys_unique(upsert(e, k, v)),
{
    let r = upsert(e, k, v);
    if has_key(e, k) {
        let idx = index_of(e, k);
        assert(e[idx].0 == k);
        assert forall|a: int, b: int| 0 <= a < b < r.len() implies #[trigger] r[a].0 != #[trigger] r[b].0 by {
            assert(r[a].0 == e[a].0);
            assert(r[b].0 == e[b].0);
        }
    } else {
        assert forall|a: int, b: int| 0 <= a < b < r.len() implies #[trigger] r[a].0 != #[trigger] r[b].0 by {
            if b == e.len() {
                assert(r[a] == e[a]);
            }
        }
    }
}

/// After storing `v` under `k`, `k` holds `v`; every other key holds what it held.
pub proof fn lemma_upsert_value<V>(e: Seq<(Seq<char>, V)>, k: Seq<char>, v: V, other: Seq<char>)
    requires
        keys_unique(e),
    ensures
        value_of(upsert(e, k, v), k) == Some(v),
        other != k ==> value_of(upsert(e, k, v), other) == value_of(e, other),
{
    lemma_upsert_keeps_unique(e, k, v);
    let r = upsert(e, k, v);
    let pos = if has_key(e, k) { index_of(e, k) } else { e.len() as int };
    assert(r[pos].0 == k);
    assert(has_key(r, k));
    let ik = index_of(r, k);
    if ik != pos {
        if ik < pos {
            assert(r[ik].0 != r[pos].0);
        } else {
            assert(r[pos].0 != r[ik].0);
        }
    }
    if other != k {
        if has_key(e, other) {
            let io = index_of(e, other);
            assert(r[io].0 == other);
            assert(has_key(r, other));
            let jo = index_of(r, other);
            if jo != io {
                if jo < io {
                    assert(r[jo].0 != r[io].0);
                } else {
                    assert(r[io].0 != r[jo].0);
                }
            }
        } else {
            if has_key(r, other) {
                let jo = index_of(r, other);
                assert(jo != pos);
                assert(e[jo].0 == other);
            }
        }
    }
}

/// After removing `k`, `k` holds nothing; every other key holds what it held.
pub proof fn lemma_remove_value<V>(e: Seq<(Seq<char>, V)>, k: Seq<char>, other: Seq<char>)
    requires
        keys_unique(e),
    ensures
        value_of(remove_key(e, k), k) is None,
        other != k ==> value_of(remove_key(e, k), other) == value_of(e, other),
{
    if has_key(e, k) {
        let i = index_of(e, k);
        let r = e.remove(i);
        lemma_remove_keeps_unique(e, i);
        if has_key(r, k) {
            let j = choose|j: int| 0 <= j < r.len() && #[trigger] r[j].0 == k;
            let j2 = if j < i { j } else { j + 1 };
            assert(r[j] == e[j2]);
            if j2 < i {
                assert(e[j2].0 != e[i].0);
            } else {
                assert(e[i].0 != e[j2].0);
            }
        }
        if other != k {
            if has_key(e, other) {
                let io = index_of(e, other);
                assert(io != i);
                let io2 = if io < i { io } else { io - 1 };
                assert(r[io2] == e[io]);
                assert(has_key(r, other));
                let jo = index_of(r, other);
                if jo != io2 {
                    if jo < io2 {
                        assert(r[jo].0 != r[io2].0);
                    } else {
                        assert(r[io2].0 != r[jo].0);
                    }
                }
            } else if has_key(r, other) {
                let jo = index_of(r, other);
                let jo2 = if jo < i { jo } else { jo + 1 };
                assert(r[jo] == e[jo2]);
            }
        }
    }
}

} // verus!
