//! Request parameters kept in ascending key order, as a `BTreeMap<&str, &str>` keeps them.
use vstd::prelude::*;
use crate::text::{text_less, text_lt, text_eq, lemma_text_less_transitive, lemma_text_less_total};

verus! {

/// One parameter: a key and its value.
pub type Entry = (Seq<char>, Seq<char>);

/// Inserting into a key-ordered list: a present key has its value replaced in place, a new
/// key goes before the first key that is greater than it.
pub open spec fn sorted_insert(e: Seq<Entry>, k: Seq<char>, v: Seq<char>) -> Seq<Entry>
    decreases e.len(),
{
    if e.len() == 0 {
        seq![(k, v)]
    } else if e[0].0 == k {
        seq![(k, v)] + e.drop_first()
    } else if text_less(k, e[0].0) {
        seq![(k, v)] + e
    } else {
        seq![e[0]] + sorted_insert(e.drop_first(), k, v)
    }
}

/// Keys strictly ascending in the order of `str`.
pub open spec fn keys_sorted(e: Seq<Entry>) -> bool {
    forall|i: int, j: int| 0 <= i < j < e.len() ==> text_less(#[trigger] e[i].0, #[trigger] e[j].0)
}

/// The value stored under a key.
pub open spec fn lookup(e: Seq<Entry>, k: Seq<char>) -> Option<Seq<char>>
    decreases e.len(),
{
    if e.len() == 0 {
        None
    } else if e[0].0 == k {
        Some(e[0].1)
    } else {
        lookup(e.drop_first(), k)
    }
}

/// `k=v&` for each entry in turn.
pub open spec fn join_key_eq_value(e: Seq<Entry>) -> Seq<char>
    decreases e.len(),
{
    if e.len() == 0 {
        Seq::empty()
    } else {
        join_key_eq_value(e.drop_last()) + e.last().0 + seq!['='] + e.last().1 + seq!['&']
    }
}

/// `kv` for each entry in turn.
pub open spec fn join_key_value(e: Seq<Entry>) -> Seq<char>
    decreases e.len(),
{
    if e.len() == 0 {
        Seq::empty()
    } else {
        join_key_value(e.drop_last()) + e.last().0 + e.last().1
    }
}

/// Parameters in ascending key order with no key twice.
pub struct ParamMap {
    entries: Vec<(String, String)>,
}

impl View for ParamMap {
    type V = Seq<Entry>;

    closed spec fn view(&self) -> Seq<Entry> {
        self.entries@.map_values(|p: (String, String)| (p.0@, p.1@))
    }
}

impl ParamMap {
    /// No parameters.
    pub fn new() -> (res: ParamMap)
        ensures
            res@ == Seq::<Entry>::empty(),
    {
        let res = ParamMap { entries: Vec::new() };
        assert(res@ =~= Seq::<Entry>::empty());
        res
    }

    /// Number of parameters.
    pub fn len(&self) -> (n: usize)
        ensures
            n == self@.len(),
    {
        self.entries.len()
    }

    /// The key and value at a position.
    pub fn entry(&self, i: usize) -> (res: (&str, &str))
        requires
            i < self@.len(),
        ensures
            res.0@ == self@[i as int].0,
            res.1@ == self@[i as int].1,
    {
        (self.entries[i].0.as_str(), self.entries[i].1.as_str())
    }

    /// Sets `key` to `value`, keeping the keys in order.
    pub fn insert(&mut self, key: &str, value: &str)
        ensures
            final(self)@ == sorted_insert(old(self)@, key@, value@),
    {
        let ghost e = old(self)@;
        let n = self.entries.len();
        let mut i: usize = 0;
        assert(e.skip(0) =~= e);
        assert(e.take(0) =~= Seq::<Entry>::empty());
        while i < n
            invariant
                n == self.entries@.len(),
                self@ == e,
                e == old(self)@,
                i <= n,
                sorted_insert(e, key@, value@) == e.take(i as int) + sorted_insert(e.skip(i as int), key@, value@),
            decreases n - i,
        {
            let ghost rest = e.skip(i as int);
            assert(rest[0] == e[i as int]);
            assert(self@[i as int] == (self.entries@[i as int].0@, self.entries@[i as int].1@));
            if text_eq(self.entries[i].0.as_str(), key) {
                self.entries.set(i, (key.to_owned(), value.to_owned()));
                proof {
                    assert(rest.drop_first() =~= e.skip(i + 1));
                    assert(sorted_insert(rest, key@, value@) == seq![(key@, value@)] + rest.drop_first());
                    assert(self@ =~= e.take(i as int) + (seq![(key@, value@)] + rest.drop_first()));
                }
                return;
            }
            if text_lt(key, self.entries[i].0.as_str()) {
                self.entries.insert(i, (key.to_owned(), value.to_owned()));
                proof {
                    assert(sorted_insert(rest, key@, value@) == seq![(key@, value@)] + rest);
                    assert(self@ =~= e.take(i as int) + (seq![(key@, value@)] + rest));
                }
                return;
            }
            proof {
                assert(rest.drop_first() =~= e.skip(i + 1));
                assert(e.take(i as int) + (seq![rest[0]] + sorted_insert(rest.drop_first(), key@, value@))
                    =~= e.take(i + 1) + sorted_insert(e.skip(i + 1), key@, value@));
            }
            i = i + 1;
        }
        self.entries.push((key.to_owned(), value.to_owned()));
        proof {
            assert(e.skip(n as int) =~= Seq::<Entry>::empty());
            assert(e.take(n as int) =~= e);
            assert(self@ =~= e + seq![(key@, value@)]);
        }
    }

    /// `k=v&` for every parameter in key order.
    pub fn to_key_eq_value(&self) -> (res: String)
        ensures
            res@ == join_key_eq_value(self@),
    {
        let mut res = String::new();
        let n = self.entries.len();
        for i in 0..n
            invariant
                n == self@.len(),
                res@ == join_key_eq_value(self@.take(i as int)),
        {
            let (k, v) = self.entry(i);
            res.append(k);
            res.append("=");
            res.append(v);
            res.append("&");
            proof {
                reveal_strlit("=");
                reveal_strlit("&");
                assert(self@.take(i + 1).drop_last() =~= self@.take(i as int));
            }
        }
        assert(self@.take(n as int) =~= self@);
        res
    }

    /// `kv` for every parameter in key order.
    pub fn to_key_value(&self) -> (res: String)
        ensures
            res@ == join_key_value(self@),
    {
        let mut res = String::new();
        let n = self.entries.len();
        for i in 0..n
            invariant
                n == self@.len(),
                res@ == join_key_value(self@.take(i as int)),
        {
            let (k, v) = self.entry(i);
            res.append(k);
            res.append(v);
            proof {
                assert(self@.take(i + 1).drop_last() =~= self@.take(i as int));
            }
        }
        assert(self@.take(n as int) =~= self@);
        res
    }
}

} // verus!

verus! {

/// Setting a key keeps the keys in strictly ascending order.
pub proof fn lemma_insert_keeps_keys_sorted(e: Seq<Entry>, k: Seq<char>, v: Seq<char>)
    requires
        keys_sorted(e),
    ensures
        keys_sorted(sorted_insert(e, k, v)),
        forall|i: int| 0 <= i < sorted_insert(e, k, v).len() ==>
            #[trigger] sorted_insert(e, k, v)[i].0 == k || exists|j: int| 0 <= j < e.len() && e[j].0 == sorted_insert(e, k, v)[i].0,
    decreases e.len(),
{
    let r = sorted_insert(e, k, v);
    if e.len() == 0 {
    } else if e[0].0 == k {
        assert forall|i: int, j: int| 0 <= i < j < r.len() implies text_less(#[trigger] r[i].0, #[trigger] r[j].0) by {
            if i == 0 {
                assert(text_less(e[0].0, e[j].0));
            } else {
                assert(text_less(e[i].0, e[j].0));
            }
        }
        assert forall|i: int| 0 <= i < r.len() implies #[trigger] r[i].0 == k || exists|j: int| 0 <= j < e.len() && e[j].0 == r[i].0 by {
            if i > 0 {
                assert(e[i].0 == r[i].0);
            }
        }
    } else if text_less(k, e[0].0) {
        assert forall|i: int, j: int| 0 <= i < j < r.len() implies text_less(#[trigger] r[i].0, #[trigger] r[j].0) by {
            if i == 0 {
                if j > 1 {
                    assert(text_less(e[0].0, e[j - 1].0));
                    lemma_text_less_transitive(k, e[0].0, e[j - 1].0);
                }
            } else {
                assert(text_less(e[i - 1].0, e[j - 1].0));
            }
        }
        assert forall|i: int| 0 <= i < r.len() implies #[trigger] r[i].0 == k || exists|j: int| 0 <= j < e.len() && e[j].0 == r[i].0 by {
            if i > 0 {
                assert(e[i - 1].0 == r[i].0);
            }
        }
    } else {
        let t = e.drop_first();
        assert(keys_sorted(t)) by {
            assert forall|i: int, j: int| 0 <= i < j < t.len() implies text_less(#[trigger] t[i].0, #[trigger] t[j].0) by {
                assert(text_less(e[i + 1].0, e[j + 1].0));
            }
        }
        lemma_insert_keeps_keys_sorted(t, k, v);
        let rt = sorted_insert(t, k, v);
        lemma_text_less_total(k, e[0].0);
        assert forall|i: int| 0 <= i < rt.len() implies text_less(e[0].0, #[trigger] rt[i].0) by {
            if rt[i].0 == k {
            } else {
                let j = choose|j: int| 0 <= j < t.len() && t[j].0 == rt[i].0;
                assert(text_less(e[0].0, e[j + 1].0));
            }
        }
        assert forall|i: int, j: int| 0 <= i < j < r.len() implies text_less(#[trigger] r[i].0, #[trigger] r[j].0) by {
            if i == 0 {
                assert(r[j] == rt[j - 1]);
            } else {
                assert(r[i] == rt[i - 1]);
                assert(r[j] == rt[j - 1]);
            }
        }
        assert forall|i: int| 0 <= i < r.len() implies #[trigger] r[i].0 == k || exists|j: int| 0 <= j < e.len() && e[j].0 == r[i].0 by {
            if i == 0 {
                assert(e[0].0 == r[0].0);
            } else {
                assert(r[i] == rt[i - 1]);
                if rt[i - 1].0 != k {
                    let j = choose|j: int| 0 <= j < t.len() && t[j].0 == rt[i - 1].0;
                    assert(e[j + 1].0 == r[i].0);
                }
            }
        }
    }
}

/// After setting a key, looking it up gives the value set.
pub proof fn lemma_insert_then_lookup(e: Seq<Entry>, k: Seq<char>, v: Seq<char>)
    ensures
        lookup(sorted_insert(e, k, v), k) == Some(v),
    decreases e.len(),
{
    if e.len() > 0 && e[0].0 != k && !text_less(k, e[0].0) {
        lemma_insert_then_lookup(e.drop_first(), k, v);
        assert((seq![e[0]] + sorted_insert(e.drop_first(), k, v)).drop_first() =~= sorted_insert(e.drop_first(), k, v));
    }
}

/// Setting a key leaves every other key's value as it was.
pub proof fn lemma_insert_keeps_other_keys(e: Seq<Entry>, k: Seq<char>, v: Seq<char>, other: Seq<char>)
    requires
        keys_sorted(e),
        other != k,
    ensures
        lookup(sorted_insert(e, k, v), other) == lookup(e, other),
    decreases e.len(),
{
    let r = sorted_insert(e, k, v);
    if e.len() == 0 {
        assert(r[0] == (k, v));
        assert(r.drop_first() =~= Seq::<Entry>::empty());
        assert(lookup(r.drop_first(), other) == None::<Seq<char>>);
    } else if e[0].0 == k {
        assert(r[0] == (k, v));
        assert(r.drop_first() =~= e.drop_first());
    } else if text_less(k, e[0].0) {
        assert(r[0] == (k, v));
        assert(r.drop_first() =~= e);
    } else {
        assert(r[0] == e[0]);
        let t = e.drop_first();
        assert(keys_sorted(t)) by {
            assert forall|i: int, j: int| 0 <= i < j < t.len() implies text_less(#[trigger] t[i].0, #[trigger] t[j].0) by {
                assert(text_less(e[i + 1].0, e[j + 1].0));
            }
        }
        lemma_insert_keeps_other_keys(t, k, v, other);
        assert(r.drop_first() =~= sorted_insert(t, k, v));
    }
}

} // verus!
