//! A small map keyed by text that keeps its entries in the order in which
//! their keys first arrived.

use vstd::prelude::*;
use crate::text::same_text;

verus! {

/// Index of the first entry of `entries` whose key is `key`, or the length
/// of `entries` where there is none.
pub open spec fn position<V>(entries: Seq<(Seq<char>, V)>, key: Seq<char>) -> int
    decreases entries.len(),
{
    if entries.len() == 0 || entries[0].0 == key {
        0
    } else {
        1 + position(entries.drop_first(), key)
    }
}

/// Whether no key occurs twice in `entries`.
pub open spec fn distinct_keys<V>(entries: Seq<(Seq<char>, V)>) -> bool {
    forall|i: int, j: int|
        0 <= i < j < entries.len() ==> (#[trigger] entries[i]).0 != (#[trigger] entries[j]).0
}

/// The map that `entries` stand for; of two entries with one key the first counts.
pub open spec fn as_map<V>(entries: Seq<(Seq<char>, V)>) -> Map<Seq<char>, V> {
    Map::new(
        |k: Seq<char>| position(entries, k) < entries.len(),
        |k: Seq<char>| entries[position(entries, k)].1,
    )
}

/// `entries` with `key` given the value `value`: in place where the key has
/// an entry already, else as a new last entry.
pub open spec fn upsert<V>(entries: Seq<(Seq<char>, V)>, key: Seq<char>, value: V) -> Seq<
    (Seq<char>, V),
> {
    let p = position(entries, key);
    if p < entries.len() {
        entries.update(p, (key, value))
    } else {
        entries.push((key, value))
    }
}

/// `entries` with each value replaced by its image under `f`.
pub open spec fn map_entries<V, W>(entries: Seq<(Seq<char>, V)>, f: spec_fn(V) -> W) -> Seq<
    (Seq<char>, W),
> {
    entries.map_values(|e: (Seq<char>, V)| (e.0, f(e.1)))
}

pub proof fn lemma_position<V>(entries: Seq<(Seq<char>, V)>, key: Seq<char>)
    ensures
        0 <= position(entries, key) <= entries.len(),
        position(entries, key) < entries.len() ==> entries[position(entries, key)].0 == key,
        forall|j: int| 0 <= j < position(entries, key) ==> (#[trigger] entries[j]).0 != key,
    decreases entries.len(),
{
    if !(entries.len() == 0 || entries[0].0 == key) {
        let rest = entries.drop_first();
        lemma_position(rest, key);
        assert forall|j: int| 0 <= j < position(entries, key) implies (#[trigger] entries[j]).0
            != key by {
            if j > 0 {
                assert(entries[j] == rest[j - 1]);
            }
        }
        if position(entries, key) < entries.len() {
            assert(entries[position(entries, key)] == rest[position(rest, key)]);
        }
    }
}

/// An index that holds `key`, and before which `key` does not occur, is its position.
pub proof fn lemma_position_is<V>(entries: Seq<(Seq<char>, V)>, key: Seq<char>, k: int)
    requires
        0 <= k <= entries.len(),
        forall|j: int| 0 <= j < k ==> (#[trigger] entries[j]).0 != key,
        k < entries.len() ==> entries[k].0 == key,
    ensures
        position(entries, key) == k,
    decreases entries.len(),
{
    if k > 0 {
        let rest = entries.drop_first();
        assert(entries[0].0 != key);
        assert forall|j: int| 0 <= j < k - 1 implies (#[trigger] rest[j]).0 != key by {
            assert(rest[j] == entries[j + 1]);
        }
        if k - 1 < rest.len() {
            assert(rest[k - 1] == entries[k]);
        }
        lemma_position_is(rest, key, k - 1);
    }
}

/// Replacing the values of the entries moves no key.
pub proof fn lemma_position_mapped<V, W>(
    entries: Seq<(Seq<char>, V)>,
    f: spec_fn(V) -> W,
    key: Seq<char>,
)
    ensures
        position(map_entries(entries, f), key) == position(entries, key),
        distinct_keys(entries) ==> distinct_keys(map_entries(entries, f)),
{
    lemma_position(entries, key);
    let mapped = map_entries(entries, f);
    let p = position(entries, key);
    assert forall|j: int| 0 <= j < p implies (#[trigger] mapped[j]).0 != key by {
        assert(entries[j].0 != key);
    }
    lemma_position_is(mapped, key, p);
    if distinct_keys(entries) {
        assert forall|i: int, j: int| 0 <= i < j < mapped.len() implies (#[trigger] mapped[i]).0 != (
        #[trigger] mapped[j]).0 by {
            assert(entries[i].0 != entries[j].0);
        }
    }
}

/// Giving a key a value, and then replacing the values, is replacing the
/// values and then giving the key the replaced value.
pub proof fn lemma_upsert_mapped<V, W>(
    entries: Seq<(Seq<char>, V)>,
    f: spec_fn(V) -> W,
    key: Seq<char>,
    value: V,
)
    ensures
        map_entries(upsert(entries, key, value), f) == upsert(
            map_entries(entries, f),
            key,
            f(value),
        ),
{
    lemma_position(entries, key);
    lemma_position_mapped(entries, f, key);
    assert(map_entries(upsert(entries, key, value), f) =~= upsert(
        map_entries(entries, f),
        key,
        f(value),
    ));
}

/// A map from text to `V`.
#[derive(Debug)]
pub struct CtGenMap<V> {
    entries: Vec<(String, V)>,
}

impl<V: Clone> Clone for CtGenMap<V> {
    /// A map with the same keys in the same order, each with a clone of its value.
    fn clone(&self) -> (r: Self)
        ensures
            r.wf() == self.wf(),
            r.entries().len() == self.entries().len(),
            forall|i: int|
                0 <= i < self.entries().len() ==> (#[trigger] r.entries()[i]).0
                    == self.entries()[i].0 && cloned(self.entries()[i].1, r.entries()[i].1),
    {
        let mut entries: Vec<(String, V)> = Vec::new();
        let mut i: usize = 0;
        while i < self.entries.len()
            invariant
                i <= self.entries@.len(),
                entries@.len() == i,
                forall|j: int|
                    0 <= j < i ==> (#[trigger] entries@[j]).0@ == self.entries@[j].0@ && cloned(
                        self.entries@[j].1,
                        entries@[j].1,
                    ),
            decreases self.entries@.len() - i,
        {
            let key = self.entries[i].0.clone();
            let value = self.entries[i].1.clone();
            entries.push((key, value));
            i = i + 1;
        }
        let r = CtGenMap { entries };
        proof {
            assert forall|i: int| 0 <= i < self.entries().len() implies (#[trigger] r.entries()[i]).0
                == self.entries()[i].0 && cloned(self.entries()[i].1, r.entries()[i].1) by {
                assert(r.entries()[i].0 == entries@[i].0@);
            }
            if self.wf() {
                assert forall|a: int, b: int| 0 <= a < b < r.entries().len() implies (
                #[trigger] r.entries()[a]).0 != (#[trigger] r.entries()[b]).0 by {
                    assert(self.entries()[a].0 != self.entries()[b].0);
                }
            }
            if r.wf() {
                assert forall|a: int, b: int| 0 <= a < b < self.entries().len() implies (
                #[trigger] self.entries()[a]).0 != (#[trigger] self.entries()[b]).0 by {
                    assert(r.entries()[a].0 != r.entries()[b].0);
                }
            }
        }
        r
    }
}

/// Two lists of entries with the same keys in the same order, and values
/// that agree under `f`, stand for maps that agree under `f`.
pub proof fn lemma_same_keys_same_map<V, W>(
    a: Seq<(Seq<char>, V)>,
    b: Seq<(Seq<char>, V)>,
    f: spec_fn(V) -> W,
)
    requires
        a.len() == b.len(),
        forall|i: int| 0 <= i < a.len() ==> (#[trigger] a[i]).0 == b[i].0 && f(a[i].1) == f(b[i].1),
    ensures
        as_map(a).map_values(f) == as_map(b).map_values(f),
{
    assert forall|k: Seq<char>| position(a, k) == position(b, k) by {
        lemma_position(a, k);
        let p = position(a, k);
        assert forall|j: int| 0 <= j < p implies (#[trigger] b[j]).0 != k by {
            assert(a[j].0 != k);
        }
        if p < a.len() {
            assert(a[p].0 == b[p].0);
        }
        lemma_position_is(b, k, p);
    }
    assert forall|k: Seq<char>| #[trigger]
        as_map(a).map_values(f).contains_key(k) == as_map(b).map_values(f).contains_key(k) && (
        as_map(a).map_values(f).contains_key(k) ==> as_map(a).map_values(f)[k] == as_map(
            b,
        ).map_values(f)[k]) by {
        lemma_position(a, k);
        assert(position(a, k) == position(b, k));
        if position(a, k) < a.len() {
            assert(a[position(a, k)].0 == b[position(a, k)].0);
        }
    }
    assert(as_map(a).map_values(f) =~= as_map(b).map_values(f));
}

impl<V> CtGenMap<V> {
    /// The entries with their keys as text, in order of arrival.
    pub closed spec fn entries(&self) -> Seq<(Seq<char>, V)> {
        self.entries@.map_values(|e: (String, V)| (e.0@, e.1))
    }

    /// No key occurs twice.
    pub closed spec fn wf(&self) -> bool {
        distinct_keys(self.entries())
    }

    /// The map from each key to its value.
    pub open spec fn view(&self) -> Map<Seq<char>, V> {
        as_map(self.entries())
    }

    /// Every entry is what the map holds for its key: the entries are the
    /// map, in order of arrival.
    pub proof fn lemma_entries_are_mapped(&self, index: int)
        requires
            self.wf(),
            0 <= index < self.entries().len(),
        ensures
            self@.contains_key(self.entries()[index].0),
            self@[self.entries()[index].0] == self.entries()[index].1,
            forall|key: Seq<char>|
                self@.contains_key(key) ==> exists|i: int|
                    0 <= i < self.entries().len() && (#[trigger] self.entries()[i]).0 == key,
    {
        lemma_position_is(self.entries(), self.entries()[index].0, index);
        assert forall|key: Seq<char>| self@.contains_key(key) implies exists|i: int|
            0 <= i < self.entries().len() && (#[trigger] self.entries()[i]).0 == key by {
            lemma_position(self.entries(), key);
            let p = position(self.entries(), key);
            assert(self.entries()[p].0 == key);
        }
    }

    /// What `self.wf()` says of the entries.
    pub proof fn lemma_wf(&self)
        requires
            self.wf(),
        ensures
            distinct_keys(self.entries()),
    {
    }

    /// A map without entries.
    pub fn new() -> (r: Self)
        ensures
            r.wf(),
            r.entries() == Seq::<(Seq<char>, V)>::empty(),
            r@ == Map::<Seq<char>, V>::empty(),
    {
        let r = CtGenMap { entries: Vec::new() };
        assert(r.entries() =~= Seq::<(Seq<char>, V)>::empty());
        assert(r@ =~= Map::<Seq<char>, V>::empty());
        r
    }

    /// Number of entries.
    pub fn len(&self) -> (r: usize)
        ensures
            r == self.entries().len(),
    {
        self.entries.len()
    }

    /// Index of the entry with the key `key`, if there is one.
    fn find(&self, key: &str) -> (r: usize)
        ensures
            r == position(self.entries(), key@),
            r <= self.entries().len(),
            r <= self.entries@.len(),
    {
        let mut i: usize = 0;
        while i < self.entries.len()
            invariant
                i <= self.entries@.len(),
                self.entries().len() == self.entries@.len(),
                forall|j: int| 0 <= j < i ==> (#[trigger] self.entries()[j]).0 != key@,
            decreases self.entries@.len() - i,
        {
            if same_text(self.entries[i].0.as_str(), key) {
                proof {
                    assert(self.entries()[i as int].0 == key@);
                    lemma_position_is(self.entries(), key@, i as int);
                }
                return i;
            }
            assert(self.entries()[i as int].0 != key@);
            i = i + 1;
        }
        proof {
            lemma_position_is(self.entries(), key@, i as int);
        }
        i
    }

    /// Whether `key` has a value.
    pub fn contains_key(&self, key: &str) -> (r: bool)
        ensures
            r == self@.contains_key(key@),
    {
        self.find(key) < self.entries.len()
    }

    /// The value of `key`, if it has one.
    pub fn get(&self, key: &str) -> (r: Option<&V>)
        ensures
            r is Some <==> self@.contains_key(key@),
            r is Some ==> *r->0 == self@[key@],
    {
        let i = self.find(key);
        if i < self.entries.len() {
            Some(&self.entries[i].1)
        } else {
            None
        }
    }

    /// The key of the entry at `index`.
    pub fn key_at(&self, index: usize) -> (r: &str)
        requires
            index < self.entries().len(),
        ensures
            r@ == self.entries()[index as int].0,
    {
        self.entries[index].0.as_str()
    }

    /// The value of the entry at `index`.
    pub fn value_at(&self, index: usize) -> (r: &V)
        requires
            index < self.entries().len(),
        ensures
            *r == self.entries()[index as int].1,
    {
        &self.entries[index].1
    }

    /// Gives `key` the value `value`: in place where the key has one already,
    /// else as a new last entry.
    pub fn insert(&mut self, key: String, value: V)
        requires
            old(self).wf(),
        ensures
            final(self).wf(),
            final(self)@ == old(self)@.insert(key@, value),
            final(self).entries() == upsert(old(self).entries(), key@, value),
    {
        let i = self.find(key.as_str());
        let ghost before = self.entries();
        let ghost k = key@;
        proof {
            lemma_position(before, k);
        }
        if i < self.entries.len() {
            self.entries.set(i, (key, value));
            proof {
                let after = self.entries();
                assert(after =~= before.update(i as int, (k, value)));
                assert forall|a: int, b: int| 0 <= a < b < after.len() implies (
                #[trigger] after[a]).0 != (#[trigger] after[b]).0 by {
                    assert(before[a].0 != before[b].0);
                }
                assert forall|q: Seq<char>| #[trigger]
                    as_map(after).contains_key(q) == as_map(before).insert(k, value).contains_key(
                        q,
                    ) && (as_map(after).contains_key(q) ==> as_map(after)[q] == as_map(
                        before,
                    ).insert(k, value)[q]) by {
                    lemma_position(before, q);
                    lemma_position(after, q);
                    if q == k {
                        lemma_position_is(after, q, i as int);
                    } else {
                        let p = position(before, q);
                        assert forall|j: int| 0 <= j < p implies (#[trigger] after[j]).0 != q by {
                            assert(before[j].0 != q);
                        }
                        lemma_position_is(after, q, p);
                    }
                }
                assert(as_map(after) =~= as_map(before).insert(k, value));
            }
        } else {
            self.entries.push((key, value));
            proof {
                let after = self.entries();
                assert(after =~= before.push((k, value)));
                assert forall|a: int, b: int| 0 <= a < b < after.len() implies (
                #[trigger] after[a]).0 != (#[trigger] after[b]).0 by {
                    if b < before.len() {
                        assert(before[a].0 != before[b].0);
                    } else {
                        assert(before[a].0 != k);
                    }
                }
                assert forall|q: Seq<char>| #[trigger]
                    as_map(after).contains_key(q) == as_map(before).insert(k, value).contains_key(
                        q,
                    ) && (as_map(after).contains_key(q) ==> as_map(after)[q] == as_map(
                        before,
                    ).insert(k, value)[q]) by {
                    lemma_position(before, q);
                    lemma_position(after, q);
                    if q == k {
                        lemma_position_is(after, q, before.len() as int);
                    } else {
                        let p = position(before, q);
                        assert forall|j: int| 0 <= j < p implies (#[trigger] after[j]).0 != q by {
                            assert(before[j].0 != q);
                        }
                        if p < before.len() {
                            lemma_position_is(after, q, p);
                        } else {
                            lemma_position_is(after, q, after.len() as int);
                        }
                    }
                }
                assert(as_map(after) =~= as_map(before).insert(k, value));
            }
        }
    }
}

} // verus!
