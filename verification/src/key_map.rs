//! A map from keys to values that keeps its entries in the order of the
//! keys, so that two maps with the same contents are the same sequence.

use crate::key::Key;
use crate::text::{
    lemma_precedes_irreflexive, lemma_precedes_total, lemma_precedes_transitive, precedes,
};
use vstd::prelude::*;

verus! {

/// The keys come in strictly ascending order.
pub open spec fn sorted<X>(entries: Seq<(Seq<char>, X)>) -> bool {
    forall|i: int, j: int|
        0 <= i < j < entries.len() ==> precedes((#[trigger] entries[i]).0, (#[trigger] entries[j]).0)
}

/// Some entry has the key `key`.
pub open spec fn has_key<X>(entries: Seq<(Seq<char>, X)>, key: Seq<char>) -> bool {
    exists|i: int| 0 <= i < entries.len() && (#[trigger] entries[i]).0 == key
}

/// A position at which `key` stands, where it stands anywhere.
pub open spec fn position_of<X>(entries: Seq<(Seq<char>, X)>, key: Seq<char>) -> int {
    choose|i: int| 0 <= i < entries.len() && (#[trigger] entries[i]).0 == key
}

/// The value that stands beside `key`.
pub open spec fn lookup<X>(entries: Seq<(Seq<char>, X)>, key: Seq<char>) -> Option<X> {
    if has_key(entries, key) {
        Some(entries[position_of(entries, key)].1)
    } else {
        None
    }
}

/// The entries as a map.
pub open spec fn as_map<X>(entries: Seq<(Seq<char>, X)>) -> Map<Seq<char>, X> {
    Map::new(|key: Seq<char>| has_key(entries, key), |key: Seq<char>| lookup(entries, key)->Some_0)
}

/// The first position from `from` on whose key does not come before `key`.
pub open spec fn rank_from<X>(entries: Seq<(Seq<char>, X)>, key: Seq<char>, from: int) -> int
    decreases entries.len() - from,
{
    if from < entries.len() && precedes(entries[from].0, key) {
        rank_from(entries, key, from + 1)
    } else {
        from
    }
}

/// Where `key` stands among sorted entries, or would have to be put.
pub open spec fn rank<X>(entries: Seq<(Seq<char>, X)>, key: Seq<char>) -> int {
    rank_from(entries, key, 0)
}

/// The entries with `value` beside `key`: in place of the value that stood
/// there, or as a new entry at the key's place in the order.
pub open spec fn put<X>(entries: Seq<(Seq<char>, X)>, key: Seq<char>, value: X) -> Seq<
    (Seq<char>, X),
> {
    let at = rank(entries, key);
    if at < entries.len() && entries[at].0 == key {
        entries.update(at, (key, value))
    } else {
        entries.insert(at, (key, value))
    }
}

pub proof fn lemma_rank_from<X>(entries: Seq<(Seq<char>, X)>, key: Seq<char>, from: int)
    requires
        0 <= from <= entries.len(),
    ensures
        from <= rank_from(entries, key, from) <= entries.len(),
        forall|i: int|
            from <= i < rank_from(entries, key, from) ==> precedes(
                (#[trigger] entries[i]).0,
                key,
            ),
        rank_from(entries, key, from) < entries.len() ==> !precedes(
            entries[rank_from(entries, key, from)].0,
            key,
        ),
    decreases entries.len() - from,
{
    if from < entries.len() && precedes(entries[from].0, key) {
        lemma_rank_from(entries, key, from + 1);
    }
}

/// Among sorted entries the rank of a key parts those before the key from
/// the key itself and those after it.
pub proof fn lemma_rank<X>(entries: Seq<(Seq<char>, X)>, key: Seq<char>)
    requires
        sorted(entries),
    ensures
        0 <= rank(entries, key) <= entries.len(),
        forall|i: int| 0 <= i < rank(entries, key) ==> precedes((#[trigger] entries[i]).0, key),
        forall|i: int|
            rank(entries, key) <= i < entries.len() ==> (#[trigger] entries[i]).0 == key
                || precedes(key, entries[i].0),
        forall|i: int|
            rank(entries, key) < i < entries.len() ==> precedes(key, (#[trigger] entries[i]).0),
        has_key(entries, key) <==> (rank(entries, key) < entries.len() && entries[rank(
            entries,
            key,
        )].0 == key),
{
    let at = rank(entries, key);
    lemma_rank_from(entries, key, 0);
    if at < entries.len() {
        lemma_precedes_total(entries[at].0, key);
        assert forall|i: int| at < i < entries.len() implies precedes(
            key,
            (#[trigger] entries[i]).0,
        ) by {
            assert(precedes(entries[at].0, entries[i].0));
            if entries[at].0 != key {
                lemma_precedes_transitive(key, entries[at].0, entries[i].0);
            }
        }
    }
    if has_key(entries, key) {
        let p = position_of(entries, key);
        lemma_precedes_irreflexive(key);
        if p < at {
            assert(precedes(entries[p].0, key));
        } else if p > at {
            assert(precedes(key, entries[p].0));
        }
    }
}

/// Sorted entries hold no key twice.
pub proof fn lemma_sorted_distinct<X>(entries: Seq<(Seq<char>, X)>)
    requires
        sorted(entries),
    ensures
        forall|i: int, j: int|
            0 <= i < entries.len() && 0 <= j < entries.len() && (#[trigger] entries[i]).0
                == (#[trigger] entries[j]).0 ==> i == j,
{
    assert forall|i: int, j: int|
        0 <= i < entries.len() && 0 <= j < entries.len() && (#[trigger] entries[i]).0
            == (#[trigger] entries[j]).0 implies i == j by {
        lemma_precedes_irreflexive(entries[i].0);
        if i < j {
            assert(precedes(entries[i].0, entries[j].0));
        } else if j < i {
            assert(precedes(entries[j].0, entries[i].0));
        }
    }
}

/// Among sorted entries, the value beside the key of an entry is that
/// entry's value.
pub proof fn lemma_lookup_at<X>(entries: Seq<(Seq<char>, X)>, i: int)
    requires
        sorted(entries),
        0 <= i < entries.len(),
    ensures
        has_key(entries, entries[i].0),
        lookup(entries, entries[i].0) == Some(entries[i].1),
{
    lemma_sorted_distinct(entries);
    assert(has_key(entries, entries[i].0));
    let p = position_of(entries, entries[i].0);
    assert(entries[p].0 == entries[i].0);
}

/// Putting a value into sorted entries leaves them sorted, sets the value
/// beside the key, and touches no other key.
pub proof fn lemma_put<X>(entries: Seq<(Seq<char>, X)>, key: Seq<char>, value: X)
    requires
        sorted(entries),
    ensures
        sorted(put(entries, key, value)),
        lookup(put(entries, key, value), key) == Some(value),
        forall|other: Seq<char>|
            other != key ==> lookup(#[trigger] put(entries, key, value), other) == lookup(
                entries,
                other,
            ),
        forall|other: Seq<char>|
            has_key(#[trigger] put(entries, key, value), other) <==> (other == key || has_key(
                entries,
                other,
            )),
{
    let at = rank(entries, key);
    let after = put(entries, key, value);
    lemma_rank(entries, key);
    let replaced = at < entries.len() && entries[at].0 == key;
    // Where each entry of the result comes from.
    assert(after[at] == (key, value));
    assert forall|i: int, j: int| 0 <= i < j < after.len() implies precedes(
        (#[trigger] after[i]).0,
        (#[trigger] after[j]).0,
    ) by {
        if replaced {
            if i != at {
                assert(after[i] == entries[i]);
            }
            if j != at {
                assert(after[j] == entries[j]);
            }
            assert(precedes(entries[i].0, entries[j].0));
        } else {
            let oi = if i < at {
                i
            } else {
                i - 1
            };
            let oj = if j < at {
                j
            } else {
                j - 1
            };
            if i != at {
                assert(after[i] == entries[oi]);
            }
            if j != at {
                assert(after[j] == entries[oj]);
            }
            if i != at && j != at {
                assert(precedes(entries[oi].0, entries[oj].0));
            }
        }
    }
    lemma_lookup_at(after, at);
    assert forall|other: Seq<char>| other != key implies (has_key(after, other) <==> has_key(
        entries,
        other,
    )) && lookup(after, other) == lookup(entries, other) by {
        if has_key(entries, other) {
            let p = position_of(entries, other);
            let q = if replaced || p < at {
                p
            } else {
                p + 1
            };
            assert(after[q] == entries[p]);
            lemma_lookup_at(after, q);
            lemma_lookup_at(entries, p);
        }
        if has_key(after, other) {
            let q = position_of(after, other);
            let p = if replaced || q < at {
                q
            } else {
                q - 1
            };
            assert(after[q] == entries[p]);
            lemma_lookup_at(after, q);
            lemma_lookup_at(entries, p);
        }
    }
    assert(has_key(after, key));
}

/// Among sorted entries a key is looked up at the head, or else among the
/// rest.
pub proof fn lemma_lookup_head<X>(entries: Seq<(Seq<char>, X)>, key: Seq<char>)
    requires
        sorted(entries),
        entries.len() > 0,
    ensures
        sorted(entries.drop_first()),
        key == entries[0].0 ==> lookup(entries, key) == Some(entries[0].1),
        key == entries[0].0 ==> !has_key(entries.drop_first(), key),
        key != entries[0].0 ==> lookup(entries, key) == lookup(entries.drop_first(), key),
{
    let rest = entries.drop_first();
    assert forall|i: int, j: int| 0 <= i < j < rest.len() implies precedes(
        (#[trigger] rest[i]).0,
        (#[trigger] rest[j]).0,
    ) by {
        assert(rest[i] == entries[i + 1]);
        assert(rest[j] == entries[j + 1]);
    }
    lemma_lookup_at(entries, 0);
    lemma_sorted_distinct(entries);
    if has_key(rest, key) {
        let p = position_of(rest, key);
        assert(rest[p] == entries[p + 1]);
        lemma_lookup_at(rest, p);
        lemma_lookup_at(entries, p + 1);
    }
    if key != entries[0].0 && has_key(entries, key) {
        let p = position_of(entries, key);
        assert(rest[p - 1] == entries[p]);
        lemma_lookup_at(rest, p - 1);
        lemma_lookup_at(entries, p);
    }
}

/// Two runs of entries with the same keys hold a key at the same places.
pub proof fn lemma_lookup_related<X, Y>(
    a: Seq<(Seq<char>, X)>,
    b: Seq<(Seq<char>, Y)>,
    key: Seq<char>,
)
    requires
        sorted(a),
        a.len() == b.len(),
        forall|i: int| 0 <= i < a.len() ==> (#[trigger] a[i]).0 == b[i].0,
    ensures
        sorted(b),
        has_key(a, key) <==> has_key(b, key),
        has_key(a, key) ==> lookup(a, key) == Some(a[position_of(a, key)].1) && lookup(b, key)
            == Some(b[position_of(a, key)].1),
{
    assert forall|i: int, j: int| 0 <= i < j < b.len() implies precedes(
        (#[trigger] b[i]).0,
        (#[trigger] b[j]).0,
    ) by {
        assert(a[i].0 == b[i].0);
        assert(a[j].0 == b[j].0);
    }
    if has_key(a, key) {
        let p = position_of(a, key);
        assert(b[p].0 == key);
        lemma_lookup_at(b, p);
    }
    if has_key(b, key) {
        let p = position_of(b, key);
        assert(a[p].0 == key);
    }
}

/// The rank of a key depends on the keys alone.
pub proof fn lemma_rank_from_mapped<X, Y>(
    entries: Seq<(Seq<char>, X)>,
    mapped: Seq<(Seq<char>, Y)>,
    key: Seq<char>,
    from: int,
)
    requires
        0 <= from,
        entries.len() == mapped.len(),
        forall|i: int| 0 <= i < entries.len() ==> (#[trigger] entries[i]).0 == mapped[i].0,
    ensures
        rank_from(entries, key, from) == rank_from(mapped, key, from),
    decreases entries.len() - from,
{
    if from < entries.len() {
        assert(entries[from].0 == mapped[from].0);
        if precedes(entries[from].0, key) {
            lemma_rank_from_mapped(entries, mapped, key, from + 1);
        }
    }
}

/// A map from keys to values of type `V`, sorted by key.
#[derive(Debug)]
pub struct KeyMap<V> {
    entries: Vec<(Key, V)>,
}

impl<V> KeyMap<V> {
    /// The entries, in order, each key by its name.
    pub closed spec fn assoc(&self) -> Seq<(Seq<char>, V)> {
        self.entries@.map_values(|e: (Key, V)| (e.0@, e.1))
    }

    /// The keys come in strictly ascending order.
    pub open spec fn wf(&self) -> bool {
        sorted(self.assoc())
    }

    /// The empty map.
    pub fn new() -> (map: KeyMap<V>)
        ensures
            map.wf(),
            map.assoc() == Seq::<(Seq<char>, V)>::empty(),
    {
        let map = KeyMap { entries: Vec::new() };
        assert(map.assoc() =~= Seq::<(Seq<char>, V)>::empty());
        map
    }

    /// The number of entries.
    pub fn len(&self) -> (n: usize)
        ensures
            n == self.assoc().len(),
    {
        self.entries.len()
    }

    /// The key of the entry at `index`.
    pub fn key_at(&self, index: usize) -> (key: &Key)
        requires
            index < self.assoc().len(),
        ensures
            key@ == self.assoc()[index as int].0,
    {
        &self.entries[index].0
    }

    /// The value of the entry at `index`.
    pub fn value_at(&self, index: usize) -> (value: &V)
        requires
            index < self.assoc().len(),
        ensures
            *value == self.assoc()[index as int].1,
    {
        &self.entries[index].1
    }

    /// The position of `key`, where the map holds it.
    pub fn find(&self, key: &Key) -> (found: Option<usize>)
        ensures
            found is Some <==> has_key(self.assoc(), key@),
            found is Some ==> found->Some_0 < self.assoc().len() && self.assoc()[found->Some_0 as int].0
                == key@,
    {
        let mut i: usize = 0;
        while i < self.entries.len()
            invariant
                i <= self.entries.len(),
                forall|j: int| 0 <= j < i ==> (#[trigger] self.assoc()[j]).0 != key@,
            decreases self.entries.len() - i,
        {
            if self.entries[i].0 == *key {
                assert(self.assoc()[i as int].0 == key@);
                return Some(i);
            }
            i += 1;
        }
        None
    }

    /// The value beside `key`, where the map holds the key.
    pub fn get(&self, key: &Key) -> (value: Option<&V>)
        requires
            self.wf(),
        ensures
            value is Some <==> has_key(self.assoc(), key@),
            value is Some ==> lookup(self.assoc(), key@) == Some(*value->Some_0),
    {
        match self.find(key) {
            Some(i) => {
                proof {
                    lemma_lookup_at(self.assoc(), i as int);
                }
                Some(&self.entries[i].1)
            },
            None => None,
        }
    }

    /// Puts `value` beside `key`, in place of what stood there.
    pub fn put(&mut self, key: Key, value: V)
        requires
            old(self).wf(),
        ensures
            final(self).wf(),
            final(self).assoc() == put(old(self).assoc(), key@, value),
    {
        let mut i: usize = 0;
        while i < self.entries.len() && self.entries[i].0.precedes(&key)
            invariant
                i <= self.entries.len(),
                rank(self.assoc(), key@) == rank_from(self.assoc(), key@, i as int),
            decreases self.entries.len() - i,
        {
            i += 1;
        }
        proof {
            lemma_put(self.assoc(), key@, value);
        }
        if i < self.entries.len() && self.entries[i].0 == key {
            self.entries[i] = (key, value);
        } else {
            self.entries.insert(i, (key, value));
        }
        assert(self.assoc() =~= put(old(self).assoc(), key@, value));
    }

    /// Appends an entry without looking at the order: for copying a map
    /// entry by entry.
    pub fn push_last(&mut self, key: Key, value: V)
        ensures
            final(self).assoc() == old(self).assoc().push((key@, value)),
    {
        self.entries.push((key, value));
        assert(self.assoc() =~= old(self).assoc().push((key@, value)));
    }
}

} // verus!
