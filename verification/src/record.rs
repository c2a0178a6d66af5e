//! The properties of one node or edge.

use crate::key::Key;
use crate::key_map::{
    has_key, lemma_put, lemma_rank_from_mapped, lookup, put, rank, sorted, KeyMap,
};
use crate::text::{append_part, join};
use crate::value::{Value, ValueView};
use crate::distinct::{lemma_merged, lemma_merged_one, merged};
use crate::value_set::ValueSet;
use vstd::prelude::*;
use vstd::string::*;

verus! {

/// What a [`Record`] stands for: its keys in ascending order, each with its
/// values in the order in which they came.
pub type RecordView = Seq<(Seq<char>, Seq<ValueView>)>;

/// The properties of an entity: each key with the set of its values.
#[derive(Debug)]
pub struct Record {
    map: KeyMap<ValueSet>,
}

/// The values beside `key`; none where the record lacks the key.
pub open spec fn values_of(record: RecordView, key: Seq<char>) -> Seq<ValueView> {
    match lookup(record, key) {
        Some(values) => values,
        None => Seq::empty(),
    }
}

/// `record` with `value` among the values of `key`.
pub open spec fn with_value(record: RecordView, key: Seq<char>, value: ValueView) -> RecordView {
    let values = values_of(record, key);
    put(
        record,
        key,
        if values.contains(value) {
            values
        } else {
            values.push(value)
        },
    )
}

/// `record` with all of `values` among the values of `key`.
pub open spec fn with_values(record: RecordView, key: Seq<char>, values: Seq<ValueView>) -> RecordView {
    put(record, key, merged(values_of(record, key), values))
}

/// No key occurs twice, the keys ascend, and no key holds a value twice.
pub open spec fn record_wf(record: RecordView) -> bool {
    &&& sorted(record)
    &&& forall|i: int| 0 <= i < record.len() ==> (#[trigger] record[i]).1.no_duplicates()
}

/// One property as it is printed: the key, a colon, and the values in
/// square brackets.
pub open spec fn render_property(entry: (Seq<char>, Seq<ValueView>)) -> Seq<char> {
    entry.0 + ": ["@ + join(entry.1.map_values(|v: ValueView| v.render()), ", "@) + "]"@
}

/// A record as it is printed: its properties in braces.
pub open spec fn render_record(record: RecordView) -> Seq<char> {
    "{"@ + join(record.map_values(|e: (Seq<char>, Seq<ValueView>)| render_property(e)), ", "@)
        + "}"@
}

impl View for Record {
    type V = RecordView;

    closed spec fn view(&self) -> RecordView {
        self.map.assoc().map_values(|e: (Seq<char>, ValueSet)| (e.0, e.1@))
    }
}

impl Record {
    /// The record is in order: see [`record_wf`].
    pub open spec fn wf(&self) -> bool {
        record_wf(self@)
    }

    proof fn lemma_map_wf(&self)
        requires
            self.wf(),
        ensures
            self.map.wf(),
            forall|i: int| 0 <= i < self.map.assoc().len() ==> (#[trigger] self.map.assoc()[i]).1.wf(),
    {
        assert forall|i: int, j: int| 0 <= i < j < self.map.assoc().len() implies crate::text::precedes(
            (#[trigger] self.map.assoc()[i]).0,
            (#[trigger] self.map.assoc()[j]).0,
        ) by {
            assert(self@[i].0 == self.map.assoc()[i].0);
            assert(self@[j].0 == self.map.assoc()[j].0);
        }
        assert forall|i: int| 0 <= i < self.map.assoc().len() implies (#[trigger] self.map.assoc()[i]).1.wf() by {
            assert(self@[i].1 == self.map.assoc()[i].1@);
        }
    }

    /// The record without properties.
    pub fn new() -> (record: Record)
        ensures
            record.wf(),
            record@ == RecordView::empty(),
    {
        let record = Record { map: KeyMap::new() };
        assert(record@ =~= RecordView::empty());
        record
    }

    /// The number of keys.
    pub fn len(&self) -> (n: usize)
        ensures
            n == self@.len(),
    {
        self.map.len()
    }

    /// The key at position `index`, counted in ascending order.
    pub fn key_at(&self, index: usize) -> (key: &Key)
        requires
            index < self@.len(),
        ensures
            key@ == self@[index as int].0,
    {
        self.map.key_at(index)
    }

    /// The values of the key at position `index`.
    pub fn values_at(&self, index: usize) -> (values: &ValueSet)
        requires
            index < self@.len(),
        ensures
            values@ == self@[index as int].1,
            self.wf() ==> values.wf(),
    {
        self.map.value_at(index)
    }

    /// Whether the record holds `key`.
    pub fn contains_key(&self, key: &Key) -> (r: bool)
        ensures
            r == has_key(self@, key@),
    {
        let found = self.map.find(key);
        proof {
            if has_key(self@, key@) {
                let i = crate::key_map::position_of(self@, key@);
                assert(self.map.assoc()[i].0 == key@);
            }
            if found is Some {
                assert(self@[found->Some_0 as int].0 == key@);
            }
        }
        found.is_some()
    }

    /// Adds `values` to the values of `key`.
    pub fn insert_values(&mut self, key: Key, values: ValueSet)
        requires
            old(self).wf(),
        ensures
            final(self).wf(),
            final(self)@ == with_values(old(self)@, key@, values@),
    {
        proof {
            self.lemma_map_wf();
            lemma_rank_from_mapped(self.map.assoc(), self@, key@, 0);
        }
        let found = self.map.find(&key);
        let mut all = match found {
            Some(i) => self.map.value_at(i).clone(),
            None => ValueSet::new(),
        };
        proof {
            if found is Some {
                let i = found->Some_0 as int;
                assert(self@[i].0 == key@);
                crate::key_map::lemma_lookup_at(self@, i);
            } else {
                if has_key(self@, key@) {
                    let i = crate::key_map::position_of(self@, key@);
                    assert(self.map.assoc()[i].0 == key@);
                }
            }
            assert(all@ == values_of(self@, key@));
            lemma_merged(all@, values@);
        }
        all.extend(&values);
        self.map.put(key, all);
        proof {
            let target = with_values(old(self)@, key@, values@);
            let before = old(self).map.assoc();
            let at = rank(before, key@);
            assert(at == rank(old(self)@, key@));
            crate::key_map::lemma_rank(before, key@);
            if at < before.len() {
                assert(old(self)@[at].0 == before[at].0);
            }
            assert(self.map.assoc() == put(before, key@, all));
            assert(self@.len() == target.len());
            assert forall|i: int| 0 <= i < self@.len() implies self@[i] == target[i] by {
                let replaced = at < before.len() && before[at].0 == key@;
                if i != at {
                    let o = if replaced || i < at {
                        i
                    } else {
                        i - 1
                    };
                    assert(self.map.assoc()[i] == before[o]);
                    assert(target[i] == old(self)@[o]);
                }
            }
            assert(self@ =~= target);
            lemma_put(old(self)@, key@, all@);
            let at = rank(old(self)@, key@);
            crate::key_map::lemma_rank(old(self)@, key@);
            assert forall|i: int| 0 <= i < self@.len() implies (#[trigger] self@[i]).1.no_duplicates() by {
                if i != at {
                    let replaced = at < old(self)@.len() && old(self)@[at].0 == key@;
                    let o = if replaced || i < at {
                        i
                    } else {
                        i - 1
                    };
                    assert(self@[i] == old(self)@[o]);
                }
            }
        }
    }

    /// Adds `value` to the values of `key`.
    pub fn insert(&mut self, key: Key, value: Value)
        requires
            old(self).wf(),
        ensures
            final(self).wf(),
            final(self)@ == with_value(old(self)@, key@, value@),
    {
        let ghost values = values_of(self@, key@);
        let one = ValueSet::new().with_value(value);
        proof {
            assert(one@ =~= seq![value@]);
            lemma_merged_one(values, value@);
            assert(merged(values, one@) == if values.contains(value@) {
                values
            } else {
                values.push(value@)
            });
        }
        self.insert_values(key, one);
    }

    /// The record with `value` added to the values of `key`.
    pub fn with_key_value(self, key: &str, value: Value) -> (record: Record)
        requires
            self.wf(),
        ensures
            record.wf(),
            record@ == with_value(self@, key@, value@),
    {
        let mut record = self;
        record.insert(Key::new(key), value);
        record
    }

    /// Writes the record out.
    pub fn to_string(&self) -> (s: String)
        ensures
            s@ == render_record(self@),
    {
        let ghost parts = self@.map_values(|e: (Seq<char>, Seq<ValueView>)| render_property(e));
        let mut body = String::new();
        let mut i: usize = 0;
        assert(parts.take(0) =~= Seq::<Seq<char>>::empty());
        while i < self.len()
            invariant
                i <= self@.len(),
                parts == self@.map_values(|e: (Seq<char>, Seq<ValueView>)| render_property(e)),
                body@ == join(parts.take(i as int), ", "@),
            decreases self@.len() - i,
        {
            let property = render_values(self.key_at(i), self.values_at(i));
            append_part(&mut body, property.as_str(), ", ", Ghost(parts), i);
            i += 1;
        }
        assert(parts.take(i as int) =~= parts);
        let mut s = String::from_str("{");
        s.append(body.as_str());
        s.append("}");
        s
    }
}

fn render_values(key: &Key, values: &ValueSet) -> (s: String)
    ensures
        s@ == render_property((key@, values@)),
{
    let ghost parts = values@.map_values(|v: ValueView| v.render());
    let mut body = String::new();
    let mut i: usize = 0;
    assert(parts.take(0) =~= Seq::<Seq<char>>::empty());
    while i < values.len()
        invariant
            i <= values@.len(),
            parts == values@.map_values(|v: ValueView| v.render()),
            body@ == join(parts.take(i as int), ", "@),
        decreases values@.len() - i,
    {
        let written = values.get(i).to_string();
        append_part(&mut body, written.as_str(), ", ", Ghost(parts), i);
        i += 1;
    }
    assert(parts.take(i as int) =~= parts);
    let mut s = key.to_string();
    s.append(": [");
    s.append(body.as_str());
    s.append("]");
    s
}

impl Clone for Record {
    fn clone(&self) -> (record: Record)
        ensures
            record@ == self@,
    {
        let mut map: KeyMap<ValueSet> = KeyMap::new();
        let mut i: usize = 0;
        while i < self.map.len()
            invariant
                i <= self.map.assoc().len(),
                map.assoc().len() == i,
                forall|j: int|
                    0 <= j < i ==> (#[trigger] map.assoc()[j]).0 == self.map.assoc()[j].0
                        && map.assoc()[j].1@ == self.map.assoc()[j].1@,
            decreases self.map.assoc().len() - i,
        {
            map.push_last(self.map.key_at(i).clone(), self.map.value_at(i).clone());
            i += 1;
        }
        let record = Record { map };
        assert(record@ =~= self@);
        record
    }
}

} // verus!
