//! The labels of an entity or of a type.

use crate::key::Key;
use crate::key_map::{has_key, lemma_put, position_of, KeyMap};
use crate::text::{
    append_part, join, lemma_precedes_asymmetric, lemma_precedes_irreflexive, precedes,
};
use vstd::prelude::*;
use vstd::std_specs::cmp::PartialEqSpecImpl;
use vstd::string::*;

verus! {

/// A set of label names.
#[derive(Debug)]
pub struct LabelSet {
    map: KeyMap<()>,
}

/// A set of labels as it is printed: the names in ascending order, in
/// braces.
pub open spec fn render_labels(names: Seq<Seq<char>>) -> Seq<char> {
    "{"@ + join(names, ", "@) + "}"@
}

/// The names come in strictly ascending order.
pub open spec fn ascending(names: Seq<Seq<char>>) -> bool {
    forall|i: int, j: int| 0 <= i < j < names.len() ==> precedes(names[i], names[j])
}

/// The names of a set of labels, in ascending order.
pub open spec fn names_of(labels: Set<Seq<char>>) -> Seq<Seq<char>> {
    choose|names: Seq<Seq<char>>| ascending(names) && names.to_set() == labels
}

/// Two ascending runs of names that hold the same names are the same.
pub proof fn lemma_ascending_unique(a: Seq<Seq<char>>, b: Seq<Seq<char>>)
    requires
        ascending(a),
        ascending(b),
        a.to_set() == b.to_set(),
    ensures
        a == b,
    decreases a.len(),
{
    if a.len() == 0 {
        if b.len() > 0 {
            assert(b.to_set().contains(b[0]));
            assert(a.contains(b[0]));
        }
        assert(a =~= b);
    } else {
        assert(a.to_set().contains(a[0]));
        assert(b.contains(a[0]));
        let k = choose|k: int| 0 <= k < b.len() && b[k] == a[0];
        assert(b.to_set().contains(b[0]));
        assert(a.contains(b[0]));
        let m = choose|m: int| 0 <= m < a.len() && a[m] == b[0];
        if k > 0 && m > 0 {
            assert(precedes(b[0], b[k]));
            assert(precedes(a[0], a[m]));
            lemma_precedes_asymmetric(a[0], b[0]);
        }
        assert(a[0] == b[0]);
        let a_rest = a.drop_first();
        let b_rest = b.drop_first();
        assert forall|name: Seq<char>| a_rest.contains(name) <==> b_rest.contains(name) by {
            lemma_precedes_irreflexive(a[0]);
            if a_rest.contains(name) {
                let p = choose|p: int| 0 <= p < a_rest.len() && a_rest[p] == name;
                assert(a[p + 1] == name);
                assert(precedes(a[0], a[p + 1]));
                assert(a.to_set().contains(name));
                assert(b.contains(name));
                let q = choose|q: int| 0 <= q < b.len() && b[q] == name;
                assert(b_rest[q - 1] == name);
            }
            if b_rest.contains(name) {
                let p = choose|p: int| 0 <= p < b_rest.len() && b_rest[p] == name;
                assert(b[p + 1] == name);
                assert(precedes(b[0], b[p + 1]));
                assert(b.to_set().contains(name));
                assert(a.contains(name));
                let q = choose|q: int| 0 <= q < a.len() && a[q] == name;
                assert(a_rest[q - 1] == name);
            }
        }
        assert(a_rest.to_set() =~= b_rest.to_set());
        assert(ascending(a_rest)) by {
            assert forall|i: int, j: int| 0 <= i < j < a_rest.len() implies precedes(
                a_rest[i],
                a_rest[j],
            ) by {
                assert(precedes(a[i + 1], a[j + 1]));
            }
        }
        assert(ascending(b_rest)) by {
            assert forall|i: int, j: int| 0 <= i < j < b_rest.len() implies precedes(
                b_rest[i],
                b_rest[j],
            ) by {
                assert(precedes(b[i + 1], b[j + 1]));
            }
        }
        lemma_ascending_unique(a_rest, b_rest);
        assert(a =~= seq![a[0]] + a_rest);
        assert(b =~= seq![b[0]] + b_rest);
    }
}

impl View for LabelSet {
    type V = Set<Seq<char>>;

    /// The labels as a set.
    open spec fn view(&self) -> Set<Seq<char>> {
        self.names().to_set()
    }
}

impl LabelSet {
    /// The labels, by name.
    pub closed spec fn names(&self) -> Seq<Seq<char>> {
        self.map.assoc().map_values(|e: (Seq<char>, ())| e.0)
    }

    /// The labels are kept in ascending order, each once.
    pub open spec fn wf(&self) -> bool {
        ascending(self.names())
    }

    proof fn lemma_related(&self)
        ensures
            self.wf() <==> self.map.wf(),
            forall|name: Seq<char>| has_key(self.map.assoc(), name) <==> #[trigger] self@.contains(name),
    {
        let names = self.names();
        let entries = self.map.assoc();
        if self.wf() {
            assert forall|i: int, j: int| 0 <= i < j < entries.len() implies precedes(
                (#[trigger] entries[i]).0,
                (#[trigger] entries[j]).0,
            ) by {
                assert(precedes(names[i], names[j]));
            }
        }
        if self.map.wf() {
            assert forall|i: int, j: int| 0 <= i < j < names.len() implies precedes(
                names[i],
                names[j],
            ) by {
                assert(precedes(entries[i].0, entries[j].0));
            }
        }
        assert forall|name: Seq<char>| has_key(entries, name) <==> #[trigger] self@.contains(
            name,
        ) by {
            if has_key(entries, name) {
                let p = position_of(entries, name);
                assert(names[p] == name);
            }
            if names.contains(name) {
                let p = choose|p: int| 0 <= p < names.len() && names[p] == name;
                assert(entries[p].0 == name);
            }
        }
    }

    /// The names of a set in order are the names of its labels in ascending
    /// order.
    pub proof fn lemma_names(&self)
        requires
            self.wf(),
        ensures
            names_of(self@) == self.names(),
    {
        let witness = self.names();
        assert(ascending(witness) && witness.to_set() == self@);
        lemma_ascending_unique(names_of(self@), self.names());
    }

    /// The empty set.
    pub fn new() -> (labels: LabelSet)
        ensures
            labels.wf(),
            labels@ == Set::<Seq<char>>::empty(),
            labels.names() == Seq::<Seq<char>>::empty(),
    {
        let labels = LabelSet { map: KeyMap::new() };
        assert(labels.names() =~= Seq::<Seq<char>>::empty());
        assert(labels@ =~= Set::<Seq<char>>::empty());
        labels
    }

    /// The number of labels.
    pub fn len(&self) -> (n: usize)
        ensures
            n == self.names().len(),
    {
        self.map.len()
    }

    /// The label at position `index`, counted in ascending order.
    pub fn get(&self, index: usize) -> (label: &str)
        requires
            index < self.names().len(),
        ensures
            label@ == self.names()[index as int],
    {
        self.map.key_at(index).str()
    }

    /// Whether the set holds `label`.
    pub fn contains(&self, label: &str) -> (r: bool)
        ensures
            r == self@.contains(label@),
    {
        proof {
            self.lemma_related();
        }
        self.map.find(&Key::new(label)).is_some()
    }

    /// Adds `label` to the set.
    pub fn insert(&mut self, label: &str)
        requires
            old(self).wf(),
        ensures
            final(self).wf(),
            final(self)@ == old(self)@.insert(label@),
    {
        proof {
            self.lemma_related();
            lemma_put(self.map.assoc(), label@, ());
        }
        self.map.put(Key::new(label), ());
        proof {
            self.lemma_related();
            assert forall|name: Seq<char>| self@.contains(name) <==> old(self)@.insert(
                label@,
            ).contains(name) by {
                assert(has_key(self.map.assoc(), name) <==> (name == label@ || has_key(
                    old(self).map.assoc(),
                    name,
                )));
            }
            assert(self@ =~= old(self)@.insert(label@));
        }
    }

    /// The set with `label` added.
    pub fn with_label(self, label: &str) -> (labels: LabelSet)
        requires
            self.wf(),
        ensures
            labels.wf(),
            labels@ == self@.insert(label@),
    {
        let mut labels = self;
        labels.insert(label);
        labels
    }

    /// The labels of both sets.
    pub fn union(&self, other: &LabelSet) -> (labels: LabelSet)
        requires
            self.wf(),
        ensures
            labels.wf(),
            labels@ == self@.union(other@),
    {
        let mut labels = self.clone();
        let mut i: usize = 0;
        while i < other.len()
            invariant
                i <= other.names().len(),
                labels.wf(),
                labels@ == self@.union(other.names().take(i as int).to_set()),
            decreases other.names().len() - i,
        {
            labels.insert(other.get(i));
            proof {
                let upto = other.names().take(i as int);
                let next = other.names().take(i + 1);
                assert(next =~= upto.push(other.names()[i as int]));
                assert(next.to_set() =~= upto.to_set().insert(other.names()[i as int])) by {
                    assert forall|name: Seq<char>| next.contains(name) <==> upto.contains(name)
                        || name == other.names()[i as int] by {
                        if upto.contains(name) {
                            let p = choose|p: int| 0 <= p < upto.len() && upto[p] == name;
                            assert(next[p] == name);
                        }
                        if name == other.names()[i as int] {
                            assert(next[i as int] == name);
                        }
                    }
                }
                assert(labels@ =~= self@.union(next.to_set()));
            }
            i += 1;
        }
        proof {
            assert(other.names().take(i as int) =~= other.names());
        }
        labels
    }

    /// Decides whether two sets hold the same labels.
    pub fn same(&self, other: &LabelSet) -> (r: bool)
        ensures
            r == (self@ == other@),
    {
        let r = self.within(other) && other.within(self);
        proof {
            if r {
                assert(self@ =~= other@);
            }
        }
        r
    }

    /// Decides whether `other` holds every label of this set.
    pub fn within(&self, other: &LabelSet) -> (r: bool)
        ensures
            r == self@.subset_of(other@),
    {
        let mut i: usize = 0;
        while i < self.len()
            invariant
                i <= self.names().len(),
                forall|j: int| 0 <= j < i ==> other@.contains(self.names()[j]),
            decreases self.names().len() - i,
        {
            if !other.contains(self.get(i)) {
                assert(self@.contains(self.names()[i as int]));
                return false;
            }
            i += 1;
        }
        assert forall|name: Seq<char>| self@.contains(name) implies other@.contains(name) by {
            let p = choose|p: int| 0 <= p < self.names().len() && self.names()[p] == name;
        }
        true
    }

    /// Writes the set out.
    pub fn to_string(&self) -> (s: String)
        ensures
            s@ == render_labels(self.names()),
    {
        let ghost parts = self.names();
        let mut body = String::new();
        let mut i: usize = 0;
        assert(parts.take(0) =~= Seq::<Seq<char>>::empty());
        while i < self.len()
            invariant
                i <= self.names().len(),
                parts == self.names(),
                body@ == join(parts.take(i as int), ", "@),
            decreases self.names().len() - i,
        {
            append_part(&mut body, self.get(i), ", ", Ghost(parts), i);
            i += 1;
        }
        assert(parts.take(i as int) =~= parts);
        let mut s = String::from_str("{");
        s.append(body.as_str());
        s.append("}");
        s
    }
}

impl Clone for LabelSet {
    fn clone(&self) -> (labels: LabelSet)
        ensures
            labels.names() == self.names(),
            labels@ == self@,
    {
        let mut map: KeyMap<()> = KeyMap::new();
        let mut i: usize = 0;
        assert(map.assoc() =~= self.map.assoc().take(0));
        while i < self.map.len()
            invariant
                i <= self.map.assoc().len(),
                map.assoc() == self.map.assoc().take(i as int),
            decreases self.map.assoc().len() - i,
        {
            let key = self.map.key_at(i).clone();
            let unit = *self.map.value_at(i);
            map.push_last(key, unit);
            assert(self.map.assoc().take(i + 1)[i as int] == (key@, unit));
            assert(map.assoc() =~= self.map.assoc().take(i + 1));
            i += 1;
        }
        assert(self.map.assoc().take(i as int) =~= self.map.assoc());
        LabelSet { map }
    }
}

impl PartialEq for LabelSet {
    fn eq(&self, other: &LabelSet) -> (r: bool) {
        self.same(other)
    }
}

impl PartialEqSpecImpl for LabelSet {
    open spec fn obeys_eq_spec() -> bool {
        true
    }

    open spec fn eq_spec(&self, other: &LabelSet) -> bool {
        self@ == other@
    }
}

} // verus!
