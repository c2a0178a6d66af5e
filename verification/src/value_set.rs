//! The values that one property holds.

use crate::distinct::merged;
use crate::value::{Value, ValueView};
use vstd::prelude::*;

verus! {

/// A set of values, kept in the order in which they came.
#[derive(Debug)]
pub struct ValueSet {
    items: Vec<Value>,
}

/// The views of a run of values, in order.
pub open spec fn value_views(items: Seq<Value>) -> Seq<ValueView> {
    items.map_values(|v: Value| v@)
}

impl View for ValueSet {
    type V = Seq<ValueView>;

    closed spec fn view(&self) -> Seq<ValueView> {
        value_views(self.items@)
    }
}

impl ValueSet {
    /// No value occurs twice.
    pub open spec fn wf(&self) -> bool {
        self@.no_duplicates()
    }

    /// The empty set.
    pub fn new() -> (set: ValueSet)
        ensures
            set.wf(),
            set@ == Seq::<ValueView>::empty(),
    {
        let set = ValueSet { items: Vec::new() };
        assert(set@ =~= Seq::<ValueView>::empty());
        set
    }

    /// How many values the set holds.
    pub fn len(&self) -> (n: usize)
        ensures
            n == self@.len(),
    {
        self.items.len()
    }

    /// The value at position `index`.
    pub fn get(&self, index: usize) -> (value: &Value)
        requires
            index < self@.len(),
        ensures
            value@ == self@[index as int],
    {
        &self.items[index]
    }

    /// Whether the set holds `value`.
    pub fn contains(&self, value: &Value) -> (r: bool)
        ensures
            r == self@.contains(value@),
    {
        let mut i: usize = 0;
        while i < self.items.len()
            invariant
                i <= self.items.len(),
                forall|j: int| 0 <= j < i ==> self@[j] != value@,
            decreases self.items.len() - i,
        {
            if self.items[i] == *value {
                assert(self@[i as int] == value@);
                return true;
            }
            i += 1;
        }
        false
    }

    /// Adds `value` unless the set already holds it.
    pub fn insert(&mut self, value: Value)
        requires
            old(self).wf(),
        ensures
            final(self).wf(),
            final(self)@ == if old(self)@.contains(value@) {
                old(self)@
            } else {
                old(self)@.push(value@)
            },
    {
        if !self.contains(&value) {
            self.items.push(value);
            assert(self@ =~= old(self)@.push(value@));
        }
    }

    /// The set with `value` added.
    pub fn with_value(self, value: Value) -> (set: ValueSet)
        requires
            self.wf(),
        ensures
            set.wf(),
            set@ == if self@.contains(value@) {
                self@
            } else {
                self@.push(value@)
            },
    {
        let mut set = self;
        set.insert(value);
        set
    }

    /// Adds every value of `other` that the set does not hold yet, in the
    /// order of `other`.
    pub fn extend(&mut self, other: &ValueSet)
        requires
            old(self).wf(),
        ensures
            final(self).wf(),
            final(self)@ == merged(old(self)@, other@),
            other@.len() == 0 ==> final(self)@ == old(self)@,
    {
        let mut i: usize = 0;
        assert(other@.skip(0) =~= other@);
        while i < other.items.len()
            invariant
                i <= other.items.len(),
                self.wf(),
                merged(self@, other@.skip(i as int)) == merged(old(self)@, other@),
            decreases other.items.len() - i,
        {
            let ghost before = self@;
            let ghost rest = other@.skip(i as int);
            self.insert(other.items[i].clone());
            proof {
                assert(rest.drop_first() =~= other@.skip(i + 1));
                assert(rest[0] == other@[i as int]);
            }
            i += 1;
        }
        proof {
            assert(other@.skip(i as int) =~= Seq::<ValueView>::empty());
        }
    }
}

impl Clone for ValueSet {
    fn clone(&self) -> (set: ValueSet)
        ensures
            set@ == self@,
    {
        let mut items: Vec<Value> = Vec::new();
        let mut i: usize = 0;
        while i < self.items.len()
            invariant
                i <= self.items.len(),
                items@.len() == i,
                forall|j: int| 0 <= j < i ==> items@[j]@ == self.items@[j]@,
            decreases self.items.len() - i,
        {
            items.push(self.items[i].clone());
            i += 1;
        }
        assert(value_views(items@) =~= self@);
        ValueSet { items }
    }
}

} // verus!
