//! Sets of record types: the alternative shapes that a type allows.

use crate::distinct::{lemma_merged, lemma_merged_one, lemma_merged_push, merged};
use crate::key_map::sorted;
use crate::record_type::{combined, lemma_combined, render_record_type, RecordType, RecordTypeView};
use crate::text::{append_part, join};
use vstd::prelude::*;
use vstd::std_specs::cmp::PartialEqSpecImpl;
use vstd::string::*;

verus! {

/// A set of record types, kept in the order in which they came.
#[derive(Debug)]
pub struct RecordTypeSet {
    items: Vec<RecordType>,
}

/// The views of a run of record types, in order.
pub open spec fn record_type_views(items: Seq<RecordType>) -> Seq<RecordTypeView> {
    items.map_values(|r: RecordType| r@)
}

/// No alternative occurs twice, and each is in order.
pub open spec fn alternatives_wf(alternatives: Seq<RecordTypeView>) -> bool {
    &&& alternatives.no_duplicates()
    &&& forall|i: int| 0 <= i < alternatives.len() ==> sorted(#[trigger] alternatives[i])
}

/// The conjunctions of `left` with each of `right`, in order.
pub open spec fn row(left: RecordTypeView, right: Seq<RecordTypeView>) -> Seq<RecordTypeView> {
    right.map_values(|r: RecordTypeView| combined(left, r))
}

/// The conjunctions of each of the first `upto` of `left` with each of
/// `right`, every one once, in the order in which they arise.
pub open spec fn crossed_upto(
    left: Seq<RecordTypeView>,
    right: Seq<RecordTypeView>,
    upto: int,
) -> Seq<RecordTypeView>
    decreases upto,
{
    if upto <= 0 {
        Seq::empty()
    } else {
        merged(crossed_upto(left, right, upto - 1), row(left[upto - 1], right))
    }
}

/// The cross product of two sets of alternatives: the conjunction of each
/// of `left` with each of `right`.
pub open spec fn crossed(left: Seq<RecordTypeView>, right: Seq<RecordTypeView>) -> Seq<
    RecordTypeView,
> {
    crossed_upto(left, right, left.len() as int)
}

/// An alternative set as it is printed: the record types in brackets, with
/// a bar between each two.
pub open spec fn render_alternatives(alternatives: Seq<RecordTypeView>) -> Seq<char> {
    "["@ + join(alternatives.map_values(|r: RecordTypeView| render_record_type(r)), " | "@) + "]"@
}

pub proof fn lemma_crossed_upto(left: Seq<RecordTypeView>, right: Seq<RecordTypeView>, upto: int)
    requires
        0 <= upto <= left.len(),
        alternatives_wf(left),
        alternatives_wf(right),
    ensures
        alternatives_wf(crossed_upto(left, right, upto)),
        forall|c: RecordTypeView| #[trigger]
            crossed_upto(left, right, upto).contains(c) <==> exists|i: int, j: int|
                0 <= i < upto && 0 <= j < right.len() && c == combined(
                    #[trigger] left[i],
                    #[trigger] right[j],
                ),
    decreases upto,
{
    if upto > 0 {
        let before = crossed_upto(left, right, upto - 1);
        let next = row(left[upto - 1], right);
        let all = crossed_upto(left, right, upto);
        lemma_crossed_upto(left, right, upto - 1);
        lemma_merged(before, next);
        assert forall|c: RecordTypeView| #[trigger]
            all.contains(c) <==> exists|i: int, j: int|
                0 <= i < upto && 0 <= j < right.len() && c == combined(
                    #[trigger] left[i],
                    #[trigger] right[j],
                ) by {
            if next.contains(c) {
                let j = choose|j: int| 0 <= j < next.len() && next[j] == c;
                assert(c == combined(left[upto - 1], right[j]));
            }
            if before.contains(c) {
                let (i, j) = choose|i: int, j: int|
                    0 <= i < upto - 1 && 0 <= j < right.len() && c == combined(
                        #[trigger] left[i],
                        #[trigger] right[j],
                    );
                assert(0 <= i < upto && c == combined(left[i], right[j]));
            }
            if exists|i: int, j: int|
                0 <= i < upto && 0 <= j < right.len() && c == combined(
                    #[trigger] left[i],
                    #[trigger] right[j],
                ) {
                let (i, j) = choose|i: int, j: int|
                    0 <= i < upto && 0 <= j < right.len() && c == combined(
                        #[trigger] left[i],
                        #[trigger] right[j],
                    );
                if i == upto - 1 {
                    assert(next[j] == c);
                } else {
                    assert(0 <= i < upto - 1 && c == combined(left[i], right[j]));
                    assert(before.contains(c));
                }
            }
        }
        assert forall|k: int| 0 <= k < all.len() implies sorted(#[trigger] all[k]) by {
            let c = all[k];
            assert(all.contains(c));
            let (i, j) = choose|i: int, j: int|
                0 <= i < upto && 0 <= j < right.len() && c == combined(
                    #[trigger] left[i],
                    #[trigger] right[j],
                );
            lemma_combined(left[i], right[j]);
        }
    }
}

/// The cross product of two sets of alternatives holds the conjunction of
/// each of the one with each of the other, and nothing else.
pub proof fn lemma_crossed(left: Seq<RecordTypeView>, right: Seq<RecordTypeView>)
    requires
        alternatives_wf(left),
        alternatives_wf(right),
    ensures
        alternatives_wf(crossed(left, right)),
        forall|c: RecordTypeView| #[trigger]
            crossed(left, right).contains(c) <==> exists|i: int, j: int|
                0 <= i < left.len() && 0 <= j < right.len() && c == combined(
                    #[trigger] left[i],
                    #[trigger] right[j],
                ),
{
    lemma_crossed_upto(left, right, left.len() as int);
}

/// Merging two sets of alternatives gives a set of alternatives.
pub proof fn lemma_merged_wf(base: Seq<RecordTypeView>, more: Seq<RecordTypeView>)
    requires
        alternatives_wf(base),
        forall|i: int| 0 <= i < more.len() ==> sorted(#[trigger] more[i]),
    ensures
        alternatives_wf(merged(base, more)),
{
    let all = merged(base, more);
    lemma_merged(base, more);
    assert forall|k: int| 0 <= k < all.len() implies sorted(#[trigger] all[k]) by {
        assert(all.contains(all[k]));
        if base.contains(all[k]) {
            let p = choose|p: int| 0 <= p < base.len() && base[p] == all[k];
        } else {
            let p = choose|p: int| 0 <= p < more.len() && more[p] == all[k];
        }
    }
}

impl View for RecordTypeSet {
    type V = Seq<RecordTypeView>;

    closed spec fn view(&self) -> Seq<RecordTypeView> {
        record_type_views(self.items@)
    }
}

impl RecordTypeSet {
    /// The set is in order: see [`alternatives_wf`].
    pub open spec fn wf(&self) -> bool {
        alternatives_wf(self@)
    }

    /// The empty set.
    pub fn new() -> (set: RecordTypeSet)
        ensures
            set.wf(),
            set@ == Seq::<RecordTypeView>::empty(),
    {
        let set = RecordTypeSet { items: Vec::new() };
        assert(set@ =~= Seq::<RecordTypeView>::empty());
        set
    }

    /// The number of alternatives.
    pub fn len(&self) -> (n: usize)
        ensures
            n == self@.len(),
    {
        self.items.len()
    }

    /// The alternative at position `index`.
    pub fn get(&self, index: usize) -> (record_type: &RecordType)
        requires
            index < self@.len(),
        ensures
            record_type@ == self@[index as int],
            self.wf() ==> record_type.wf(),
    {
        &self.items[index]
    }

    /// Whether the set holds `record_type`.
    pub fn contains(&self, record_type: &RecordType) -> (r: bool)
        ensures
            r == self@.contains(record_type@),
    {
        let mut i: usize = 0;
        while i < self.items.len()
            invariant
                i <= self.items.len(),
                forall|j: int| 0 <= j < i ==> self@[j] != record_type@,
            decreases self.items.len() - i,
        {
            if self.items[i].same(record_type) {
                assert(self@[i as int] == record_type@);
                return true;
            }
            i += 1;
        }
        false
    }

    /// Adds `record_type` unless the set already holds it.
    pub fn insert(&mut self, record_type: RecordType)
        requires
            old(self).wf(),
            record_type.wf(),
        ensures
            final(self).wf(),
            final(self)@ == merged(old(self)@, seq![record_type@]),
    {
        proof {
            lemma_merged_one(self@, record_type@);
            lemma_merged_wf(self@, seq![record_type@]);
        }
        if !self.contains(&record_type) {
            self.items.push(record_type);
            assert(self@ =~= old(self)@.push(record_type@));
        }
    }

    /// Adds every alternative of `other` that the set does not hold yet, in
    /// the order of `other`.
    pub fn extend(&mut self, other: &RecordTypeSet)
        requires
            old(self).wf(),
            other.wf(),
        ensures
            final(self).wf(),
            final(self)@ == merged(old(self)@, other@),
    {
        let mut i: usize = 0;
        assert(other@.take(0) =~= Seq::<RecordTypeView>::empty());
        while i < other.len()
            invariant
                i <= other@.len(),
                self.wf(),
                other.wf(),
                self@ == merged(old(self)@, other@.take(i as int)),
            decreases other@.len() - i,
        {
            proof {
                lemma_merged_push(old(self)@, other@.take(i as int), other@[i as int]);
                assert(other@.take(i + 1) =~= other@.take(i as int).push(other@[i as int]));
            }
            self.insert(other.get(i).clone());
            i += 1;
        }
        assert(other@.take(i as int) =~= other@);
    }

    /// The cross product with `other`: the conjunction of each alternative
    /// of this set with each of `other`.
    pub fn cross(&self, other: &RecordTypeSet) -> (set: RecordTypeSet)
        requires
            self.wf(),
            other.wf(),
        ensures
            set.wf(),
            set@ == crossed(self@, other@),
    {
        let mut set = RecordTypeSet::new();
        let mut i: usize = 0;
        while i < self.len()
            invariant
                i <= self@.len(),
                self.wf(),
                other.wf(),
                set.wf(),
                set@ == crossed_upto(self@, other@, i as int),
            decreases self@.len() - i,
        {
            let left = self.get(i);
            let ghost done = set@;
            let ghost next = row(left@, other@);
            let mut j: usize = 0;
            proof {
                assert(next.take(0) =~= Seq::<RecordTypeView>::empty());
            }
            while j < other.len()
                invariant
                    j <= other@.len(),
                    left.wf(),
                    other.wf(),
                    set.wf(),
                    next == row(left@, other@),
                    set@ == merged(done, next.take(j as int)),
                decreases other@.len() - j,
            {
                proof {
                    lemma_merged_push(done, next.take(j as int), next[j as int]);
                    assert(next.take(j + 1) =~= next.take(j as int).push(next[j as int]));
                }
                set.insert(left.combine(other.get(j)));
                j += 1;
            }
            proof {
                assert(next.take(j as int) =~= next);
            }
            i += 1;
        }
        set
    }

    /// Decides whether `other` holds every alternative of this set.
    pub fn within(&self, other: &RecordTypeSet) -> (r: bool)
        ensures
            r == self@.to_set().subset_of(other@.to_set()),
    {
        let mut i: usize = 0;
        while i < self.len()
            invariant
                i <= self@.len(),
                forall|j: int| 0 <= j < i ==> other@.contains(self@[j]),
            decreases self@.len() - i,
        {
            if !other.contains(self.get(i)) {
                assert(self@.to_set().contains(self@[i as int]));
                return false;
            }
            i += 1;
        }
        assert forall|c: RecordTypeView| self@.to_set().contains(c) implies other@.to_set().contains(
            c,
        ) by {
            let p = choose|p: int| 0 <= p < self@.len() && self@[p] == c;
        }
        true
    }

    /// Decides whether two sets hold the same alternatives, in whatever
    /// order.
    pub fn same(&self, other: &RecordTypeSet) -> (r: bool)
        ensures
            r == (self@.to_set() == other@.to_set()),
    {
        let r = self.within(other) && other.within(self);
        proof {
            if r {
                assert(self@.to_set() =~= other@.to_set());
            }
        }
        r
    }

    /// Writes the set out.
    pub fn to_string(&self) -> (s: String)
        ensures
            s@ == render_alternatives(self@),
    {
        let ghost parts = self@.map_values(|r: RecordTypeView| render_record_type(r));
        let mut body = String::new();
        let mut i: usize = 0;
        assert(parts.take(0) =~= Seq::<Seq<char>>::empty());
        while i < self.len()
            invariant
                i <= self@.len(),
                parts == self@.map_values(|r: RecordTypeView| render_record_type(r)),
                body@ == join(parts.take(i as int), " | "@),
            decreases self@.len() - i,
        {
            let written = self.get(i).to_string();
            append_part(&mut body, written.as_str(), " | ", Ghost(parts), i);
            i += 1;
        }
        assert(parts.take(i as int) =~= parts);
        let mut s = String::from_str("[");
        s.append(body.as_str());
        s.append("]");
        s
    }
}

impl Clone for RecordTypeSet {
    fn clone(&self) -> (set: RecordTypeSet)
        ensures
            set@ == self@,
    {
        let mut items: Vec<RecordType> = Vec::new();
        let mut i: usize = 0;
        while i < self.items.len()
            invariant
                i <= self.items.len(),
                items@.len() == i,
                forall|j: int| 0 <= j < i ==> items@[j]@ == self.items@[j]@,
            decreases self.items.len() - i,
        {
            items.push(self.items[i].clone());
            i += 1;
        }
        assert(record_type_views(items@) =~= self@);
        RecordTypeSet { items }
    }
}

impl PartialEq for RecordTypeSet {
    fn eq(&self, other: &RecordTypeSet) -> (r: bool) {
        self.same(other)
    }
}

impl PartialEqSpecImpl for RecordTypeSet {
    open spec fn obeys_eq_spec() -> bool {
        true
    }

    open spec fn eq_spec(&self, other: &RecordTypeSet) -> bool {
        self@.to_set() == other@.to_set()
    }
}

} // verus!
