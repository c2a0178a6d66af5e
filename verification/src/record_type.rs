//! Record types: what the properties of an entity have to look like.

use crate::evidence::Evidence;
use crate::key::Key;
use crate::key_map::{
    has_key, lemma_lookup_related, lemma_put, lemma_rank, lemma_rank_from_mapped, lookup, position_of, put, rank, sorted, KeyMap,
};
use crate::record::{Record, RecordView};
use crate::semantics_error::{SemanticsError, SemanticsErrorView};
use crate::key_map::lemma_lookup_head;
use crate::text::{
    append_part, join, lemma_precedes_irreflexive, lemma_precedes_total, lemma_precedes_transitive, precedes,
};
use crate::value::ValueView;
use crate::value_set::ValueSet;
use crate::value_type::{lemma_accepts_iff_no_failures, ValueType, ValueTypeView};
use crate::verdict::{pass, passed, reports, views};
use either::Either;
use vstd::prelude::*;
use vstd::std_specs::cmp::PartialEqSpecImpl;
use vstd::string::*;

verus! {

/// What a [`RecordType`] stands for: the declared keys in ascending order,
/// each with the type of its values.
pub type RecordTypeView = Seq<(Seq<char>, ValueTypeView)>;

/// A finite map from keys to value types.
#[derive(Debug)]
pub struct RecordType {
    map: KeyMap<ValueType>,
}

/// One declaration as it is printed: the key, a colon, the type.
pub open spec fn render_declaration(entry: (Seq<char>, ValueTypeView)) -> Seq<char> {
    entry.0 + ": "@ + entry.1.render()
}

/// A record type as it is printed: its declarations in braces.
pub open spec fn render_record_type(record_type: RecordTypeView) -> Seq<char> {
    "{"@ + join(
        record_type.map_values(|e: (Seq<char>, ValueTypeView)| render_declaration(e)),
        ", "@,
    ) + "}"@
}

/// A declared key is required where its type does not accept a property
/// without values.
pub open spec fn required(value_type: ValueTypeView) -> bool {
    !value_type.accepts(Seq::empty())
}

/// The required keys among the first `upto` declarations that `record`
/// lacks, in order.
pub open spec fn missing_before(record_type: RecordTypeView, record: RecordView, upto: int) -> Seq<
    Seq<char>,
>
    decreases upto,
{
    if upto <= 0 {
        Seq::empty()
    } else {
        let entry = record_type[upto - 1];
        let before = missing_before(record_type, record, upto - 1);
        if !has_key(record, entry.0) && required(entry.1) {
            before.push(entry.0)
        } else {
            before
        }
    }
}

/// The required keys that `record` lacks, in order.
pub open spec fn missing_keys(record_type: RecordTypeView, record: RecordView) -> Seq<Seq<char>> {
    missing_before(record_type, record, record_type.len() as int)
}

/// What the check of one property of a record reports: what its declared
/// type reports of the values, and for an undeclared key nothing where the
/// check is open, the key where it is closed.
pub open spec fn property_failures(
    record_type: RecordTypeView,
    property: (Seq<char>, Seq<ValueView>),
    open: bool,
) -> Seq<SemanticsErrorView> {
    match lookup(record_type, property.0) {
        Some(value_type) => value_type.failures(property.1),
        None => if open {
            Seq::empty()
        } else {
            seq![
                SemanticsErrorView::KeyNotFoundClosedRecordType {
                    key: property.0,
                    record_type: render_record_type(record_type),
                },
            ]
        },
    }
}

/// What the first property from position `from` on that fails its check
/// reports.
pub open spec fn present_failures(
    record_type: RecordTypeView,
    record: RecordView,
    open: bool,
    from: int,
) -> Seq<SemanticsErrorView>
    decreases record.len() - from,
{
    if from >= record.len() {
        Seq::empty()
    } else if property_failures(record_type, record[from], open).len() > 0 {
        property_failures(record_type, record[from], open)
    } else {
        present_failures(record_type, record, open, from + 1)
    }
}

/// What a closed check reports of the required keys that the record lacks:
/// all of them in one failure.
pub open spec fn absent_failures(record_type: RecordTypeView, record: RecordView, open: bool) -> Seq<
    SemanticsErrorView,
> {
    if open || missing_keys(record_type, record).len() == 0 {
        Seq::empty()
    } else {
        seq![
            SemanticsErrorView::MissingKeys {
                keys: join(missing_keys(record_type, record), ", "@),
                record_type: render_record_type(record_type),
            },
        ]
    }
}

/// What the check of `record` against `record_type` reports.
///
/// The properties of the record are checked in the order of their keys, and
/// the first that fails is reported. Where none fails, a closed check goes
/// on to the declared keys that the record lacks.
pub open spec fn record_failures(record_type: RecordTypeView, record: RecordView, open: bool) -> Seq<
    SemanticsErrorView,
> {
    if present_failures(record_type, record, open, 0).len() > 0 {
        present_failures(record_type, record, open, 0)
    } else {
        absent_failures(record_type, record, open)
    }
}

/// Whether `record` has the shape that `record_type` describes.
///
/// Every property of the record belongs to the type declared for its key; a
/// key that is not declared is accepted by an open check only. A closed
/// check also asks for every required key.
pub open spec fn record_accepts(record_type: RecordTypeView, record: RecordView, open: bool) -> bool {
    &&& forall|i: int|
        0 <= i < record.len() ==> match lookup(record_type, (#[trigger] record[i]).0) {
            Some(value_type) => value_type.accepts(record[i].1),
            None => open,
        }
    &&& !open ==> forall|j: int|
        0 <= j < record_type.len() ==> has_key(record, (#[trigger] record_type[j]).0) || !required(
            record_type[j].1,
        )
}

pub proof fn lemma_present_failures(
    record_type: RecordTypeView,
    record: RecordView,
    open: bool,
    from: int,
)
    requires
        0 <= from,
    ensures
        present_failures(record_type, record, open, from).len() == 0 <==> forall|i: int|
            from <= i < record.len() ==> match lookup(record_type, (#[trigger] record[i]).0) {
                Some(value_type) => value_type.accepts(record[i].1),
                None => open,
            },
    decreases record.len() - from,
{
    if from < record.len() {
        lemma_present_failures(record_type, record, open, from + 1);
        match lookup(record_type, record[from].0) {
            Some(value_type) => {
                lemma_accepts_iff_no_failures(value_type, record[from].1);
            },
            None => {},
        }
    }
}

pub proof fn lemma_missing_before(record_type: RecordTypeView, record: RecordView, upto: int)
    requires
        0 <= upto <= record_type.len(),
    ensures
        missing_before(record_type, record, upto).len() == 0 <==> forall|j: int|
            0 <= j < upto ==> has_key(record, (#[trigger] record_type[j]).0) || !required(
                record_type[j].1,
            ),
    decreases upto,
{
    if upto > 0 {
        lemma_missing_before(record_type, record, upto - 1);
    }
}

/// A record type accepts exactly the records of which its check reports
/// nothing.
pub proof fn lemma_record_accepts_iff_no_failures(
    record_type: RecordTypeView,
    record: RecordView,
    open: bool,
)
    ensures
        record_accepts(record_type, record, open) <==> record_failures(record_type, record, open).len()
            == 0,
{
    lemma_present_failures(record_type, record, open, 0);
    lemma_missing_before(record_type, record, record_type.len() as int);
}

/// The conjunction of two record types, by their declarations in order: a
/// key that both declare gets the intersection of its two types, and a key
/// that one declares keeps its type.
pub open spec fn combined(a: RecordTypeView, b: RecordTypeView) -> RecordTypeView
    decreases a.len() + b.len(),
{
    if a.len() == 0 {
        b
    } else if b.len() == 0 {
        a
    } else if a[0].0 == b[0].0 {
        seq![
            (a[0].0, ValueTypeView::Intersection(Box::new(a[0].1), Box::new(b[0].1))),
        ] + combined(a.drop_first(), b.drop_first())
    } else if precedes(a[0].0, b[0].0) {
        seq![a[0]] + combined(a.drop_first(), b)
    } else {
        seq![b[0]] + combined(a, b.drop_first())
    }
}

/// What the conjunction of two record types declares for a key, from what
/// the two declare for it.
pub open spec fn both(a: Option<ValueTypeView>, b: Option<ValueTypeView>) -> Option<ValueTypeView> {
    match (a, b) {
        (Some(x), Some(y)) => Some(ValueTypeView::Intersection(Box::new(x), Box::new(y))),
        (Some(x), None) => Some(x),
        (None, Some(y)) => Some(y),
        (None, None) => None,
    }
}

/// Every key of `entries` comes after `key`.
pub open spec fn above(entries: RecordTypeView, key: Seq<char>) -> bool {
    forall|i: int| 0 <= i < entries.len() ==> precedes(key, (#[trigger] entries[i]).0)
}

proof fn lemma_rest_above(entries: RecordTypeView)
    requires
        sorted(entries),
        entries.len() > 0,
    ensures
        sorted(entries.drop_first()),
        above(entries.drop_first(), entries[0].0),
{
    let rest = entries.drop_first();
    assert forall|i: int| 0 <= i < rest.len() implies precedes(
        entries[0].0,
        (#[trigger] rest[i]).0,
    ) by {
        assert(rest[i] == entries[i + 1]);
    }
    lemma_lookup_head(entries, entries[0].0);
}

proof fn lemma_above_weaken(entries: RecordTypeView, low: Seq<char>, key: Seq<char>)
    requires
        above(entries, key),
        precedes(low, key),
    ensures
        above(entries, low),
{
    assert forall|i: int| 0 <= i < entries.len() implies precedes(low, (#[trigger] entries[i]).0) by {
        lemma_precedes_transitive(low, key, entries[i].0);
    }
}

proof fn lemma_above_lacks(entries: RecordTypeView, key: Seq<char>)
    requires
        above(entries, key),
    ensures
        !has_key(entries, key),
{
    if has_key(entries, key) {
        let p = position_of(entries, key);
        assert(precedes(key, entries[p].0));
        lemma_precedes_irreflexive(key);
    }
}

proof fn lemma_combined_above(a: RecordTypeView, b: RecordTypeView, key: Seq<char>)
    requires
        above(a, key),
        above(b, key),
    ensures
        above(combined(a, b), key),
    decreases a.len() + b.len(),
{
    if a.len() > 0 && b.len() > 0 {
        let a_rest = a.drop_first();
        let b_rest = b.drop_first();
        assert forall|i: int| 0 <= i < a_rest.len() implies precedes(
            key,
            (#[trigger] a_rest[i]).0,
        ) by {
            assert(a_rest[i] == a[i + 1]);
        }
        assert forall|i: int| 0 <= i < b_rest.len() implies precedes(
            key,
            (#[trigger] b_rest[i]).0,
        ) by {
            assert(b_rest[i] == b[i + 1]);
        }
        assert(precedes(key, a[0].0));
        assert(precedes(key, b[0].0));
        if a[0].0 == b[0].0 {
            lemma_combined_above(a_rest, b_rest, key);
        } else if precedes(a[0].0, b[0].0) {
            lemma_combined_above(a_rest, b, key);
        } else {
            lemma_combined_above(a, b_rest, key);
        }
    }
}

proof fn lemma_cons_sorted(head: (Seq<char>, ValueTypeView), rest: RecordTypeView)
    requires
        sorted(rest),
        above(rest, head.0),
    ensures
        sorted(seq![head] + rest),
        (seq![head] + rest).drop_first() == rest,
{
    let all = seq![head] + rest;
    assert(all.drop_first() =~= rest);
    assert forall|i: int, j: int| 0 <= i < j < all.len() implies precedes(
        (#[trigger] all[i]).0,
        (#[trigger] all[j]).0,
    ) by {
        assert(all[j] == rest[j - 1]);
        if i > 0 {
            assert(all[i] == rest[i - 1]);
        }
    }
}

/// The conjunction of two record types declares a key where one of the two
/// does, none twice, and for each key what [`both`] says.
pub proof fn lemma_combined(a: RecordTypeView, b: RecordTypeView)
    requires
        sorted(a),
        sorted(b),
    ensures
        sorted(combined(a, b)),
        forall|key: Seq<char>| #[trigger]
            lookup(combined(a, b), key) == both(lookup(a, key), lookup(b, key)),
    decreases a.len() + b.len(),
{
    let c = combined(a, b);
    if a.len() == 0 {
        assert forall|key: Seq<char>| #[trigger] lookup(c, key) == both(lookup(a, key), lookup(b, key)) by {}
    } else if b.len() == 0 {
        assert forall|key: Seq<char>| #[trigger] lookup(c, key) == both(lookup(a, key), lookup(b, key)) by {}
    } else {
        let a_rest = a.drop_first();
        let b_rest = b.drop_first();
        lemma_rest_above(a);
        lemma_rest_above(b);
        lemma_precedes_total(a[0].0, b[0].0);
        if a[0].0 == b[0].0 {
            let head = (a[0].0, ValueTypeView::Intersection(Box::new(a[0].1), Box::new(b[0].1)));
            let rest = combined(a_rest, b_rest);
            lemma_combined(a_rest, b_rest);
            lemma_combined_above(a_rest, b_rest, a[0].0);
            lemma_cons_sorted(head, rest);
            assert forall|key: Seq<char>| #[trigger] lookup(c, key) == both(lookup(a, key), lookup(b, key)) by {
                lemma_lookup_head(c, key);
                lemma_lookup_head(a, key);
                lemma_lookup_head(b, key);
            }
        } else if precedes(a[0].0, b[0].0) {
            let rest = combined(a_rest, b);
            lemma_combined(a_rest, b);
            lemma_above_weaken(b_rest, a[0].0, b[0].0);
            assert(above(b, a[0].0)) by {
                assert forall|i: int| 0 <= i < b.len() implies precedes(a[0].0, (#[trigger] b[i]).0) by {
                    if i > 0 {
                        assert(b_rest[i - 1] == b[i]);
                    }
                }
            }
            lemma_combined_above(a_rest, b, a[0].0);
            lemma_cons_sorted(a[0], rest);
            lemma_above_lacks(b, a[0].0);
            assert forall|key: Seq<char>| #[trigger] lookup(c, key) == both(lookup(a, key), lookup(b, key)) by {
                lemma_lookup_head(c, key);
                lemma_lookup_head(a, key);
            }
        } else {
            let rest = combined(a, b_rest);
            lemma_combined(a, b_rest);
            lemma_above_weaken(a_rest, b[0].0, a[0].0);
            assert(above(a, b[0].0)) by {
                assert forall|i: int| 0 <= i < a.len() implies precedes(b[0].0, (#[trigger] a[i]).0) by {
                    if i > 0 {
                        assert(a_rest[i - 1] == a[i]);
                    }
                }
            }
            lemma_combined_above(a, b_rest, b[0].0);
            lemma_cons_sorted(b[0], rest);
            lemma_above_lacks(a, b[0].0);
            assert forall|key: Seq<char>| #[trigger] lookup(c, key) == both(lookup(a, key), lookup(b, key)) by {
                lemma_lookup_head(c, key);
                lemma_lookup_head(b, key);
            }
        }
    }
}

impl View for RecordType {
    type V = RecordTypeView;

    closed spec fn view(&self) -> RecordTypeView {
        self.map.assoc().map_values(|e: (Seq<char>, ValueType)| (e.0, e.1@))
    }
}

impl RecordType {
    /// The declared keys ascend, so that none is declared twice.
    pub open spec fn wf(&self) -> bool {
        sorted(self@)
    }

    proof fn lemma_related(&self)
        ensures
            self.map.assoc().len() == self@.len(),
            forall|i: int|
                0 <= i < self@.len() ==> (#[trigger] self@[i]).0 == self.map.assoc()[i].0 && self@[i].1
                    == self.map.assoc()[i].1@,
            forall|i: int|
                0 <= i < self@.len() ==> (#[trigger] self.map.assoc()[i]).0 == self@[i].0,
            self.wf() <==> self.map.wf(),
    {
        if self.wf() {
            assert forall|i: int, j: int| 0 <= i < j < self@.len() implies crate::text::precedes(
                (#[trigger] self.map.assoc()[i]).0,
                (#[trigger] self.map.assoc()[j]).0,
            ) by {
                assert(self@[i].0 == self.map.assoc()[i].0);
                assert(self@[j].0 == self.map.assoc()[j].0);
            }
        }
        if self.map.wf() {
            assert forall|i: int, j: int| 0 <= i < j < self@.len() implies crate::text::precedes(
                (#[trigger] self@[i]).0,
                (#[trigger] self@[j]).0,
            ) by {
                assert(self@[i].0 == self.map.assoc()[i].0);
                assert(self@[j].0 == self.map.assoc()[j].0);
            }
        }
    }

    /// The record type that declares nothing.
    pub fn new() -> (record_type: RecordType)
        ensures
            record_type.wf(),
            record_type@ == RecordTypeView::empty(),
    {
        let record_type = RecordType { map: KeyMap::new() };
        assert(record_type@ =~= RecordTypeView::empty());
        record_type
    }

    /// The record type that declares nothing.
    pub fn empty() -> (record_type: RecordType)
        ensures
            record_type.wf(),
            record_type@ == RecordTypeView::empty(),
    {
        RecordType::new()
    }

    /// The number of declared keys.
    pub fn len(&self) -> (n: usize)
        ensures
            n == self@.len(),
    {
        self.map.len()
    }

    /// The declared key at position `index`, counted in ascending order.
    pub fn key_at(&self, index: usize) -> (key: &Key)
        requires
            index < self@.len(),
        ensures
            key@ == self@[index as int].0,
    {
        self.map.key_at(index)
    }

    /// The type declared for the key at position `index`.
    pub fn value_type_at(&self, index: usize) -> (value_type: &ValueType)
        requires
            index < self@.len(),
        ensures
            value_type@ == self@[index as int].1,
    {
        self.map.value_at(index)
    }

    /// The type declared for `key`, where the key is declared.
    pub fn get(&self, key: &Key) -> (value_type: Option<&ValueType>)
        requires
            self.wf(),
        ensures
            match value_type {
                Some(found) => lookup(self@, key@) == Some(found@),
                None => lookup(self@, key@) is None,
            },
    {
        proof {
            self.lemma_related();
            lemma_lookup_related(self.map.assoc(), self@, key@);
        }
        self.map.get(key)
    }

    /// Declares `value_type` for `key`, in place of what was declared for
    /// it.
    pub fn insert(&mut self, key: Key, value_type: ValueType)
        requires
            old(self).wf(),
        ensures
            final(self).wf(),
            final(self)@ == put(old(self)@, key@, value_type@),
    {
        proof {
            self.lemma_related();
            lemma_rank_from_mapped(self.map.assoc(), self@, key@, 0);
            lemma_rank(self.map.assoc(), key@);
            lemma_put(self@, key@, value_type@);
        }
        self.map.put(key, value_type);
        proof {
            let before = old(self).map.assoc();
            let target = put(old(self)@, key@, value_type@);
            let at = rank(before, key@);
            if at < before.len() {
                assert(old(self)@[at].0 == before[at].0);
            }
            assert(self@.len() == target.len());
            assert forall|i: int| 0 <= i < self@.len() implies self@[i] == target[i] by {
                let replaced = at < before.len() && before[at].0 == key@;
                if i != at {
                    let o = if replaced || i < at {
                        i
                    } else {
                        i - 1
                    };
                    assert(self.map.assoc()[i] == before[o]);
                    assert(target[i] == old(self)@[o]);
                }
            }
            assert(self@ =~= target);
        }
    }

    /// The record type that also declares `value_type` for `key`.
    pub fn with_key_value(self, key: &str, value_type: ValueType) -> (record_type: RecordType)
        requires
            self.wf(),
        ensures
            record_type.wf(),
            record_type@ == put(self@, key@, value_type@),
    {
        let mut record_type = self;
        record_type.insert(Key::new(key), value_type);
        record_type
    }

    /// Writes the record type out.
    pub fn to_string(&self) -> (s: String)
        ensures
            s@ == render_record_type(self@),
    {
        let ghost parts = self@.map_values(
            |e: (Seq<char>, ValueTypeView)| render_declaration(e),
        );
        let mut body = String::new();
        let mut i: usize = 0;
        assert(parts.take(0) =~= Seq::<Seq<char>>::empty());
        while i < self.len()
            invariant
                i <= self@.len(),
                parts == self@.map_values(|e: (Seq<char>, ValueTypeView)| render_declaration(e)),
                body@ == join(parts.take(i as int), ", "@),
            decreases self@.len() - i,
        {
            let mut declaration = self.key_at(i).to_string();
            declaration.append(": ");
            declaration.append(self.value_type_at(i).to_string().as_str());
            append_part(&mut body, declaration.as_str(), ", ", Ghost(parts), i);
            i += 1;
        }
        assert(parts.take(i as int) =~= parts);
        let mut s = String::from_str("{");
        s.append(body.as_str());
        s.append("}");
        s
    }

    /// The required keys that `record` lacks, joined by commas; `None` where
    /// it lacks none.
    fn missing(&self, record: &Record) -> (keys: Option<String>)
        ensures
            keys is None <==> missing_keys(self@, record@).len() == 0,
            keys is Some ==> keys->Some_0@ == join(missing_keys(self@, record@), ", "@),
    {
        let nothing = ValueSet::new();
        let mut text = String::new();
        let mut count: usize = 0;
        let mut j: usize = 0;
        assert(missing_before(self@, record@, 0).take(0) =~= Seq::<Seq<char>>::empty());
        while j < self.len()
            invariant
                j <= self@.len(),
                nothing@ == Seq::<ValueView>::empty(),
                count == missing_before(self@, record@, j as int).len(),
                count <= j,
                text@ == join(missing_before(self@, record@, j as int), ", "@),
            decreases self@.len() - j,
        {
            let key = self.key_at(j);
            let ghost before = missing_before(self@, record@, j as int);
            let ghost after = missing_before(self@, record@, j + 1);
            if !record.contains_key(key) && self.value_type_at(j).conforms(&nothing).is_left() {
                proof {
                    assert(after == before.push(key@));
                    assert(after.take(count as int) =~= before);
                }
                append_part(&mut text, key.str(), ", ", Ghost(after), count);
                proof {
                    assert(after.take(count + 1) =~= after);
                }
                count += 1;
            }
            j += 1;
        }
        if count == 0 {
            None
        } else {
            Some(text)
        }
    }

    /// Checks a record against the record type. An open check lets the
    /// record hold keys that the type does not declare.
    ///
    /// The verdict is a pass exactly where [`record_accepts`] holds, and
    /// else lists the failures that [`record_failures`] names.
    pub fn conforms(&self, record: &Record, open: bool) -> (verdict: Either<
        Vec<SemanticsError>,
        Vec<Evidence>,
    >)
        requires
            self.wf(),
        ensures
            reports(verdict, record_failures(self@, record@, open)),
            passed(verdict) <==> record_accepts(self@, record@, open),
            verdict is Left <==> !record_accepts(self@, record@, open),
            !open && (exists|i: int|
                0 <= i < record@.len() && !has_key(self@, (#[trigger] record@[i]).0))
                ==> verdict is Left,
    {
        proof {
            lemma_record_accepts_iff_no_failures(self@, record@, open);
            if !open && (exists|i: int|
                0 <= i < record@.len() && !has_key(self@, (#[trigger] record@[i]).0)) {
                let i = choose|i: int|
                    0 <= i < record@.len() && !has_key(self@, (#[trigger] record@[i]).0);
                assert(lookup(self@, record@[i].0) is None);
            }
        }
        let mut i: usize = 0;
        while i < record.len()
            invariant
                i <= record@.len(),
                self.wf(),
                present_failures(self@, record@, open, 0) == present_failures(
                    self@,
                    record@,
                    open,
                    i as int,
                ),
            decreases record@.len() - i,
        {
            let key = record.key_at(i);
            match self.get(key) {
                Some(value_type) => {
                    let verdict = value_type.conforms(record.values_at(i));
                    if verdict.is_left() {
                        return verdict;
                    }
                },
                None => {
                    if !open {
                        let failures = vec![
                            SemanticsError::KeyNotFoundClosedRecordType {
                                key: key.clone(),
                                record_type: self.to_string(),
                            },
                        ];
                        assert(views(failures@) =~= property_failures(
                            self@,
                            record@[i as int],
                            open,
                        ));
                        return Either::Left(failures);
                    }
                },
            }
            i += 1;
        }
        if !open {
            match self.missing(record) {
                Some(keys) => {
                    let failures = vec![
                        SemanticsError::MissingKeys { keys, record_type: self.to_string() },
                    ];
                    assert(views(failures@) =~= absent_failures(self@, record@, open));
                    return Either::Left(failures);
                },
                None => {},
            }
        }
        pass()
    }

    /// The conjunction of two record types: a key that both declare gets the
    /// intersection of its two types, every other key keeps its type.
    pub fn combine(&self, other: &RecordType) -> (record_type: RecordType)
        requires
            self.wf(),
            other.wf(),
        ensures
            record_type.wf(),
            record_type@ == combined(self@, other@),
            forall|key: Seq<char>| #[trigger]
                lookup(record_type@, key) == both(lookup(self@, key), lookup(other@, key)),
    {
        let mut result = RecordType { map: KeyMap::new() };
        let mut i: usize = 0;
        let mut j: usize = 0;
        proof {
            lemma_combined(self@, other@);
            assert(self@.skip(0) =~= self@);
            assert(other@.skip(0) =~= other@);
            assert(result@ =~= RecordTypeView::empty());
            assert(result@ + combined(self@, other@) =~= combined(self@, other@));
        }
        while i < self.len() || j < other.len()
            invariant
                i <= self@.len(),
                j <= other@.len(),
                result@ + combined(self@.skip(i as int), other@.skip(j as int)) == combined(
                    self@,
                    other@,
                ),
            decreases (self@.len() - i) + (other@.len() - j),
        {
            let ghost a = self@.skip(i as int);
            let ghost b = other@.skip(j as int);
            let ghost before = result@;
            proof {
                assert(a.len() > 0 ==> a[0] == self@[i as int] && a.drop_first() =~= self@.skip(
                    i + 1,
                ));
                assert(b.len() > 0 ==> b[0] == other@[j as int] && b.drop_first() =~= other@.skip(
                    j + 1,
                ));
            }
            if i >= self.len() {
                result.push_last(other.key_at(j).clone(), other.value_type_at(j).clone());
                proof {
                    assert(other@.skip(j + 1) =~= b.drop_first());
                    assert(a =~= RecordTypeView::empty());
                    assert(combined(a, b) =~= seq![b[0]] + combined(a, b.drop_first()));
                }
                j += 1;
            } else if j >= other.len() {
                result.push_last(self.key_at(i).clone(), self.value_type_at(i).clone());
                proof {
                    assert(b =~= RecordTypeView::empty());
                    assert(combined(a.drop_first(), b) == a.drop_first());
                    assert(combined(a, b) =~= seq![a[0]] + combined(a.drop_first(), b));
                }
                i += 1;
            } else if *self.key_at(i) == *other.key_at(j) {
                result.push_last(
                    self.key_at(i).clone(),
                    ValueType::intersection(
                        self.value_type_at(i).clone(),
                        other.value_type_at(j).clone(),
                    ),
                );
                i += 1;
                j += 1;
            } else if self.key_at(i).precedes(other.key_at(j)) {
                result.push_last(self.key_at(i).clone(), self.value_type_at(i).clone());
                i += 1;
            } else {
                result.push_last(other.key_at(j).clone(), other.value_type_at(j).clone());
                j += 1;
            }
            proof {
                let head = result@.last();
                assert(result@ =~= before.push(head));
                assert(combined(a, b) =~= seq![head] + combined(
                    self@.skip(i as int),
                    other@.skip(j as int),
                ));
                assert(result@ + combined(self@.skip(i as int), other@.skip(j as int)) =~= before
                    + combined(a, b));
            }
        }
        proof {
            assert(self@.skip(i as int) =~= RecordTypeView::empty());
            assert(result@ + RecordTypeView::empty() =~= result@);
        }
        result
    }

    fn push_last(&mut self, key: Key, value_type: ValueType)
        ensures
            final(self)@ == old(self)@.push((key@, value_type@)),
    {
        self.map.push_last(key, value_type);
        assert(self@ =~= old(self)@.push((key@, value_type@)));
    }

    /// Decides whether two record types declare the same.
    pub fn same(&self, other: &RecordType) -> (r: bool)
        ensures
            r == (self@ == other@),
    {
        if self.len() != other.len() {
            return false;
        }
        let mut i: usize = 0;
        while i < self.len()
            invariant
                i <= self@.len(),
                self@.len() == other@.len(),
                forall|j: int| 0 <= j < i ==> self@[j] == other@[j],
            decreases self@.len() - i,
        {
            if !(*self.key_at(i) == *other.key_at(i)) || !self.value_type_at(i).same(
                other.value_type_at(i),
            ) {
                assert(self@[i as int] != other@[i as int]);
                return false;
            }
            i += 1;
        }
        assert(self@ =~= other@);
        true
    }
}

impl Clone for RecordType {
    fn clone(&self) -> (record_type: RecordType)
        ensures
            record_type@ == self@,
    {
        let mut result = RecordType { map: KeyMap::new() };
        let mut i: usize = 0;
        assert(result@ =~= self@.take(0));
        while i < self.len()
            invariant
                i <= self@.len(),
                result@ == self@.take(i as int),
            decreases self@.len() - i,
        {
            result.push_last(self.key_at(i).clone(), self.value_type_at(i).clone());
            assert(result@ =~= self@.take(i + 1));
            i += 1;
        }
        assert(self@.take(i as int) =~= self@);
        result
    }
}

impl PartialEq for RecordType {
    fn eq(&self, other: &RecordType) -> (r: bool) {
        self.same(other)
    }
}

impl PartialEqSpecImpl for RecordType {
    open spec fn obeys_eq_spec() -> bool {
        true
    }

    open spec fn eq_spec(&self, other: &RecordType) -> bool {
        self@ == other@
    }
}

} // verus!
