//! What holds of the type algebra as a whole.

use crate::card::Card;
use crate::distinct::{lemma_merged, lemma_merged_distinct, lemma_merged_one, merged};
use crate::formal_base_type::FormalBaseTypeView;
use crate::formal_graph_type::{belongs, RegistryView};
use crate::key_map::{has_key, lemma_lookup_at, lookup, position_of, sorted};
use crate::label_property_spec::{compile, LabelPropertySpecView};
use crate::property_value_spec::{
    lemma_alternatives_wf, single, PropertyValueSpecView, PropertyValueView,
};
use crate::record::RecordView;
use crate::record_type::{both, combined, lemma_combined, record_accepts, RecordTypeView};
use crate::record_type_set::{alternatives_wf, crossed, crossed_upto, lemma_crossed, row};
use crate::value::ValueView;
use crate::value_type::{ScalarKind, ValueTypeView};
use vstd::prelude::*;

verus! {

/// Whether an entity belongs to a type depends on the labels of the type,
/// on its openness, and on which alternatives it has, not on their order.
pub proof fn lemma_same_types_accept_the_same(
    a: FormalBaseTypeView,
    b: FormalBaseTypeView,
    labels: Set<Seq<char>>,
    record: RecordView,
)
    requires
        a.same_as(b),
    ensures
        a.accepts(labels, record) == b.accepts(labels, record),
{
    if a.shapes(record) {
        let i = choose|i: int|
            0 <= i < a.content.len() && record_accepts(#[trigger] a.content[i], record, a.open);
        assert(a.content.to_set().contains(a.content[i]));
        assert(b.content.contains(a.content[i]));
        let j = choose|j: int| 0 <= j < b.content.len() && b.content[j] == a.content[i];
        assert(record_accepts(b.content[j], record, b.open));
    }
    if b.shapes(record) {
        let i = choose|i: int|
            0 <= i < b.content.len() && record_accepts(#[trigger] b.content[i], record, b.open);
        assert(b.content.to_set().contains(b.content[i]));
        assert(a.content.contains(b.content[i]));
        let j = choose|j: int| 0 <= j < a.content.len() && a.content[j] == b.content[i];
        assert(record_accepts(a.content[j], record, a.open));
    }
}

/// The labels have to be exactly those of the type: an entity whose labels
/// differ from the labels of a type does not belong to it, whatever its
/// record holds.
pub proof fn law_exact_labels(
    base: FormalBaseTypeView,
    labels: Set<Seq<char>>,
    record: RecordView,
)
    requires
        labels != base.labels,
    ensures
        !base.accepts(labels, record),
        base.failures(labels, record).len() == 1,
        base.failures(labels, record)[0] is LabelsDifferent,
{
}

/// The same for a type that a schema declares: where the type compiles and
/// the labels of the entity are not exactly its labels, the entity does
/// not belong to it.
pub proof fn law_exact_labels_of_declared_type(
    registry: RegistryView,
    name: Seq<char>,
    labels: Set<Seq<char>>,
    record: RecordView,
)
    requires
        compile(LabelPropertySpecView::Ref(name), registry, Set::empty()) is Ok,
        labels != compile(LabelPropertySpecView::Ref(name), registry, Set::empty())->Ok_0.labels,
    ensures
        !belongs(registry, name, labels, record),
{
}

/// Whether a property shape declares `key` anywhere.
pub open spec fn declares(shape: PropertyValueView, key: Seq<char>) -> bool
    decreases shape,
{
    match shape {
        PropertyValueView::EachOf(a, b) => declares(*a, key) || declares(*b, key),
        PropertyValueView::OneOf(a, b) => declares(*a, key) || declares(*b, key),
        PropertyValueView::Property(declared, _) => declared == key,
        PropertyValueView::OptionalProperty(declared, _) => declared == key,
        PropertyValueView::Empty => false,
    }
}

/// The alternatives of a shape declare no key that the shape does not
/// declare.
pub proof fn lemma_alternatives_declare(shape: PropertyValueView, key: Seq<char>)
    ensures
        forall|i: int|
            0 <= i < shape.alternatives().len() && has_key(
                #[trigger] shape.alternatives()[i],
                key,
            ) ==> declares(shape, key),
    decreases shape,
{
    let alternatives = shape.alternatives();
    match shape {
        PropertyValueView::EachOf(a, b) => {
            lemma_alternatives_declare(*a, key);
            lemma_alternatives_declare(*b, key);
            lemma_alternatives_wf(*a);
            lemma_alternatives_wf(*b);
            lemma_crossed(a.alternatives(), b.alternatives());
            assert forall|i: int|
                0 <= i < alternatives.len() && has_key(
                    #[trigger] alternatives[i],
                    key,
                ) implies declares(shape, key) by {
                let c = alternatives[i];
                assert(alternatives.contains(c));
                let (m, n) = choose|m: int, n: int|
                    0 <= m < a.alternatives().len() && 0 <= n < b.alternatives().len() && c
                        == combined(#[trigger] a.alternatives()[m], #[trigger] b.alternatives()[n]);
                lemma_combined(a.alternatives()[m], b.alternatives()[n]);
                assert(lookup(c, key) == both(
                    lookup(a.alternatives()[m], key),
                    lookup(b.alternatives()[n], key),
                ));
            }
        },
        PropertyValueView::OneOf(a, b) => {
            lemma_alternatives_declare(*a, key);
            lemma_alternatives_declare(*b, key);
            lemma_alternatives_wf(*a);
            lemma_merged(a.alternatives(), b.alternatives());
            assert forall|i: int|
                0 <= i < alternatives.len() && has_key(
                    #[trigger] alternatives[i],
                    key,
                ) implies declares(shape, key) by {
                let c = alternatives[i];
                assert(alternatives.contains(c));
                if a.alternatives().contains(c) {
                    let m = choose|m: int|
                        0 <= m < a.alternatives().len() && a.alternatives()[m] == c;
                } else {
                    let n = choose|n: int|
                        0 <= n < b.alternatives().len() && b.alternatives()[n] == c;
                }
            }
        },
        PropertyValueView::Property(declared, value_type) => {
            assert forall|i: int|
                0 <= i < alternatives.len() && has_key(
                    #[trigger] alternatives[i],
                    key,
                ) implies declares(shape, key) by {
                let p = position_of(alternatives[i], key);
                assert(alternatives[i][p].0 == key);
            }
        },
        PropertyValueView::OptionalProperty(declared, value_type) => {
            assert forall|i: int|
                0 <= i < alternatives.len() && has_key(
                    #[trigger] alternatives[i],
                    key,
                ) implies declares(shape, key) by {
                let p = position_of(alternatives[i], key);
                assert(alternatives[i][p].0 == key);
            }
        },
        PropertyValueView::Empty => {
            assert forall|i: int|
                0 <= i < alternatives.len() && has_key(
                    #[trigger] alternatives[i],
                    key,
                ) implies declares(shape, key) by {
                let p = position_of(alternatives[i], key);
            }
        },
    }
}

/// A closed record type accepts no record that holds a key which the type
/// does not declare.
pub proof fn law_closed_record_type_rejects_extra_key(
    record_type: RecordTypeView,
    record: RecordView,
    key: Seq<char>,
)
    requires
        has_key(record, key),
        !has_key(record_type, key),
    ensures
        !record_accepts(record_type, record, false),
{
    let p = position_of(record, key);
    assert(record[p].0 == key);
    assert(lookup(record_type, record[p].0) is None);
}

/// What a closed check accepts, an open check accepts too.
pub proof fn law_open_accepts_more(record_type: RecordTypeView, record: RecordView)
    requires
        record_accepts(record_type, record, false),
    ensures
        record_accepts(record_type, record, true),
{
}

/// A closed property shape rejects every record that holds a key which the
/// shape does not declare: no entity with such a record belongs to the type
/// that the closed shape means.
pub proof fn law_closed_shape_rejects_extra_key(
    shape: PropertyValueView,
    labels: Set<Seq<char>>,
    record: RecordView,
    key: Seq<char>,
)
    requires
        has_key(record, key),
        !declares(shape, key),
    ensures
        !PropertyValueSpecView::Closed(shape).meaning().accepts(labels, record),
{
    let meaning = PropertyValueSpecView::Closed(shape).meaning();
    lemma_alternatives_declare(shape, key);
    if meaning.shapes(record) {
        let i = choose|i: int|
            0 <= i < meaning.content.len() && record_accepts(
                #[trigger] meaning.content[i],
                record,
                meaning.open,
            );
        assert(!has_key(shape.alternatives()[i], key));
        law_closed_record_type_rejects_extra_key(meaning.content[i], record, key);
    }
}

/// Conjunction distributes over disjunction: the conjunction of a
/// disjunction with a third type has the labels, the openness and the
/// alternatives of the disjunction of the two conjunctions, so that the two
/// accept the same entities.
pub proof fn law_combine_distributes_over_union(
    a: FormalBaseTypeView,
    b: FormalBaseTypeView,
    c: FormalBaseTypeView,
)
    requires
        a.wf(),
        b.wf(),
        c.wf(),
    ensures
        a.union(b).combine(c).same_as(a.combine(c).union(b.combine(c))),
        forall|labels: Set<Seq<char>>, record: RecordView| #[trigger]
            a.union(b).combine(c).accepts(labels, record) == a.combine(c).union(
                b.combine(c),
            ).accepts(labels, record),
{
    let left = a.union(b).combine(c);
    let right = a.combine(c).union(b.combine(c));
    let ab = merged(a.content, b.content);
    let ac = crossed(a.content, c.content);
    let bc = crossed(b.content, c.content);
    lemma_merged(a.content, b.content);
    crate::record_type_set::lemma_merged_wf(a.content, b.content);
    lemma_crossed(ab, c.content);
    lemma_crossed(a.content, c.content);
    lemma_crossed(b.content, c.content);
    lemma_merged(ac, bc);
    assert(left.labels =~= right.labels);
    assert forall|x: RecordTypeView| left.content.contains(x) <==> right.content.contains(x) by {
        if left.content.contains(x) {
            let (i, j) = choose|i: int, j: int|
                0 <= i < ab.len() && 0 <= j < c.content.len() && x == combined(
                    #[trigger] ab[i],
                    #[trigger] c.content[j],
                );
            assert(ab.contains(ab[i]));
            if a.content.contains(ab[i]) {
                let k = choose|k: int| 0 <= k < a.content.len() && a.content[k] == ab[i];
                assert(x == combined(a.content[k], c.content[j]));
                assert(ac.contains(x));
            } else {
                let k = choose|k: int| 0 <= k < b.content.len() && b.content[k] == ab[i];
                assert(x == combined(b.content[k], c.content[j]));
                assert(bc.contains(x));
            }
        }
        if ac.contains(x) {
            let (i, j) = choose|i: int, j: int|
                0 <= i < a.content.len() && 0 <= j < c.content.len() && x == combined(
                    #[trigger] a.content[i],
                    #[trigger] c.content[j],
                );
            assert(a.content.contains(a.content[i]));
            assert(ab.contains(a.content[i]));
            let k = choose|k: int| 0 <= k < ab.len() && ab[k] == a.content[i];
            assert(x == combined(ab[k], c.content[j]));
        }
        if bc.contains(x) {
            let (i, j) = choose|i: int, j: int|
                0 <= i < b.content.len() && 0 <= j < c.content.len() && x == combined(
                    #[trigger] b.content[i],
                    #[trigger] c.content[j],
                );
            assert(b.content.contains(b.content[i]));
            assert(ab.contains(b.content[i]));
            let k = choose|k: int| 0 <= k < ab.len() && ab[k] == b.content[i];
            assert(x == combined(ab[k], c.content[j]));
        }
    }
    assert(left.content.to_set() =~= right.content.to_set());
    assert forall|labels: Set<Seq<char>>, record: RecordView| #[trigger]
        left.accepts(labels, record) == right.accepts(labels, record) by {
        lemma_same_types_accept_the_same(left, right, labels, record);
    }
}

/// The record type that declares nothing is the unit of conjunction.
pub proof fn law_empty_record_type_is_unit(record_type: RecordTypeView)
    ensures
        combined(record_type, RecordTypeView::empty()) == record_type,
        combined(RecordTypeView::empty(), record_type) == record_type,
{
    if record_type.len() == 0 {
        assert(record_type =~= RecordTypeView::empty());
    }
}

proof fn lemma_crossed_with_unit(alternatives: Seq<RecordTypeView>, upto: int)
    requires
        alternatives.no_duplicates(),
        0 <= upto <= alternatives.len(),
    ensures
        crossed_upto(alternatives, seq![RecordTypeView::empty()], upto) == alternatives.take(upto),
    decreases upto,
{
    let unit = seq![RecordTypeView::empty()];
    if upto > 0 {
        let before = alternatives.take(upto - 1);
        let next = alternatives[upto - 1];
        lemma_crossed_with_unit(alternatives, upto - 1);
        law_empty_record_type_is_unit(next);
        assert(row(next, unit) =~= seq![next]);
        lemma_merged_one(before, next);
        if before.contains(next) {
            let p = choose|p: int| 0 <= p < before.len() && before[p] == next;
            assert(alternatives[p] == alternatives[upto - 1]);
        }
        assert(before.push(next) =~= alternatives.take(upto));
    } else {
        assert(alternatives.take(0) =~= Seq::<RecordTypeView>::empty());
    }
}

/// The set that holds the empty record type alone is the unit of the cross
/// product.
pub proof fn law_cross_unit(alternatives: Seq<RecordTypeView>)
    requires
        alternatives.no_duplicates(),
    ensures
        crossed(alternatives, seq![RecordTypeView::empty()]) == alternatives,
        crossed(seq![RecordTypeView::empty()], alternatives) == alternatives,
{
    let unit = seq![RecordTypeView::empty()];
    lemma_crossed_with_unit(alternatives, alternatives.len() as int);
    assert(alternatives.take(alternatives.len() as int) =~= alternatives);
    assert(row(RecordTypeView::empty(), alternatives) =~= alternatives) by {
        assert forall|i: int| 0 <= i < alternatives.len() implies row(
            RecordTypeView::empty(),
            alternatives,
        )[i] == alternatives[i] by {
            law_empty_record_type_is_unit(alternatives[i]);
        }
    }
    assert(Seq::<RecordTypeView>::empty() + alternatives =~= alternatives);
    lemma_merged_distinct(Seq::<RecordTypeView>::empty(), alternatives);
    assert(crossed_upto(unit, alternatives, 0) == Seq::<RecordTypeView>::empty());
    assert(crossed_upto(unit, alternatives, 1) == merged(
        crossed_upto(unit, alternatives, 0),
        row(unit[0], alternatives),
    ));
}

/// The empty shape is the unit of "each of": joined to a shape on either
/// side, it leaves the alternatives of the shape as they are.
pub proof fn law_empty_shape_is_unit_of_each_of(shape: PropertyValueView)
    ensures
        PropertyValueView::EachOf(
            Box::new(shape),
            Box::new(PropertyValueView::Empty),
        ).alternatives() == shape.alternatives(),
        PropertyValueView::EachOf(
            Box::new(PropertyValueView::Empty),
            Box::new(shape),
        ).alternatives() == shape.alternatives(),
{
    lemma_alternatives_wf(shape);
    law_cross_unit(shape.alternatives());
    let nothing = PropertyValueView::Empty;
    assert(nothing.alternatives() == seq![RecordTypeView::empty()]);
    assert(PropertyValueView::EachOf(Box::new(shape), Box::new(nothing)).alternatives() == crossed(
        shape.alternatives(),
        nothing.alternatives(),
    ));
    assert(PropertyValueView::EachOf(Box::new(nothing), Box::new(shape)).alternatives() == crossed(
        nothing.alternatives(),
        shape.alternatives(),
    ));
}

/// The unit type is the unit of conjunction: a type combined with it is
/// the type itself.
pub proof fn law_type_0_is_unit_of_combine(base: FormalBaseTypeView)
    requires
        base.wf(),
    ensures
        base.combine(FormalBaseTypeView::type_0()) == base,
        FormalBaseTypeView::type_0().combine(base) == base,
{
    law_cross_unit(base.content);
    assert(base.labels.union(Set::empty()) =~= base.labels);
    assert(Set::<Seq<char>>::empty().union(base.labels) =~= base.labels);
}

/// "Optional" adds the alternative without properties and nothing else: an
/// entity belongs to the disjunction of a type with the unit type exactly
/// where it has the labels of the type and its record either has one of
/// the shapes of the type or the empty shape.
pub proof fn law_optional(base: FormalBaseTypeView, labels: Set<Seq<char>>, record: RecordView)
    requires
        base.wf(),
    ensures
        base.union(FormalBaseTypeView::type_0()).accepts(labels, record) <==> labels == base.labels
            && (base.shapes(record) || record_accepts(RecordTypeView::empty(), record, base.open)),
{
    let unit = FormalBaseTypeView::type_0();
    let both = base.union(unit);
    lemma_merged(base.content, unit.content);
    assert(both.labels =~= base.labels);
    assert(both.open == base.open);
    if both.shapes(record) {
        let i = choose|i: int|
            0 <= i < both.content.len() && record_accepts(
                #[trigger] both.content[i],
                record,
                both.open,
            );
        assert(both.content.contains(both.content[i]));
        if base.content.contains(both.content[i]) {
            let k = choose|k: int| 0 <= k < base.content.len() && base.content[k] == both.content[i];
            assert(record_accepts(base.content[k], record, base.open));
        } else {
            let k = choose|k: int| 0 <= k < unit.content.len() && unit.content[k] == both.content[i];
        }
    }
    if base.shapes(record) {
        let i = choose|i: int|
            0 <= i < base.content.len() && record_accepts(
                #[trigger] base.content[i],
                record,
                base.open,
            );
        assert(base.content.contains(base.content[i]));
        assert(merged(base.content, unit.content).contains(base.content[i]));
        let k = choose|k: int| 0 <= k < both.content.len() && both.content[k] == base.content[i];
        assert(record_accepts(both.content[k], record, both.open));
    }
    if record_accepts(RecordTypeView::empty(), record, base.open) {
        assert(unit.content[0] == RecordTypeView::empty());
        assert(unit.content.contains(RecordTypeView::empty()));
        assert(merged(base.content, unit.content).contains(RecordTypeView::empty()));
        let k = choose|k: int|
            0 <= k < both.content.len() && both.content[k] == RecordTypeView::empty();
        assert(record_accepts(both.content[k], record, both.open));
    }
}

/// "One of" is the union of the alternatives of its two sides, not their
/// cross product.
pub proof fn law_one_of_is_union(a: PropertyValueView, b: PropertyValueView)
    ensures
        PropertyValueView::OneOf(Box::new(a), Box::new(b)).alternatives().to_set()
            == a.alternatives().to_set().union(b.alternatives().to_set()),
{
    lemma_alternatives_wf(a);
    lemma_merged(a.alternatives(), b.alternatives());
    assert(PropertyValueView::OneOf(Box::new(a), Box::new(b)).alternatives().to_set()
        =~= a.alternatives().to_set().union(b.alternatives().to_set()));
}

/// A record has the shape of "one of" two shapes exactly where it has the
/// shape of one of the two.
pub proof fn law_one_of_accepts_either(
    a: PropertyValueView,
    b: PropertyValueView,
    record: RecordView,
)
    ensures
        PropertyValueSpecView::Closed(
            PropertyValueView::OneOf(Box::new(a), Box::new(b)),
        ).meaning().shapes(record) <==> PropertyValueSpecView::Closed(a).meaning().shapes(record)
            || PropertyValueSpecView::Closed(b).meaning().shapes(record),
{
    let one = PropertyValueSpecView::Closed(
        PropertyValueView::OneOf(Box::new(a), Box::new(b)),
    ).meaning();
    let left = PropertyValueSpecView::Closed(a).meaning();
    let right = PropertyValueSpecView::Closed(b).meaning();
    lemma_alternatives_wf(a);
    lemma_merged(a.alternatives(), b.alternatives());
    if one.shapes(record) {
        let i = choose|i: int|
            0 <= i < one.content.len() && record_accepts(#[trigger] one.content[i], record, false);
        assert(one.content.contains(one.content[i]));
        if left.content.contains(one.content[i]) {
            let k = choose|k: int| 0 <= k < left.content.len() && left.content[k] == one.content[i];
            assert(record_accepts(left.content[k], record, left.open));
        } else {
            let k = choose|k: int|
                0 <= k < right.content.len() && right.content[k] == one.content[i];
            assert(record_accepts(right.content[k], record, right.open));
        }
    }
    if left.shapes(record) {
        let i = choose|i: int|
            0 <= i < left.content.len() && record_accepts(#[trigger] left.content[i], record, false);
        assert(left.content.contains(left.content[i]));
        assert(merged(a.alternatives(), b.alternatives()).contains(left.content[i]));
        let k = choose|k: int| 0 <= k < one.content.len() && one.content[k] == left.content[i];
        assert(record_accepts(one.content[k], record, one.open));
    }
    if right.shapes(record) {
        let i = choose|i: int|
            0 <= i < right.content.len() && record_accepts(
                #[trigger] right.content[i],
                record,
                false,
            );
        assert(right.content.contains(right.content[i]));
        assert(merged(a.alternatives(), b.alternatives()).contains(right.content[i]));
        let k = choose|k: int| 0 <= k < one.content.len() && one.content[k] == right.content[i];
        assert(record_accepts(one.content[k], record, one.open));
    }
}

/// An optional property may be absent: the closed shape of one optional
/// property accepts the record without properties, and accepts a record
/// that holds the property alone exactly where the values belong to the
/// declared type.
pub proof fn law_optional_property(
    key: Seq<char>,
    value_type: ValueTypeView,
    values: Seq<ValueView>,
)
    ensures
        PropertyValueSpecView::Closed(
            PropertyValueView::OptionalProperty(key, value_type),
        ).meaning().shapes(RecordView::empty()),
        PropertyValueSpecView::Closed(
            PropertyValueView::OptionalProperty(key, value_type),
        ).meaning().shapes(seq![(key, values)]) <==> value_type.accepts(values),
{
    let meaning = PropertyValueSpecView::Closed(
        PropertyValueView::OptionalProperty(key, value_type),
    ).meaning();
    let declared = single(key, value_type);
    let record: RecordView = seq![(key, values)];
    assert(meaning.content[1] == RecordTypeView::empty());
    assert(record_accepts(meaning.content[1], RecordView::empty(), false));
    assert(meaning.content[0] == declared);
    assert(record[0].0 == key);
    assert(declared[0].0 == key);
    assert(has_key(record, key));
    assert(has_key(declared, key));
    assert(sorted(declared));
    lemma_lookup_at(declared, 0);
    assert(!has_key(RecordTypeView::empty(), key));
    if value_type.accepts(values) {
        assert(record_accepts(declared, record, false)) by {
            assert forall|j: int| 0 <= j < declared.len() implies has_key(
                record,
                (#[trigger] declared[j]).0,
            ) by {}
        }
    }
    if meaning.shapes(record) {
        let i = choose|i: int|
            0 <= i < meaning.content.len() && record_accepts(
                #[trigger] meaning.content[i],
                record,
                false,
            );
        if i == 1 {
            assert(lookup(meaning.content[1], record[0].0) is None);
        }
    }
}

/// A property of any number of values: the type accepts every run of
/// values of its kind, the empty one too.
pub proof fn law_zero_or_more(kind: ScalarKind, values: Seq<ValueView>)
    ensures
        Card::ZeroOrMore.admits(values.len()),
        ValueTypeView::Scalar(kind, Card::ZeroOrMore).accepts(Seq::empty()),
        ValueTypeView::Scalar(kind, Card::ZeroOrMore).accepts(values) <==> forall|i: int|
            0 <= i < values.len() ==> kind.covers(#[trigger] values[i]),
{
}

/// A property of at least one value is never met by no value.
pub proof fn law_one_or_more(kind: ScalarKind)
    ensures
        !Card::OneOrMore.admits(0),
        !ValueTypeView::Scalar(kind, Card::OneOrMore).accepts(Seq::empty()),
{
}

/// A range admits the counts between its two ends, the ends included, and
/// no other.
pub proof fn law_range(min: usize, max: usize, count: nat)
    ensures
        Card::Range(min, crate::card::Max::Bounded(max)).admits(count) <==> min <= count <= max,
        Card::Range(min, crate::card::Max::Unbounded).admits(count) <==> min <= count,
{
}

} // verus!
