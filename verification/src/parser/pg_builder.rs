//! From the syntax tree of a graph document to a property graph.

use crate::distinct::{lemma_merged_one, merged};
use crate::key::Key;
use crate::label_set::LabelSet;
use crate::number::{parse_i32, written_i32};
use crate::parser::pg_actions::{LabelPropertySpec, Node, Property, SingleValue, Values};
use crate::pg::PropertyGraph;
use crate::pgs_error::{PgsError, PgsErrorView};
use crate::record::{with_values, Record, RecordView};
use crate::value::{Value, ValueView};
use crate::value_set::ValueSet;
use vstd::prelude::*;
use vstd::string::*;

verus! {

/// What a written value means: a text as it is, a number where it is an
/// integer of 32 bits.
pub open spec fn value_meaning(value: SingleValue) -> Result<ValueView, PgsErrorView> {
    match value {
        SingleValue::StringValue(text) => Ok(ValueView::String(text@)),
        SingleValue::NumberValue(text) => match written_i32(text@) {
            Some(number) => Ok(ValueView::Integer(number as int)),
            None => Err(PgsErrorView::InvalidNumber("Invalid number value: "@ + text@)),
        },
    }
}

/// What the first `upto` written values of a list mean together: the set of
/// their values, or the failure of the first that means nothing.
pub open spec fn values_upto(list: Seq<SingleValue>, upto: int) -> Result<
    Seq<ValueView>,
    PgsErrorView,
>
    decreases upto,
{
    if upto <= 0 {
        Ok(Seq::empty())
    } else {
        match values_upto(list, upto - 1) {
            Err(e) => Err(e),
            Ok(before) => match value_meaning(list[upto - 1]) {
                Err(e) => Err(e),
                Ok(value) => Ok(merged(before, seq![value])),
            },
        }
    }
}

/// What the written values of a property mean.
pub open spec fn values_meaning(values: Values) -> Result<Seq<ValueView>, PgsErrorView> {
    match values {
        Values::SingleValue(value) => match value_meaning(value) {
            Err(e) => Err(e),
            Ok(value) => Ok(seq![value]),
        },
        Values::ListValue(None) => Ok(Seq::empty()),
        Values::ListValue(Some(list)) => values_upto(list@, list@.len() as int),
    }
}

/// What the first `upto` written properties mean together: a record, or
/// the failure of the first property that means nothing. A key that is
/// written twice holds the values of both.
pub open spec fn record_upto(properties: Seq<Property>, upto: int) -> Result<
    RecordView,
    PgsErrorView,
>
    decreases upto,
{
    if upto <= 0 {
        Ok(Seq::empty())
    } else {
        match record_upto(properties, upto - 1) {
            Err(e) => Err(e),
            Ok(before) => match values_meaning(properties[upto - 1].values) {
                Err(e) => Err(e),
                Ok(values) => Ok(with_values(before, properties[upto - 1].key@, values)),
            },
        }
    }
}

/// The written labels as a set.
pub open spec fn labels_meaning(labels: Seq<String>) -> Set<Seq<char>> {
    labels.map_values(|label: String| label@).to_set()
}

/// What the written labels and properties of a node mean.
pub open spec fn properties_meaning(spec: LabelPropertySpec) -> Result<
    (Set<Seq<char>>, RecordView),
    PgsErrorView,
> {
    let labels = match spec.label_spec_opt {
        Some(labels) => labels_meaning(labels@),
        None => Set::empty(),
    };
    let record = match spec.property_spec_opt {
        Some(properties) => record_upto(properties@, properties@.len() as int),
        None => Ok(Seq::empty()),
    };
    match record {
        Err(e) => Err(e),
        Ok(record) => Ok((labels, record)),
    }
}

/// The failure of the first of the first `upto` written nodes that means
/// nothing.
pub open spec fn first_failure(nodes: Seq<Node>, upto: int) -> Option<PgsErrorView>
    decreases upto,
{
    if upto <= 0 {
        None
    } else {
        match first_failure(nodes, upto - 1) {
            Some(e) => Some(e),
            None => match properties_meaning(nodes[upto - 1].label_property_spec) {
                Err(e) => Some(e),
                Ok(_) => None,
            },
        }
    }
}

/// The number of the node that goes by `name` once the first `upto`
/// written nodes are added from number `base` on: the last of them that is
/// written under the name, or else the number that the name had `before`.
pub open spec fn number_after(
    nodes: Seq<Node>,
    upto: int,
    base: int,
    name: Seq<char>,
    before: Option<usize>,
) -> Option<usize>
    decreases upto,
{
    if upto <= 0 {
        before
    } else if nodes[upto - 1].id@ == name {
        Some((base + upto - 1) as usize)
    } else {
        number_after(nodes, upto - 1, base, name, before)
    }
}

/// Whether the graph holds a written node under a number as the node
/// means: with that number, its labels and its record.
pub open spec fn holds(graph: &PropertyGraph, number: usize, written: Node) -> bool {
    &&& graph.nodes().dom().contains(number)
    &&& graph.nodes()[number].id.id == number
    &&& properties_meaning(written.label_property_spec) == Ok::<
        (Set<Seq<char>>, RecordView),
        PgsErrorView,
    >((graph.nodes()[number].label@, graph.nodes()[number].properties@))
}

/// Whether `after` is `before` with the first `upto` written nodes added,
/// one after the other.
pub open spec fn extended(
    before: &PropertyGraph,
    after: &PropertyGraph,
    nodes: Seq<Node>,
    upto: int,
) -> bool {
    &&& after.wf()
    &&& after.next_node() == before.next_node() + upto
    &&& after.next_edge() == before.next_edge()
    &&& after.edges() == before.edges()
    &&& forall|i: int|
        0 <= i < upto ==> holds(after, (before.next_node() + i) as usize, #[trigger] nodes[i])
    &&& before.nodes().dom().subset_of(after.nodes().dom())
    &&& forall|number: usize|
        before.nodes().dom().contains(number) && number < before.next_node()
            ==> #[trigger] after.nodes()[number] == before.nodes()[number]
    &&& forall|name: Seq<char>| #[trigger]
        after.number_of(name) == number_after(
            nodes,
            upto,
            before.next_node() as int,
            name,
            before.number_of(name),
        )
}

/// Builds property graphs from syntax trees.
#[derive(Debug)]
pub struct PgBuilder {}

impl PgBuilder {
    pub fn new() -> (builder: PgBuilder) {
        PgBuilder {  }
    }

    /// Builds the graph that a parsed graph document describes.
    ///
    /// `parsed` is what the grammar made of the document: the written
    /// nodes, or the message of a syntax error, which is handed on. A
    /// number that is no integer of 32 bits is an invalid number. Where
    /// nothing fails, the graph holds the written nodes under the numbers
    /// from 0 on, in their order.
    pub fn parse_pg(&self, parsed: Result<Vec<Node>, String>) -> (built: Result<
        PropertyGraph,
        PgsError,
    >)
        requires
            parsed is Ok ==> parsed->Ok_0@.len() < u32::MAX,
        ensures
            match parsed {
                Err(message) => built is Err && built->Err_0@ == (PgsErrorView::PGParserError {
                    error: message@,
                }),
                Ok(nodes) => match first_failure(nodes@, nodes@.len() as int) {
                    Some(e) => built is Err && built->Err_0@ == e,
                    None => built is Ok && built->Ok_0.wf() && built->Ok_0.next_node()
                        == nodes@.len() && (forall|i: int|
                        0 <= i < nodes@.len() ==> holds(
                            &built->Ok_0,
                            i as usize,
                            #[trigger] nodes@[i],
                        )) && (forall|name: Seq<char>| #[trigger]
                        built->Ok_0.number_of(name) == number_after(
                            nodes@,
                            nodes@.len() as int,
                            0,
                            name,
                            None,
                        )),
                },
            },
    {
        match parsed {
            Err(message) => Err(PgsError::PGParserError { error: message }),
            Ok(pg_content) => {
                let mut pg = PropertyGraph::new();
                match get_nodes(&pg_content, &mut pg) {
                    Err(e) => Err(e),
                    Ok(()) => Ok(pg),
                }
            },
        }
    }
}

/// Adds the written nodes to the graph, one after the other, up to the
/// first that means nothing.
pub fn get_nodes(nodes: &Vec<Node>, pg: &mut PropertyGraph) -> (done: Result<(), PgsError>)
    requires
        old(pg).wf(),
        old(pg).next_node() + nodes@.len() < u32::MAX,
    ensures
        final(pg).wf(),
        match first_failure(nodes@, nodes@.len() as int) {
            Some(e) => done is Err && done->Err_0@ == e,
            None => done is Ok && extended(old(pg), final(pg), nodes@, nodes@.len() as int),
        },
{
    let ghost before = *pg;
    let mut i: usize = 0;
    while i < nodes.len()
        invariant
            i <= nodes@.len(),
            before.next_node() + nodes@.len() < u32::MAX,
            first_failure(nodes@, i as int) is None,
            extended(&before, &*pg, nodes@, i as int),
        decreases nodes@.len() - i,
    {
        let ghost so_far = *pg;
        let ghost base = before.next_node() as int;
        match get_node(&nodes[i], pg) {
            Err(e) => {
                proof {
                    assert(first_failure(nodes@, i + 1) == Some(e@));
                    lemma_first_failure(nodes@, i + 1, nodes@.len() as int);
                }
                return Err(e);
            },
            Ok(()) => {},
        }
        proof {
            let now = *pg;
            assert(extended(&before, &so_far, nodes@, i as int));
            assert(so_far.next_node() == base + i);
            assert forall|j: int| 0 <= j < i + 1 implies holds(
                &now,
                (base + j) as usize,
                #[trigger] nodes@[j],
            ) by {
                if j < i {
                    let number = (base + j) as usize;
                    assert(holds(&so_far, number, nodes@[j]));
                    assert(so_far.nodes().dom().contains(number));
                    assert(now.nodes()[number] == so_far.nodes()[number]);
                }
            }
            assert forall|number: usize|
                before.nodes().dom().contains(number) && number < before.next_node()
                    implies #[trigger] now.nodes()[number] == before.nodes()[number] by {
                assert(so_far.nodes()[number] == before.nodes()[number]);
                assert(so_far.nodes().dom().contains(number));
                assert(now.nodes()[number] == so_far.nodes()[number]);
            }
            assert forall|name: Seq<char>| #[trigger]
                now.number_of(name) == number_after(
                    nodes@,
                    i + 1,
                    base,
                    name,
                    before.number_of(name),
                ) by {
                assert(so_far.number_of(name) == number_after(
                    nodes@,
                    i as int,
                    base,
                    name,
                    before.number_of(name),
                ));
            }
            assert(extended(&before, &now, nodes@, i + 1));
        }
        i += 1;
    }
    Ok(())
}

/// Once the written nodes fail, they fail the same with more of them.
pub proof fn lemma_first_failure(nodes: Seq<Node>, failed: int, upto: int)
    requires
        failed <= upto,
        first_failure(nodes, failed) is Some,
    ensures
        first_failure(nodes, upto) == first_failure(nodes, failed),
    decreases upto,
{
    if failed < upto {
        lemma_first_failure(nodes, failed, upto - 1);
    }
}

/// Adds one written node to the graph, under the next number.
pub fn get_node(node: &Node, pg: &mut PropertyGraph) -> (done: Result<(), PgsError>)
    requires
        old(pg).wf(),
        old(pg).next_node() < u32::MAX,
    ensures
        final(pg).wf(),
        match properties_meaning(node.label_property_spec) {
            Err(e) => done is Err && done->Err_0@ == e && *final(pg) == *old(pg),
            Ok(meaning) => {
                &&& done is Ok
                &&& final(pg).next_node() == old(pg).next_node() + 1
                &&& final(pg).next_edge() == old(pg).next_edge()
                &&& final(pg).edges() == old(pg).edges()
                &&& holds(final(pg), old(pg).next_node(), *node)
                &&& final(pg).nodes().dom() == old(pg).nodes().dom().insert(old(pg).next_node())
                &&& forall|number: usize|
                    number != old(pg).next_node() && old(pg).nodes().dom().contains(number)
                        ==> #[trigger] final(pg).nodes()[number] == old(pg).nodes()[number]
                &&& final(pg).number_of(node.id@) == Some(old(pg).next_node())
                &&& forall|name: Seq<char>|
                    name != node.id@ ==> final(pg).number_of(name) == old(pg).number_of(name)
            },
        },
{
    let id = get_id(&node.id);
    match get_properties(&node.label_property_spec) {
        Err(e) => Err(e),
        Ok((labels, record)) => {
            pg.add_node(id, labels, record);
            Ok(())
        },
    }
}

/// The name under which a node is written.
pub fn get_id(id: &String) -> (name: String)
    ensures
        name@ == id@,
{
    id.clone()
}

/// The labels and the record of a written node.
pub fn get_properties(label_property_spec: &LabelPropertySpec) -> (built: Result<
    (LabelSet, Record),
    PgsError,
>)
    ensures
        match properties_meaning(*label_property_spec) {
            Err(e) => built is Err && built->Err_0@ == e,
            Ok(meaning) => built is Ok && built->Ok_0.0.wf() && built->Ok_0.1.wf() && meaning == (
                built->Ok_0.0@,
                built->Ok_0.1@,
            ),
        },
{
    let labels = match &label_property_spec.label_spec_opt {
        Some(label_spec) => get_labels(label_spec),
        None => LabelSet::new(),
    };
    let record = match &label_property_spec.property_spec_opt {
        Some(property_spec) => match get_property_spec(property_spec) {
            Err(e) => {
                return Err(e);
            },
            Ok(record) => record,
        },
        None => Record::new(),
    };
    Ok((labels, record))
}

/// The written labels as a set.
pub fn get_labels(labels: &Vec<String>) -> (result: LabelSet)
    ensures
        result.wf(),
        result@ == labels_meaning(labels@),
{
    let mut result = LabelSet::new();
    let ghost names = labels@.map_values(|label: String| label@);
    let mut i: usize = 0;
    assert(names.take(0).to_set() =~= Set::<Seq<char>>::empty());
    while i < labels.len()
        invariant
            i <= labels@.len(),
            names == labels@.map_values(|label: String| label@),
            result.wf(),
            result@ == names.take(i as int).to_set(),
        decreases labels@.len() - i,
    {
        result.insert(labels[i].as_str());
        proof {
            let upto = names.take(i as int);
            let next = names.take(i + 1);
            assert(next =~= upto.push(names[i as int]));
            assert forall|name: Seq<char>| next.contains(name) <==> upto.contains(name) || name
                == names[i as int] by {
                if upto.contains(name) {
                    let p = choose|p: int| 0 <= p < upto.len() && upto[p] == name;
                    assert(next[p] == name);
                }
                if name == names[i as int] {
                    assert(next[i as int] == name);
                }
            }
            assert(next.to_set() =~= upto.to_set().insert(names[i as int]));
        }
        i += 1;
    }
    assert(names.take(i as int) =~= names);
    result
}

/// The record that the written properties mean.
pub fn get_property_spec(property_spec: &Vec<Property>) -> (built: Result<Record, PgsError>)
    ensures
        match record_upto(property_spec@, property_spec@.len() as int) {
            Err(e) => built is Err && built->Err_0@ == e,
            Ok(record) => built is Ok && built->Ok_0.wf() && built->Ok_0@ == record,
        },
{
    let mut record = Record::new();
    let mut i: usize = 0;
    while i < property_spec.len()
        invariant
            i <= property_spec@.len(),
            record.wf(),
            record_upto(property_spec@, i as int) == Ok::<RecordView, PgsErrorView>(record@),
        decreases property_spec@.len() - i,
    {
        match get_property(&property_spec[i]) {
            Err(e) => {
                proof {
                    assert(record_upto(property_spec@, i + 1) == Err::<RecordView, PgsErrorView>(
                        e@,
                    ));
                    lemma_record_failure(property_spec@, i + 1, property_spec@.len() as int);
                }
                return Err(e);
            },
            Ok((key, values)) => {
                record.insert_values(Key::new(key.as_str()), values);
            },
        }
        i += 1;
    }
    Ok(record)
}

/// Once the written properties fail, they fail the same with more of them.
pub proof fn lemma_record_failure(properties: Seq<Property>, failed: int, upto: int)
    requires
        failed <= upto,
        record_upto(properties, failed) is Err,
    ensures
        record_upto(properties, upto) == record_upto(properties, failed),
    decreases upto,
{
    if failed < upto {
        lemma_record_failure(properties, failed, upto - 1);
    }
}

/// Once the written values fail, they fail the same with more of them.
pub proof fn lemma_values_failure(list: Seq<SingleValue>, failed: int, upto: int)
    requires
        failed <= upto,
        values_upto(list, failed) is Err,
    ensures
        values_upto(list, upto) == values_upto(list, failed),
    decreases upto,
{
    if failed < upto {
        lemma_values_failure(list, failed, upto - 1);
    }
}

/// The key and the values of a written property.
pub fn get_property(property: &Property) -> (built: Result<(String, ValueSet), PgsError>)
    ensures
        match values_meaning(property.values) {
            Err(e) => built is Err && built->Err_0@ == e,
            Ok(values) => built is Ok && built->Ok_0.0@ == property.key@ && built->Ok_0.1.wf()
                && built->Ok_0.1@ == values,
        },
{
    let key = property.key.clone();
    match get_values(&property.values) {
        Err(e) => Err(e),
        Ok(values) => Ok((key, values)),
    }
}

/// The set of values that the written values of a property mean.
pub fn get_values(values: &Values) -> (built: Result<ValueSet, PgsError>)
    ensures
        match values_meaning(*values) {
            Err(e) => built is Err && built->Err_0@ == e,
            Ok(meaning) => built is Ok && built->Ok_0.wf() && built->Ok_0@ == meaning,
        },
{
    let mut result = ValueSet::new();
    match values {
        Values::SingleValue(value) => {
            match get_value(value) {
                Err(e) => {
                    return Err(e);
                },
                Ok(value) => {
                    proof {
                        lemma_merged_one(Seq::<ValueView>::empty(), value@);
                        assert(Seq::<ValueView>::empty().push(value@) =~= seq![value@]);
                    }
                    result.insert(value);
                },
            }
        },
        Values::ListValue(None) => {},
        Values::ListValue(Some(list)) => {
            let mut i: usize = 0;
            while i < list.len()
                invariant
                    i <= list@.len(),
                    result.wf(),
                    values_meaning(*values) == values_upto(list@, list@.len() as int),
                    values_upto(list@, i as int) == Ok::<Seq<ValueView>, PgsErrorView>(result@),
                decreases list@.len() - i,
            {
                match get_value(&list[i]) {
                    Err(e) => {
                        proof {
                            assert(values_upto(list@, i + 1) == Err::<Seq<ValueView>, PgsErrorView>(
                                e@,
                            ));
                            lemma_values_failure(list@, i + 1, list@.len() as int);
                        }
                        return Err(e);
                    },
                    Ok(value) => {
                        proof {
                            lemma_merged_one(result@, value@);
                        }
                        result.insert(value);
                    },
                }
                i += 1;
            }
        },
    }
    Ok(result)
}

/// The value that a written value means.
pub fn get_value(value: &SingleValue) -> (built: Result<Value, PgsError>)
    ensures
        match value_meaning(*value) {
            Err(e) => built is Err && built->Err_0@ == e,
            Ok(meaning) => built is Ok && built->Ok_0@ == meaning,
        },
{
    match value {
        SingleValue::StringValue(s) => Ok(Value::str(s.as_str())),
        SingleValue::NumberValue(str_number_) => {
            match parse_i32(str_number_.as_str()) {
                Some(number) => Ok(Value::integer(number)),
                None => {
                    let mut message = String::from_str("Invalid number value: ");
                    message.append(str_number_.as_str());
                    Err(PgsError::InvalidNumber(message))
                },
            }
        },
    }
}

} // verus!
