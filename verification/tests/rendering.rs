use pgschemapc::card::{Card, Max};
use pgschemapc::edge::Edge;
use pgschemapc::formal_graph_type::FormalGraphType;
use pgschemapc::key::Key;
use pgschemapc::label_property_spec::LabelPropertySpec;
use pgschemapc::label_set::LabelSet;
use pgschemapc::node::Node;
use pgschemapc::pg::PropertyGraph;
use pgschemapc::pgs_error::PgsError;
use pgschemapc::property_value_spec::{PropertyValue, PropertyValueSpec, TypeSpec};
use pgschemapc::record::Record;
use pgschemapc::semantics_error::SemanticsError;
use pgschemapc::type_map::{Association, TypeMap};
use pgschemapc::validation_result::{ResultAssociation, ValidationResult};
use pgschemapc::evidence::Evidence;
use pgschemapc::value::{type_mismatch, Value};

#[test]
fn failures_in_words() {
    assert_eq!(
        PgsError::InvalidNumber("x1".to_string()).to_string(),
        "Error parsing as number: x1"
    );
    assert_eq!(PgsError::MissingType("T".to_string()).to_string(), "Not found type: T");
    assert_eq!(
        PgsError::MissingLabel { label: "n".to_string() }.to_string(),
        "Not found node with label: n"
    );
    assert_eq!(
        PgsError::KeyNotFoundClosedRecordType {
            key: Key::new("k"),
            record_type: "{a: String(1)}".to_string()
        }
        .to_string(),
        "Key not found in RecordType: k in Closed record type {a: String(1)}"
    );
    assert_eq!(
        PgsError::CardinalityMismatch { expected: Card::Range(2, Max::Bounded(4)), count: 5 }
            .to_string(),
        "Cardinality doesn't match: {2,4}, count 5"
    );
    assert_eq!(
        PgsError::PredicateFailed {
            predicate_name: "is_integer".to_string(),
            value: Value::str("Other")
        }
        .to_string(),
        "Predicate is_integer failed with value Other"
    );
    assert_eq!(
        PgsError::MissingKeys { keys: "a, \"b\"".to_string(), record_type: "{}".to_string() }
            .to_string(),
        "Missing keys in record type: {}, keys: \"a, \\\"b\\\"\""
    );
    assert_eq!(
        PgsError::ExtraKeysNotOpen { keys: "a\tb".to_string(), record_type: "{}".to_string() }
            .to_string(),
        "Extra keys in closed record type: {}, keys: \"a\\tb\""
    );
    assert_eq!(
        PgsError::ParserError { error: "e".to_string() }.to_string(),
        "Parser error parsing property graph schema: e"
    );
    assert_eq!(
        PgsError::PGParserError { error: "e".to_string() }.to_string(),
        "Parser error parsing property graph: e"
    );
    assert_eq!(
        PgsError::LabelsDifferent {
            record_labels: "{A}".to_string(),
            type_labels: "{B}".to_string()
        }
        .to_string(),
        "Labels do not match: record labels {A}, type labels {B}"
    );
    assert_eq!(
        PgsError::RecordContentFails { record: "{}".to_string(), type_content: "[]".to_string() }
            .to_string(),
        "Record does not conform to type content:\n Record:\n{}\n Types:\n[]"
    );
    assert_eq!(
        type_mismatch(">", "Integer", "Date(\"d\")".to_string()).to_string(),
        "Type mismatch in operation >: expected Integer, found Date(\"d\")"
    );
    assert_eq!(
        PgsError::ConditionFailed { condition: "c".to_string(), value: "v".to_string() }
            .to_string(),
        "Condition (c) for value: v"
    );
    assert_eq!(
        PgsError::CyclicType("T".to_string()).to_string(),
        "Type refers back to itself: T"
    );
    assert_eq!(
        SemanticsError::MissingType("T".to_string()).to_string(),
        "Not found type: T"
    );
    assert_eq!(
        PgsError::from_semantics(&SemanticsError::CyclicType("T".to_string())),
        PgsError::CyclicType("T".to_string())
    );
    let lifted = PgsError::from_all(&vec![
        SemanticsError::MissingKeys { keys: "a".to_string(), record_type: "{}".to_string() },
        SemanticsError::ExtraKeysNotOpen { keys: "b".to_string(), record_type: "{}".to_string() },
    ]);
    assert_eq!(
        lifted,
        vec![
            PgsError::MissingKeys { keys: "a".to_string(), record_type: "{}".to_string() },
            PgsError::ExtraKeysNotOpen { keys: "b".to_string(), record_type: "{}".to_string() },
        ]
    );
    assert_eq!(lifted[0].clone(), lifted[0]);
}

#[test]
fn nodes_edges_and_graphs_are_written_out() {
    let record = Record::new().with_key_value("name", Value::str("Alice"));
    let node = Node::new(3).with_label("Person").with_content(&record);
    assert_eq!(node.to_string(), "Node((3) {Person} [{name: [Alice]}]");
    let edge = Edge::new(1, 2, 3).with_label("knows").with_content(&record);
    assert_eq!(
        edge.to_string(),
        "Edge((1) from (2) to (3) with labels {knows} and properties {name: [Alice]})"
    );
    let mut graph = PropertyGraph::new();
    assert_eq!(graph.to_string(), "");
    graph.add_node("a".to_string(), LabelSet::new().with_label("Person"), record);
    graph.add_node("b".to_string(), LabelSet::new(), Record::new());
    graph.add_edge(Edge::new(0, 0, 1));
    assert_eq!(graph.edge_count(), 1);
    assert!(graph.get_node(1).is_some());
    assert!(graph.get_node(2).is_none());
    assert!(graph.get_edge(0).is_some());
    assert!(graph.get_edge(1).is_none());
    assert_eq!(
        graph.to_string(),
        "Node 0: Node((0) {Person} [{name: [Alice]}]\nNode 1: Node((1) {} [{}]\nEdge 0: Edge((0) from (0) to (1) with labels {} and properties {})\n"
    );
}

#[test]
fn schemas_are_written_out() {
    let name = PropertyValue::property(Key::new("name"), TypeSpec::string(Card::One));
    let age = PropertyValue::optional_property(Key::new("age"), TypeSpec::integer(Card::ZeroOrOne));
    let zip = PropertyValue::property(Key::new("zip"), TypeSpec::date(Card::OneOrMore));
    let shape = PropertyValue::each_of(name, PropertyValue::one_of(age, zip));
    assert_eq!(
        shape.to_string(),
        "(name: String(1), (OPTIONAL age: Integer(?) | zip: Date(+)))"
    );
    assert_eq!(PropertyValue::Empty.to_string(), "");
    assert_eq!(PropertyValueSpec::open(PropertyValue::Empty).to_string(), "{, OPEN}");
    let spec = LabelPropertySpec::content(
        LabelPropertySpec::or(
            LabelPropertySpec::and(
                LabelPropertySpec::label("Person".to_string()),
                LabelPropertySpec::ref_("AgentType".to_string()),
            ),
            LabelPropertySpec::optional(LabelPropertySpec::open(LabelPropertySpec::new())),
        ),
        PropertyValueSpec::closed(shape),
    );
    assert_eq!(
        spec.to_string(),
        "((:Person & AgentType) | OPEN ()?) {(name: String(1), (OPTIONAL age: Integer(?) | zip: Date(+)))}"
    );
    let schema = FormalGraphType::new()
        .with_type_name("B", LabelPropertySpec::label("b".to_string()))
        .with_type_name("A", LabelPropertySpec::ref_("B".to_string()));
    assert_eq!(schema.len(), 2);
    assert_eq!(schema.name_at(0), "A");
    assert_eq!(schema.spec_at(1).to_string(), ":b");
    assert_eq!(schema.to_string(), "A: B\nB: :b\n");
    assert_eq!(FormalGraphType::new().to_string(), "");
}

#[test]
fn type_maps_and_reports_are_written_out() {
    let mut map = TypeMap::new();
    assert_eq!(map.to_string(), "");
    map.add_association(Association::new("alice".to_string(), "PersonType".to_string()));
    map.add_association(Association::new("bob".to_string(), "T".to_string()));
    assert_eq!(map.len(), 2);
    assert_eq!(map.get(1).to_string(), "bob:T,");
    assert_eq!(map.to_string(), "  alice:PersonType,\n  bob:T,\n");

    let mut report = ValidationResult::new();
    assert_eq!(report.to_string(), "ValidationResult(is_valid: true, associations: [])");
    report.add_association(ResultAssociation {
        node_id: "alice".to_string(),
        declared_type: "T".to_string(),
        conforms: true,
        details: either::Either::Right(vec![Evidence::new(), Evidence::new()]),
    });
    report.add_association(ResultAssociation {
        node_id: "bob".to_string(),
        declared_type: "T".to_string(),
        conforms: false,
        details: either::Either::Left(vec![
            PgsError::MissingLabel { label: "bob".to_string() },
            PgsError::MissingType("T".to_string()),
        ]),
    });
    assert_eq!(
        report.to_string(),
        "ValidationResult(is_valid: false, associations: [ResultAssociation(node_id: alice, type_name: T, conforms: true, details: Right([Evidence, Evidence])), ResultAssociation(node_id: bob, type_name: T, conforms: false, details: Left([Not found node with label: bob; Not found type: T]))])"
    );
}
