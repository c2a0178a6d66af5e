use pgschemapc::card::Card;
use pgschemapc::edge::Edge;
use pgschemapc::formal_graph_type::FormalGraphType;
use pgschemapc::key::Key;
use pgschemapc::label_property_spec::LabelPropertySpec;
use pgschemapc::label_set::LabelSet;
use pgschemapc::node::Node;
use pgschemapc::pg::PropertyGraph;
use pgschemapc::pgs_error::PgsError;
use pgschemapc::property_value_spec::{PropertyValue, PropertyValueSpec, TypeSpec};
use pgschemapc::record::Record;
use pgschemapc::type_map::{Association, TypeMap};
use pgschemapc::validation_result::{ResultAssociation, ValidationResult};
use pgschemapc::value::Value;
use pgschemapc::verdict::pass;
use std::collections::HashMap;

fn schema() -> FormalGraphType {
    let name = PropertyValue::property(Key::new("name"), TypeSpec::string(Card::One));
    FormalGraphType::new().with_type_name(
        "PersonType",
        LabelPropertySpec::content(
            LabelPropertySpec::label("Person".to_string()),
            PropertyValueSpec::closed(name),
        ),
    )
}

fn graph() -> PropertyGraph {
    let mut graph = PropertyGraph::new();
    graph.add_node(
        "alice".to_string(),
        LabelSet::new().with_label("Person"),
        Record::new().with_key_value("name", Value::str("Alice")),
    );
    graph.add_node(
        "rex".to_string(),
        LabelSet::new().with_label("Dog"),
        Record::new().with_key_value("name", Value::str("Rex")),
    );
    graph
}

#[test]
fn every_association_gets_its_outcome() {
    let mut map = TypeMap::new();
    map.add_association(Association::new("rex".to_string(), "PersonType".to_string()));
    map.add_association(Association::new("nobody".to_string(), "PersonType".to_string()));
    map.add_association(Association::new("alice".to_string(), "Nowhere".to_string()));
    map.add_association(Association::new("alice".to_string(), "PersonType".to_string()));
    let report = map.validate(&schema(), &graph());
    assert_eq!(report.associations.len(), 4);
    assert!(!report.is_valid);
    assert!(!report.is_empty());

    assert_eq!(report.associations[0].node_id, "rex");
    assert_eq!(report.associations[0].declared_type, "PersonType");
    assert!(!report.associations[0].conforms);
    assert_eq!(
        report.associations[0].details.clone().left().unwrap(),
        vec![PgsError::LabelsDifferent {
            record_labels: "{Dog}".to_string(),
            type_labels: "{Person}".to_string(),
        }]
    );

    assert!(!report.associations[1].conforms);
    assert_eq!(
        report.associations[1].details.clone().left().unwrap(),
        vec![PgsError::MissingLabel { label: "nobody".to_string() }]
    );

    assert!(!report.associations[2].conforms);
    assert_eq!(
        report.associations[2].details.clone().left().unwrap(),
        vec![PgsError::MissingType("Nowhere".to_string())]
    );

    assert_eq!(report.associations[3].node_id, "alice");
    assert!(report.associations[3].conforms);
    assert!(report.associations[3].details.is_right());
}

#[test]
fn a_run_in_which_every_node_conforms_is_valid() {
    let mut map = TypeMap::new();
    map.add_association(Association::new("alice".to_string(), "PersonType".to_string()));
    let report = map.validate(&schema(), &graph());
    assert!(report.is_valid);
    assert_eq!(report.associations.len(), 1);
    let empty = TypeMap::new().validate(&schema(), &graph());
    assert!(empty.is_valid);
    assert!(empty.is_empty());
}

#[test]
fn one_association_is_checked_alone() {
    let association = Association::new("alice".to_string(), "PersonType".to_string());
    assert_eq!(association.node_id(), "alice");
    assert_eq!(association.declared_type(), "PersonType");
    let outcome = TypeMap::validate_one(&association, &schema(), &graph());
    assert!(outcome.conforms);
}

#[test]
fn reports_say_valid_while_every_outcome_is_positive() {
    let mut report = ValidationResult::new();
    assert!(report.is_valid);
    assert!(report.is_empty());
    report.add_association(ResultAssociation {
        node_id: "a".to_string(),
        declared_type: "T".to_string(),
        conforms: true,
        details: pass(),
    });
    assert!(report.is_valid);
    report.add_association(ResultAssociation {
        node_id: "b".to_string(),
        declared_type: "T".to_string(),
        conforms: false,
        details: either::Either::Left(vec![PgsError::MissingLabel { label: "b".to_string() }]),
    });
    assert!(!report.is_valid);
    report.add_association(ResultAssociation {
        node_id: "c".to_string(),
        declared_type: "T".to_string(),
        conforms: true,
        details: pass(),
    });
    assert!(!report.is_valid);
    assert_eq!(report.associations.len(), 3);
}

#[test]
fn graphs_number_their_nodes_and_know_them_by_name() {
    let mut graph = graph();
    assert_eq!(graph.node_count(), 2);
    let alice = graph.get_node_by_label("alice").unwrap();
    assert_eq!(alice.id.id, 0);
    assert!(alice.labels().contains("Person"));
    let rex = graph.get_node_by_label("rex").unwrap();
    assert_eq!(rex.id.id, 1);
    assert_eq!(
        graph.get_node_by_label("nobody").unwrap_err(),
        PgsError::MissingLabel { label: "nobody".to_string() }
    );
    // A name that is given again names the later node.
    graph.add_node("alice".to_string(), LabelSet::new(), Record::new());
    assert_eq!(graph.get_node_by_label("alice").unwrap().id.id, 2);
    graph.add_edge(Edge::new(0, 0, 1).with_label("owns"));
    let graph = graph.with_nodes(HashMap::new()).with_edges(HashMap::new());
    assert!(graph.get_node_by_label("alice").is_err());
    assert_eq!(graph.node_count(), 3);
}

#[test]
fn edges_are_checked_like_nodes() {
    let schema = FormalGraphType::new().with_type_name(
        "Owns",
        LabelPropertySpec::content(
            LabelPropertySpec::label("owns".to_string()),
            PropertyValueSpec::closed(PropertyValue::optional_property(
                Key::new("since"),
                TypeSpec::date(Card::One),
            )),
        ),
    );
    let plain = Edge::new(7, 0, 1).with_label("owns");
    let dated = Edge::new(8, 0, 1)
        .with_label("owns")
        .with_content(&Record::new().with_key_value("since", Value::date("2020-01-01")));
    let wrong = Edge::new(9, 0, 1)
        .with_label("owns")
        .with_content(&Record::new().with_key_value("since", Value::integer(2020)));
    let other = Edge::new(10, 0, 1).with_label("likes");
    assert_eq!(plain.source.id, 0);
    assert_eq!(plain.target.id, 1);
    assert_eq!(plain.id.id, 7);
    assert!(schema.conforms_edge(&"Owns".to_string(), &plain).is_right());
    assert!(schema.conforms_edge(&"Owns".to_string(), &dated).is_right());
    assert!(schema.conforms_edge(&"Owns".to_string(), &wrong).is_left());
    assert!(schema.conforms_edge(&"Owns".to_string(), &other).is_left());
    assert_eq!(
        schema.conforms_edge(&"Nope".to_string(), &plain).left().unwrap(),
        vec![PgsError::MissingType("Nope".to_string())]
    );
    assert_eq!(dated.labels().len(), 1);
    assert_eq!(dated.content().len(), 1);
}

#[test]
fn a_schema_replaces_what_was_declared_under_a_name() {
    let mut schema = schema();
    assert!(schema.get("PersonType").is_some());
    assert!(schema.get("Other").is_none());
    schema.add("PersonType", LabelPropertySpec::label("Robot".to_string()));
    let node = Node::new(1).with_label("Robot");
    assert!(schema.conforms_node(&"PersonType".to_string(), &node).is_right());
}
