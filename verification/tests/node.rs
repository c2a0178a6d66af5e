use pgschemapc::card::Card;
use pgschemapc::formal_graph_type::FormalGraphType;
use pgschemapc::key::Key;
use pgschemapc::label_property_spec::LabelPropertySpec;
use pgschemapc::label_set::LabelSet;
use pgschemapc::node::Node;
use pgschemapc::pgs_error::PgsError;
use pgschemapc::property_value_spec::{PropertyValue, PropertyValueSpec, TypeSpec};
use pgschemapc::record::Record;
use pgschemapc::value::Value;

#[test]
fn test_simple_record_alice_non_optional() {
    let alice = Node::new(1).with_label("Person").with_content(
        &Record::new()
            .with_key_value("name", Value::str("Alice"))
            .with_key_value("age", Value::integer(42))
            .with_key_value("aliases", Value::str("Ally")),
    );

    // Wrong label
    let alice_wrong1 = Node::new(1).with_label("Other").with_content(
        &Record::new()
            .with_key_value("name", Value::str("Alice"))
            .with_key_value("age", Value::integer(42))
            .with_key_value("aliases", Value::str("Ally")),
    );

    // Wrong age type
    let alice_wrong2 = Node::new(1).with_label("Person").with_content(
        &Record::new()
            .with_key_value("name", Value::str("Alice"))
            .with_key_value("age", Value::str("Other"))
            .with_key_value("aliases", Value::str("Ally")),
    );

    // No age
    let alice_wrong3 = Node::new(1).with_label("Person").with_content(
        &Record::new()
            .with_key_value("name", Value::str("Alice"))
            .with_key_value("aliases", Value::str("Ally")),
    );

    let mut graph = FormalGraphType::new();
    let person_label = LabelPropertySpec::Label("Person".to_string());
    let name = PropertyValue::property(Key::new("name"), TypeSpec::string(Card::One));
    let age = PropertyValue::property(Key::new("age"), TypeSpec::integer(Card::One));
    let aliases = PropertyValue::property(Key::new("aliases"), TypeSpec::string(Card::ZeroOrMore));
    let person_content = PropertyValue::each_of(name, PropertyValue::each_of(age, aliases));
    graph.add(
        "PersonType",
        LabelPropertySpec::content(person_label, PropertyValueSpec::closed(person_content)),
    );

    let property_value_spec = graph.get("PersonType").unwrap();
    let semantics = property_value_spec.semantics(&graph).unwrap();
    assert_eq!(semantics.content().len(), 1);

    assert_eq!(graph.conforms_node(&"PersonType".to_string(), &alice).is_right(), true);
    assert_eq!(graph.conforms_node(&"PersonType".to_string(), &alice_wrong1).is_right(), false);
    assert_eq!(graph.conforms_node(&"PersonType".to_string(), &alice_wrong2).is_right(), false);
    assert_eq!(graph.conforms_node(&"PersonType".to_string(), &alice_wrong3).is_right(), false)
}

#[test]
fn test_simple_record_alice_wrong() {
    let alice = Node::new(1).with_label("Person").with_content(
        &Record::new()
            .with_key_value("name", Value::str("Alice"))
            .with_key_value("age", Value::str("other")),
    );

    let mut graph = FormalGraphType::new();
    let person_label = LabelPropertySpec::Label("Person".to_string());
    let name = PropertyValue::property(Key::new("name"), TypeSpec::string(Card::One));
    let age = PropertyValue::property(Key::new("age"), TypeSpec::integer(Card::One));
    let aliases = PropertyValue::property(Key::new("aliases"), TypeSpec::string(Card::ZeroOrMore));
    let person_content = PropertyValue::each_of(name, PropertyValue::each_of(age, aliases));
    graph.add(
        "PersonType",
        LabelPropertySpec::content(person_label, PropertyValueSpec::closed(person_content)),
    );
    assert_eq!(graph.conforms_node(&"PersonType".to_string(), &alice).is_right(), false)
}

#[test]
fn test_simple_record_alice_optional_age_ok() {
    let alice = Node::new(1).with_label("Person").with_content(
        &Record::new()
            .with_key_value("name", Value::str("Alice"))
            .with_key_value("age", Value::integer(42))
            .with_key_value("aliases", Value::str("Ally")),
    );

    let bob = Node::new(1).with_label("Person").with_content(
        &Record::new()
            .with_key_value("name", Value::str("Bob"))
            .with_key_value("aliases", Value::str("Bobby")),
    );

    let mut graph = FormalGraphType::new();
    let person_label = LabelPropertySpec::Label("Person".to_string());
    let name = PropertyValue::property(Key::new("name"), TypeSpec::string(Card::One));
    let age = PropertyValue::optional_property(Key::new("age"), TypeSpec::integer(Card::One));
    let aliases = PropertyValue::property(Key::new("aliases"), TypeSpec::string(Card::ZeroOrMore));
    let person_content = PropertyValue::each_of(name, PropertyValue::each_of(age, aliases));
    graph.add(
        "PersonType",
        LabelPropertySpec::content(person_label, PropertyValueSpec::closed(person_content)),
    );
    assert_eq!(graph.conforms_node(&"PersonType".to_string(), &alice).is_right(), true);
    assert_eq!(graph.conforms_node(&"PersonType".to_string(), &bob).is_right(), true)
}

#[test]
fn test_each_of_one_of() {
    let alice = Node::new(2).with_label("Person").with_content(
        &Record::new()
            .with_key_value("name", Value::str("Alice"))
            .with_key_value("aliases", Value::str("Ally")),
    );

    let bob = Node::new(2).with_label("Person").with_content(
        &Record::new()
            .with_key_value("first_name", Value::str("Robert"))
            .with_key_value("last_name", Value::str("Smith"))
            .with_key_value("aliases", Value::str("Bob"))
            .with_key_value("aliases", Value::str("Bobby")),
    );

    let wrong1 = Node::new(2).with_label("Person").with_content(
        &Record::new()
            .with_key_value("first_name", Value::str("Robert"))
            .with_key_value("name", Value::str("extra_name"))
            .with_key_value("aliases", Value::str("Bob"))
            .with_key_value("aliases", Value::str("Bobby")),
    );

    let person_label = LabelPropertySpec::Label("Person".to_string());
    let name = PropertyValue::property(Key::new("name"), TypeSpec::string(Card::One));
    let first_name = PropertyValue::property(Key::new("first_name"), TypeSpec::string(Card::One));
    let last_name = PropertyValue::property(Key::new("last_name"), TypeSpec::string(Card::One));
    let age = PropertyValue::optional_property(Key::new("age"), TypeSpec::integer(Card::One));
    let aliases = PropertyValue::property(Key::new("aliases"), TypeSpec::string(Card::ZeroOrMore));
    let person_content = PropertyValue::each_of(
        PropertyValue::one_of(name, PropertyValue::each_of(first_name, last_name)),
        PropertyValue::each_of(age, aliases),
    );
    let graph = FormalGraphType::new().with_type_name(
        "PersonType",
        LabelPropertySpec::content(person_label, PropertyValueSpec::closed(person_content)),
    );

    assert_eq!(graph.conforms_node(&"PersonType".to_string(), &alice).is_right(), true);

    assert_eq!(graph.conforms_node(&"PersonType".to_string(), &bob).is_right(), true);

    assert_eq!(graph.conforms_node(&"PersonType".to_string(), &wrong1).is_right(), false);
}

fn person_schema() -> FormalGraphType {
    let name = PropertyValue::property(Key::new("name"), TypeSpec::string(Card::One));
    let age = PropertyValue::optional_property(Key::new("age"), TypeSpec::integer(Card::One));
    let aliases = PropertyValue::property(Key::new("aliases"), TypeSpec::string(Card::ZeroOrMore));
    let content = PropertyValue::each_of(name, PropertyValue::each_of(age, aliases));
    FormalGraphType::new().with_type_name(
        "PersonType",
        LabelPropertySpec::content(
            LabelPropertySpec::label("Person".to_string()),
            PropertyValueSpec::closed(content),
        ),
    )
}

#[test]
fn a_person_with_an_integer_age_conforms() {
    let schema = person_schema();
    let alice = Node::new(1).with_label("Person").with_content(
        &Record::new()
            .with_key_value("name", Value::str("Alice"))
            .with_key_value("age", Value::integer(42)),
    );
    let verdict = schema.conforms_node(&"PersonType".to_string(), &alice);
    assert!(verdict.is_right());
    assert!(verdict.right().unwrap().is_empty());
}

#[test]
fn a_person_with_a_text_for_an_age_fails_the_integer_test() {
    let schema = person_schema();
    let alice = Node::new(1).with_label("Person").with_content(
        &Record::new()
            .with_key_value("name", Value::str("Alice"))
            .with_key_value("age", Value::str("Other")),
    );
    let failures = schema.conforms_node(&"PersonType".to_string(), &alice).left().unwrap();
    // The summary, then what each of the two alternatives reports.
    assert_eq!(failures.len(), 3);
    match &failures[0] {
        PgsError::RecordContentFails { record, type_content } => {
            assert_eq!(record, "{age: [Other], name: [Alice]}");
            assert_eq!(
                type_content,
                "[{age: Integer(1), aliases: String(*), name: String(1)} | {aliases: String(*), name: String(1)}]"
            );
        }
        other => panic!("unexpected failure {:?}", other),
    }
    match &failures[1] {
        PgsError::PredicateFailed { predicate_name, value } => {
            assert_eq!(predicate_name, "is_integer");
            assert_eq!(value, &Value::str("Other"));
        }
        other => panic!("unexpected failure {:?}", other),
    }
    match &failures[2] {
        PgsError::KeyNotFoundClosedRecordType { key, record_type } => {
            assert_eq!(key.str(), "age");
            assert_eq!(record_type, "{aliases: String(*), name: String(1)}");
        }
        other => panic!("unexpected failure {:?}", other),
    }
}

#[test]
fn a_person_without_an_age_conforms() {
    let schema = person_schema();
    let bob = Node::new(2)
        .with_label("Person")
        .with_content(&Record::new().with_key_value("name", Value::str("Bob")));
    assert!(schema.conforms_node(&"PersonType".to_string(), &bob).is_right());
}

#[test]
fn labels_have_to_be_exactly_those_of_the_type() {
    let schema = person_schema();
    let record = Record::new().with_key_value("name", Value::str("Alice"));
    let no_label = Node::new(1).with_content(&record);
    let two_labels = Node::new(1).with_label("Person").with_label("Agent").with_content(&record);
    let one_label = Node::new(1).with_label("Person").with_content(&record);
    assert!(schema.conforms_node(&"PersonType".to_string(), &no_label).is_left());
    assert!(schema.conforms_node(&"PersonType".to_string(), &one_label).is_right());
    let failures = schema.conforms_node(&"PersonType".to_string(), &two_labels).left().unwrap();
    assert_eq!(failures.len(), 1);
    assert_eq!(
        failures[0],
        PgsError::LabelsDifferent {
            record_labels: "{Agent, Person}".to_string(),
            type_labels: "{Person}".to_string(),
        }
    );
}

#[test]
fn a_missing_type_is_reported() {
    let schema = person_schema();
    let node = Node::new(1).with_label("Person");
    let failures = schema.conforms_node(&"Nowhere".to_string(), &node).left().unwrap();
    assert_eq!(failures, vec![PgsError::MissingType("Nowhere".to_string())]);
}

#[test]
fn an_optional_property_may_be_absent_but_not_of_another_kind() {
    let schema = FormalGraphType::new().with_type_name(
        "T",
        LabelPropertySpec::content(
            LabelPropertySpec::label("L".to_string()),
            PropertyValueSpec::closed(PropertyValue::optional_property(
                Key::new("age"),
                TypeSpec::integer(Card::One),
            )),
        ),
    );
    let with_age = Node::new(1)
        .with_label("L")
        .with_content(&Record::new().with_key_value("age", Value::integer(7)));
    let without = Node::new(2).with_label("L");
    let wrong = Node::new(3)
        .with_label("L")
        .with_content(&Record::new().with_key_value("age", Value::str("seven")));
    assert!(schema.conforms_node(&"T".to_string(), &with_age).is_right());
    assert!(schema.conforms_node(&"T".to_string(), &without).is_right());
    assert!(schema.conforms_node(&"T".to_string(), &wrong).is_left());
}

#[test]
fn one_of_is_not_each_of() {
    let name = PropertyValue::property(Key::new("name"), TypeSpec::string(Card::One));
    let first_name = PropertyValue::property(Key::new("first_name"), TypeSpec::string(Card::One));
    let last_name = PropertyValue::property(Key::new("last_name"), TypeSpec::string(Card::One));
    let shape = PropertyValue::one_of(name, PropertyValue::each_of(first_name, last_name));
    let alternatives = shape.semantics();
    assert_eq!(alternatives.len(), 2);
    assert_eq!(
        alternatives.to_string(),
        "[{name: String(1)} | {first_name: String(1), last_name: String(1)}]"
    );
    let schema = FormalGraphType::new().with_type_name(
        "T",
        LabelPropertySpec::content(
            LabelPropertySpec::label("L".to_string()),
            PropertyValueSpec::closed(shape),
        ),
    );
    let full_name = Node::new(1).with_label("L").with_content(
        &Record::new()
            .with_key_value("first_name", Value::str("Robert"))
            .with_key_value("last_name", Value::str("Smith")),
    );
    let mixed = Node::new(2).with_label("L").with_content(
        &Record::new()
            .with_key_value("name", Value::str("Bob"))
            .with_key_value("first_name", Value::str("Robert")),
    );
    assert!(schema.conforms_node(&"T".to_string(), &full_name).is_right());
    assert!(schema.conforms_node(&"T".to_string(), &mixed).is_left());
}

#[test]
fn an_open_shape_lets_further_keys_through() {
    let name = PropertyValue::property(Key::new("name"), TypeSpec::string(Card::One));
    let schema = FormalGraphType::new()
        .with_type_name(
            "Closed",
            LabelPropertySpec::content(
                LabelPropertySpec::label("L".to_string()),
                PropertyValueSpec::closed(name.clone()),
            ),
        )
        .with_type_name(
            "Open",
            LabelPropertySpec::content(
                LabelPropertySpec::label("L".to_string()),
                PropertyValueSpec::open(name),
            ),
        );
    let node = Node::new(1).with_label("L").with_content(
        &Record::new()
            .with_key_value("name", Value::str("Bob"))
            .with_key_value("extra", Value::integer(1)),
    );
    assert!(schema.conforms_node(&"Closed".to_string(), &node).is_left());
    assert!(schema.conforms_node(&"Open".to_string(), &node).is_right());
}

#[test]
fn node_builders_keep_what_they_are_given() {
    let record = Record::new().with_key_value("k", Value::integer(1));
    let labels = LabelSet::new().with_label("B").with_label("A");
    let node = Node::new(9).with_labels(labels).with_content(&record);
    assert_eq!(node.id.id, 9);
    assert_eq!(node.id.to_string(), "(9)");
    assert_eq!(node.labels().to_string(), "{A, B}");
    assert_eq!(node.content().to_string(), "{k: [1]}");
    let copy = node.clone();
    assert_eq!(copy.labels().len(), 2);
    assert_eq!(copy.content().len(), 1);
}
