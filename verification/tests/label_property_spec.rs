use pgschemapc::card::Card;
use pgschemapc::formal_base_type::FormalBaseType;
use pgschemapc::formal_graph_type::FormalGraphType;
use pgschemapc::key::Key;
use pgschemapc::label_property_spec::LabelPropertySpec;
use pgschemapc::property_value_spec::{PropertyValue, PropertyValueSpec, TypeSpec};
use pgschemapc::record_type::RecordType;
use pgschemapc::semantics_error::SemanticsError;
use pgschemapc::value_type::ValueType;

#[test]
fn test_semantics_basic_record() {
    let mut graph = FormalGraphType::new();
    let person_label = LabelPropertySpec::Label("Person".to_string());
    let name = PropertyValue::property(Key::new("name"), TypeSpec::string(Card::One));
    let age = PropertyValue::property(Key::new("age"), TypeSpec::integer(Card::One));
    let person_content = PropertyValue::each_of(name, age);
    graph.add(
        "PersonType",
        LabelPropertySpec::content(person_label, PropertyValueSpec::closed(person_content)),
    );

    let semantics = graph.get("PersonType").unwrap().semantics(&graph).unwrap();
    let expected = FormalBaseType::new().with_label("Person").with_record_type(
        RecordType::new()
            .with_key_value("age", ValueType::integer(Card::One))
            .with_key_value("name", ValueType::string(Card::One)),
    );
    assert_eq!(semantics, expected);
}

#[test]
fn a_label_means_its_label_and_the_empty_record_type() {
    let graph = FormalGraphType::new();
    let compiled = LabelPropertySpec::label("Person".to_string()).semantics(&graph).unwrap();
    let expected = FormalBaseType::new().with_label("Person").with_record_type(RecordType::empty());
    assert_eq!(compiled, expected);
    assert_eq!(compiled, FormalBaseType::from_label("Person".to_string()));
    assert!(!compiled.is_open());
}

#[test]
fn a_reference_to_an_undeclared_type_is_a_missing_type() {
    let graph = FormalGraphType::new();
    let compiled = LabelPropertySpec::ref_("Nowhere".to_string()).semantics(&graph);
    assert_eq!(compiled.unwrap_err(), SemanticsError::MissingType("Nowhere".to_string()));
}

#[test]
fn the_first_failure_from_the_left_is_the_failure_of_the_whole() {
    let graph = FormalGraphType::new();
    let spec = LabelPropertySpec::and(
        LabelPropertySpec::ref_("A".to_string()),
        LabelPropertySpec::ref_("B".to_string()),
    );
    assert_eq!(spec.semantics(&graph).unwrap_err(), SemanticsError::MissingType("A".to_string()));
}

#[test]
fn a_reference_compiles_what_the_schema_declares() {
    let graph = FormalGraphType::new()
        .with_type_name("A", LabelPropertySpec::label("Person".to_string()))
        .with_type_name("B", LabelPropertySpec::ref_("A".to_string()));
    let compiled = LabelPropertySpec::ref_("B".to_string()).semantics(&graph).unwrap();
    assert_eq!(compiled, FormalBaseType::from_label("Person".to_string()));
}

#[test]
fn a_declaration_that_refers_to_itself_is_a_cyclic_type() {
    let graph = FormalGraphType::new()
        .with_type_name("A", LabelPropertySpec::ref_("B".to_string()))
        .with_type_name(
            "B",
            LabelPropertySpec::or(
                LabelPropertySpec::label("L".to_string()),
                LabelPropertySpec::ref_("A".to_string()),
            ),
        );
    let compiled = LabelPropertySpec::ref_("A".to_string()).semantics(&graph);
    assert_eq!(compiled.unwrap_err(), SemanticsError::CyclicType("A".to_string()));
}

#[test]
fn a_type_may_be_referred_to_twice_side_by_side() {
    let graph = FormalGraphType::new()
        .with_type_name("A", LabelPropertySpec::label("L".to_string()));
    let spec = LabelPropertySpec::and(
        LabelPropertySpec::ref_("A".to_string()),
        LabelPropertySpec::ref_("A".to_string()),
    );
    assert_eq!(spec.semantics(&graph).unwrap(), FormalBaseType::from_label("L".to_string()));
}

#[test]
fn optional_is_the_union_with_the_unit_type() {
    let graph = FormalGraphType::new();
    let name = PropertyValue::property(Key::new("name"), TypeSpec::string(Card::One));
    let inner = LabelPropertySpec::content(
        LabelPropertySpec::label("Person".to_string()),
        PropertyValueSpec::closed(name),
    );
    let direct = inner.clone().semantics(&graph).unwrap();
    let compiled = LabelPropertySpec::optional(inner).semantics(&graph).unwrap();
    assert_eq!(compiled, direct.union(&FormalBaseType::type_0()));
    let expected = FormalBaseType::new()
        .with_label("Person")
        .with_record_type(RecordType::new().with_key_value("name", ValueType::string(Card::One)))
        .with_record_type(RecordType::empty());
    assert_eq!(compiled, expected);
}

#[test]
fn and_is_combine_and_or_is_union() {
    let graph = FormalGraphType::new();
    let a = LabelPropertySpec::label("A".to_string());
    let b = LabelPropertySpec::label("B".to_string());
    let ta = a.semantics(&graph).unwrap();
    let tb = b.semantics(&graph).unwrap();
    assert_eq!(LabelPropertySpec::and(a.clone(), b.clone()).semantics(&graph).unwrap(), ta.combine(&tb));
    assert_eq!(LabelPropertySpec::or(a, b).semantics(&graph).unwrap(), ta.union(&tb));
    assert_eq!(ta.combine(&tb).labels().len(), 2);
}

#[test]
fn open_marks_the_type_as_open() {
    let graph = FormalGraphType::new();
    let spec = LabelPropertySpec::open(LabelPropertySpec::label("A".to_string()));
    let compiled = spec.semantics(&graph).unwrap();
    assert!(compiled.is_open());
    assert_ne!(compiled, FormalBaseType::from_label("A".to_string()));
    let shape = PropertyValueSpec::open(PropertyValue::Empty).semantics().unwrap();
    assert!(shape.is_open());
    let closed = PropertyValueSpec::closed(PropertyValue::Empty).semantics().unwrap();
    assert!(!closed.is_open());
    assert_eq!(closed, FormalBaseType::type_0());
}

#[test]
fn the_expression_without_label_means_the_unit_type() {
    let graph = FormalGraphType::new();
    assert_eq!(LabelPropertySpec::new().semantics(&graph).unwrap(), FormalBaseType::type_0());
}
