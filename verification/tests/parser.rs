use pgschemapc::card::{Card, Max};
use pgschemapc::formal_base_type::FormalBaseType;
use pgschemapc::key::Key;
use pgschemapc::label_property_spec::LabelPropertySpec;
use pgschemapc::node::Node;
use pgschemapc::parser::pg_actions;
use pgschemapc::parser::pg_builder::{get_value, get_values, PgBuilder};
use pgschemapc::parser::pgs_actions;
use pgschemapc::parser::pgs_builder::{get_card, get_labels, get_number, PgsBuilder};
use pgschemapc::pgs_error::PgsError;
use pgschemapc::property_value_spec::{PropertyValue, PropertyValueSpec, TypeSpec};
use pgschemapc::record::Record;
use pgschemapc::value::Value;

fn written_node(id: &str, labels: Vec<&str>, properties: Vec<pg_actions::Property>) -> pg_actions::Node {
    let mut label_list = None;
    for label in labels {
        label_list = Some(match label_list {
            None => pg_actions::identifier1_identifier(pg_actions::identifier(label)),
            Some(list) => pg_actions::identifier1_c1(list, pg_actions::identifier(label)),
        });
    }
    let mut property_list = None;
    for property in properties {
        property_list = Some(match property_list {
            None => pg_actions::property1_property(property),
            Some(list) => pg_actions::property1_c1(list, property),
        });
    }
    pg_actions::node_c1(
        pg_actions::id_identifier(pg_actions::identifier(id)),
        pg_actions::label_property_spec_c1(
            match label_list {
                Some(list) => pg_actions::label_spec_opt_label_spec(
                    pg_actions::label_spec_identifier1(list),
                ),
                None => pg_actions::label_spec_opt_empty(),
            },
            match property_list {
                Some(list) => pg_actions::property_spec_opt_property_spec(
                    pg_actions::property_spec_properties(pg_actions::properties_property1(list)),
                ),
                None => pg_actions::property_spec_opt_empty(),
            },
        ),
    )
}

fn text(key: &str, value: &str) -> pg_actions::Property {
    pg_actions::property_c1(
        pg_actions::key_identifier(pg_actions::identifier(key)),
        pg_actions::values_single_value(pg_actions::single_value_string_value(
            pg_actions::quoted_string(value),
        )),
    )
}

fn numbers(key: &str, values: Vec<&str>) -> pg_actions::Property {
    let mut list = None;
    for value in values {
        let value = pg_actions::single_value_number_value(pg_actions::number(value));
        list = Some(match list {
            None => pg_actions::single_value1_single_value(value),
            Some(list) => pg_actions::single_value1_c1(list, value),
        });
    }
    pg_actions::property_c1(
        pg_actions::key_identifier(pg_actions::identifier(key)),
        pg_actions::values_list_value(pg_actions::list_values_single_value0(match list {
            Some(list) => pg_actions::single_value0_single_value1(list),
            None => pg_actions::single_value0_empty(),
        })),
    )
}

#[test]
fn a_graph_is_built_from_its_syntax_tree() {
    let alice = written_node(
        "alice",
        vec!["Person", "Agent"],
        vec![text("name", "Alice"), numbers("lucky", vec!["7", "-13", "7"])],
    );
    let bare = written_node("bare", vec![], vec![numbers("none", vec![])]);
    let nodes = pg_actions::pg_nodes(pg_actions::nodes_node1(pg_actions::node1_c1(
        pg_actions::node1_node(alice),
        bare,
    )));
    let graph = PgBuilder::new().parse_pg(Ok(nodes)).unwrap();
    assert_eq!(graph.node_count(), 2);
    let alice = graph.get_node_by_label("alice").unwrap();
    assert_eq!(alice.id.id, 0);
    assert_eq!(alice.labels().to_string(), "{Agent, Person}");
    assert_eq!(alice.content().to_string(), "{lucky: [7, -13], name: [Alice]}");
    let bare = graph.get_node_by_label("bare").unwrap();
    assert_eq!(bare.id.id, 1);
    assert_eq!(bare.labels().len(), 0);
    assert_eq!(bare.content().to_string(), "{none: []}");
}

#[test]
fn a_number_that_is_none_is_an_invalid_number() {
    let good = written_node("a", vec![], vec![numbers("n", vec!["1"])]);
    let bad = written_node("b", vec![], vec![numbers("n", vec!["1", "12x", "y"])]);
    let built = PgBuilder::new().parse_pg(Ok(vec![good, bad]));
    assert_eq!(
        built.unwrap_err(),
        PgsError::InvalidNumber("Invalid number value: 12x".to_string())
    );
}

#[test]
fn a_syntax_error_is_handed_on() {
    let built = PgBuilder::new().parse_pg(Err("unexpected end".to_string()));
    assert_eq!(built.unwrap_err(), PgsError::PGParserError { error: "unexpected end".to_string() });
    let built = PgsBuilder::new().parse_pgs(Err("unexpected end".to_string()));
    assert_eq!(built.unwrap_err(), PgsError::ParserError { error: "unexpected end".to_string() });
}

#[test]
fn written_integers() {
    let parse = |text: &str| {
        get_value(&pg_actions::SingleValue::NumberValue(text.to_string())).ok()
    };
    assert_eq!(parse("0"), Some(Value::integer(0)));
    assert_eq!(parse("-0"), Some(Value::integer(0)));
    assert_eq!(parse("+12"), Some(Value::integer(12)));
    assert_eq!(parse("007"), Some(Value::integer(7)));
    assert_eq!(parse("2147483647"), Some(Value::integer(i32::MAX)));
    assert_eq!(parse("-2147483648"), Some(Value::integer(i32::MIN)));
    assert_eq!(parse("2147483648"), None);
    assert_eq!(parse("-2147483649"), None);
    assert_eq!(parse(""), None);
    assert_eq!(parse("-"), None);
    assert_eq!(parse("+"), None);
    assert_eq!(parse("+-1"), None);
    assert_eq!(parse(" 1"), None);
    assert_eq!(parse("1 "), None);
    assert_eq!(parse("1_000"), None);
    assert_eq!(parse("1.0"), None);
    assert_eq!(parse("\u{661}"), None);
    assert_eq!(
        get_value(&pg_actions::SingleValue::StringValue("12".to_string())).ok(),
        Some(Value::str("12"))
    );
    let single = get_values(&pg_actions::Values::SingleValue(
        pg_actions::SingleValue::NumberValue("5".to_string()),
    ))
    .unwrap();
    assert_eq!(single.len(), 1);
    assert!(single.contains(&Value::integer(5)));
}

#[test]
fn written_naturals() {
    assert_eq!(get_number(&"0".to_string()), Ok(0));
    assert_eq!(get_number(&"+5".to_string()), Ok(5));
    assert_eq!(get_number(&"0042".to_string()), Ok(42));
    assert_eq!(get_number(&usize::MAX.to_string()), Ok(usize::MAX));
    assert_eq!(
        get_number(&"-0".to_string()),
        Err(PgsError::InvalidNumber("-0".to_string()))
    );
    assert_eq!(
        get_number(&"99999999999999999999999".to_string()),
        Err(PgsError::InvalidNumber("99999999999999999999999".to_string()))
    );
    assert_eq!(get_number(&"".to_string()), Err(PgsError::InvalidNumber("".to_string())));
    assert_eq!(get_number(&"4a".to_string()), Err(PgsError::InvalidNumber("4a".to_string())));
}

fn written_property(
    key: &str,
    simple: pgs_actions::SimpleType,
    card: Option<pgs_actions::Card>,
    optional: bool,
) -> pgs_actions::Properties {
    pgs_actions::properties_base_property(
        if optional {
            pgs_actions::optionalopt_optional()
        } else {
            pgs_actions::optionalopt_empty()
        },
        pgs_actions::property_c1(
            pgs_actions::key_identifier(pgs_actions::identifier(key)),
            pgs_actions::type_spec_simple_type(simple),
            match card {
                Some(card) => pgs_actions::card_opt_card(card),
                None => pgs_actions::card_opt_empty(),
            },
        ),
    )
}

#[test]
fn a_schema_is_built_from_its_syntax_tree() {
    let properties = pgs_actions::properties_each_of(
        written_property("name", pgs_actions::simple_type_string_name(), None, false),
        pgs_actions::properties_paren(pgs_actions::properties_one_of(
            written_property(
                "age",
                pgs_actions::simple_type_integer_name(),
                Some(pgs_actions::card_optional()),
                true,
            ),
            written_property(
                "born",
                pgs_actions::simple_type_date_name(),
                Some(pgs_actions::card_range(
                    pgs_actions::number("1"),
                    pgs_actions::max_number(pgs_actions::number("2")),
                )),
                false,
            ),
        )),
    );
    let labels = pgs_actions::labels_c1(
        pgs_actions::single_label_single_label(pgs_actions::identifier("Person")),
        pgs_actions::more_labels_opt_more_labels(pgs_actions::more_labels_and_labels(
            pgs_actions::single_label_type_name(pgs_actions::identifier("AgentType")),
            pgs_actions::more_labels_opt_more_labels(pgs_actions::more_labels_or_labels(
                pgs_actions::single_label_single_label(pgs_actions::identifier("Robot")),
                pgs_actions::more_labels_opt_empty(),
            )),
        )),
    );
    let node_type = pgs_actions::node_type_c1(
        pgs_actions::type_name_identifier(pgs_actions::identifier("PersonType")),
        pgs_actions::label_property_spec_c1(
            pgs_actions::label_spec_opt_label_spec(pgs_actions::label_spec_labels(labels)),
            pgs_actions::property_spec_opt_property_spec(pgs_actions::property_spec_properties(
                properties,
            )),
        ),
    );
    let agent_type = pgs_actions::node_type_c1(
        pgs_actions::type_name_identifier(pgs_actions::identifier("AgentType")),
        pgs_actions::label_property_spec_c1(
            pgs_actions::label_spec_opt_label_spec(pgs_actions::label_spec_labels(
                pgs_actions::labels_c1(
                    pgs_actions::single_label_single_label(pgs_actions::identifier("Agent")),
                    pgs_actions::more_labels_opt_empty(),
                ),
            )),
            pgs_actions::property_spec_opt_empty(),
        ),
    );
    let edge_type = pgs_actions::edge_type_c1(
        pgs_actions::endpoint_type_label_property_spec(pgs_actions::label_property_spec_c1(
            pgs_actions::label_spec_opt_empty(),
            pgs_actions::property_spec_opt_empty(),
        )),
        pgs_actions::type_name_identifier(pgs_actions::identifier("KnowsType")),
        pgs_actions::label_property_spec_c1(
            pgs_actions::label_spec_opt_empty(),
            pgs_actions::property_spec_opt_empty(),
        ),
        pgs_actions::endpoint_type_label_property_spec(pgs_actions::label_property_spec_c1(
            pgs_actions::label_spec_opt_empty(),
            pgs_actions::property_spec_opt_empty(),
        )),
    );
    let types = pgs_actions::pgs_create_type1(pgs_actions::create_type1_c1(
        pgs_actions::create_type1_c1(
            pgs_actions::create_type1_c1(
                pgs_actions::create_type1_create_type(pgs_actions::create_type_create_node_type(
                    pgs_actions::create_node_type_node_type(node_type),
                )),
                pgs_actions::create_type_create_node_type(
                    pgs_actions::create_node_type_node_type(agent_type),
                ),
            ),
            pgs_actions::create_type_create_edge_type(pgs_actions::create_edge_type_edge_type(
                edge_type,
            )),
        ),
        pgs_actions::create_type_create_graph_type(pgs_actions::create_graph_type_graph_type(
            pgs_actions::graph_type_type_name(pgs_actions::type_name_identifier(
                pgs_actions::identifier("G"),
            )),
        )),
    ));
    let schema = PgsBuilder::new().parse_pgs(Ok(types)).unwrap();
    assert!(schema.get("G").is_none());
    assert!(schema.get("AgentType").is_some());
    assert_eq!(
        schema.get("KnowsType").unwrap().semantics(&schema).unwrap(),
        FormalBaseType::type_0()
    );

    let expected = LabelPropertySpec::content(
        LabelPropertySpec::or(
            LabelPropertySpec::and(
                LabelPropertySpec::label("Person".to_string()),
                LabelPropertySpec::ref_("AgentType".to_string()),
            ),
            LabelPropertySpec::label("Robot".to_string()),
        ),
        PropertyValueSpec::closed(PropertyValue::each_of(
            PropertyValue::property(Key::new("name"), TypeSpec::string(Card::One)),
            PropertyValue::one_of(
                PropertyValue::optional_property(Key::new("age"), TypeSpec::integer(Card::ZeroOrOne)),
                PropertyValue::property(
                    Key::new("born"),
                    TypeSpec::date(Card::Range(1, Max::Bounded(2))),
                ),
            ),
        )),
    );
    assert_eq!(
        schema.get("PersonType").unwrap().semantics(&schema).unwrap(),
        expected.semantics(&schema).unwrap()
    );

    let robot = Node::new(1)
        .with_label("Person")
        .with_label("Agent")
        .with_label("Robot")
        .with_content(&Record::new().with_key_value("name", Value::str("R2")));
    assert!(schema.conforms_node(&"PersonType".to_string(), &robot).is_right());
}

#[test]
fn written_cardinalities() {
    assert_eq!(get_card(&pgs_actions::card_zero_or_more()), Ok(Card::ZeroOrMore));
    assert_eq!(get_card(&pgs_actions::card_one_or_more()), Ok(Card::OneOrMore));
    assert_eq!(get_card(&pgs_actions::card_optional()), Ok(Card::ZeroOrOne));
    assert_eq!(
        get_card(&pgs_actions::card_range("2".to_string(), pgs_actions::max_star())),
        Ok(Card::Range(2, Max::Unbounded))
    );
    assert_eq!(
        get_card(&pgs_actions::card_range(
            "x".to_string(),
            pgs_actions::max_number("y".to_string())
        )),
        Err(PgsError::InvalidNumber("x".to_string()))
    );
    assert_eq!(
        get_card(&pgs_actions::card_range(
            "1".to_string(),
            pgs_actions::max_number("y".to_string())
        )),
        Err(PgsError::InvalidNumber("y".to_string()))
    );
}

#[test]
fn written_labels_group_from_the_left() {
    let labels = pgs_actions::labels_c1(
        pgs_actions::single_label_single_label("A".to_string()),
        pgs_actions::more_labels_opt_more_labels(pgs_actions::more_labels_or_labels(
            pgs_actions::single_label_single_label("B".to_string()),
            pgs_actions::more_labels_opt_more_labels(pgs_actions::more_labels_and_labels(
                pgs_actions::single_label_single_label("C".to_string()),
                pgs_actions::more_labels_opt_empty(),
            )),
        )),
    );
    let built = get_labels(&labels);
    let schema = pgschemapc::formal_graph_type::FormalGraphType::new();
    let expected = LabelPropertySpec::and(
        LabelPropertySpec::or(
            LabelPropertySpec::label("A".to_string()),
            LabelPropertySpec::label("B".to_string()),
        ),
        LabelPropertySpec::label("C".to_string()),
    );
    assert_eq!(built.semantics(&schema).unwrap(), expected.semantics(&schema).unwrap());
    assert_eq!(built.semantics(&schema).unwrap().labels().to_string(), "{A, B, C}");
}

#[test]
fn a_declaration_with_a_bad_bound_fails_the_schema() {
    let bad = pgs_actions::node_type_c1(
        "T".to_string(),
        pgs_actions::label_property_spec_c1(
            Some(pgs_actions::labels_c1(
                pgs_actions::single_label_single_label("L".to_string()),
                None,
            )),
            Some(written_property(
                "k",
                pgs_actions::simple_type_string_name(),
                Some(pgs_actions::card_range("1".to_string(), pgs_actions::max_number("two".to_string()))),
                false,
            )),
        ),
    );
    let built = PgsBuilder::new()
        .parse_pgs(Ok(vec![pgs_actions::create_type_create_node_type(bad)]));
    assert_eq!(built.unwrap_err(), PgsError::InvalidNumber("two".to_string()));
}
