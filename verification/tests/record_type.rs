use pgschemapc::card::Card;
use pgschemapc::key::Key;
use pgschemapc::record::Record;
use pgschemapc::record_type::RecordType;
use pgschemapc::semantics_error::SemanticsError;
use pgschemapc::value::Value;
use pgschemapc::value_type::ValueType;

#[test]
fn test_record_type_conforms() {
    let mut record_type = RecordType::new();
    record_type.insert(Key::new("name"), ValueType::string(Card::One));
    record_type.insert(Key::new("age"), ValueType::integer(Card::One));

    let mut record = Record::new();
    record.insert(Key::new("name"), Value::str("Alice"));
    record.insert(Key::new("age"), Value::integer(42));

    assert!(record_type.conforms(&record, true).is_right());
}

#[test]
fn test_record_type_not_conforms() {
    let record_type = RecordType::new().with_key_value("name", ValueType::string(Card::One));
    let record = Record::new().with_key_value("name", Value::integer(42));
    assert!(record_type.conforms(&record, false).is_left());
}

#[test]
fn test_record_type_name_age_not_conforms() {
    let record_type = RecordType::new()
        .with_key_value("name", ValueType::string(Card::One))
        .with_key_value("age", ValueType::integer(Card::One));

    let record = Record::new()
        .with_key_value("name", Value::str("Alice"))
        .with_key_value("age", Value::str("Other"));
    assert!(record_type.conforms(&record, false).is_left());
}

#[test]
fn closed_check_rejects_an_undeclared_key() {
    let record_type = RecordType::new().with_key_value("name", ValueType::string(Card::One));
    let record = Record::new()
        .with_key_value("name", Value::str("Alice"))
        .with_key_value("nick", Value::str("Al"));
    let verdict = record_type.conforms(&record, false);
    let failures = verdict.left().unwrap();
    assert_eq!(failures.len(), 1);
    match &failures[0] {
        SemanticsError::KeyNotFoundClosedRecordType { key, record_type } => {
            assert_eq!(key.str(), "nick");
            assert_eq!(record_type, "{name: String(1)}");
        }
        other => panic!("unexpected failure {:?}", other),
    }
}

#[test]
fn open_check_lets_an_undeclared_key_through() {
    let record_type = RecordType::new().with_key_value("name", ValueType::string(Card::One));
    let record = Record::new()
        .with_key_value("name", Value::str("Alice"))
        .with_key_value("nick", Value::str("Al"));
    let verdict = record_type.conforms(&record, true);
    assert!(verdict.is_right());
    assert!(verdict.right().unwrap().is_empty());
}

#[test]
fn closed_check_reports_the_required_keys_that_are_missing() {
    let record_type = RecordType::new()
        .with_key_value("name", ValueType::string(Card::One))
        .with_key_value("age", ValueType::integer(Card::One))
        .with_key_value("aliases", ValueType::string(Card::ZeroOrMore))
        .with_key_value("zip", ValueType::string(Card::OneOrMore));
    let record = Record::new().with_key_value("name", Value::str("Alice"));
    let failures = record_type.conforms(&record, false).left().unwrap();
    assert_eq!(failures.len(), 1);
    match &failures[0] {
        SemanticsError::MissingKeys { keys, record_type } => {
            assert_eq!(keys, "age, zip");
            assert_eq!(
                record_type,
                "{age: Integer(1), aliases: String(*), name: String(1), zip: String(+)}"
            );
        }
        other => panic!("unexpected failure {:?}", other),
    }
    // An open check asks for no key.
    assert!(record_type.conforms(&record, true).is_right());
}

#[test]
fn the_first_failing_key_in_order_is_reported() {
    let record_type = RecordType::new()
        .with_key_value("b", ValueType::string(Card::One))
        .with_key_value("a", ValueType::integer(Card::One));
    let record = Record::new()
        .with_key_value("b", Value::integer(1))
        .with_key_value("a", Value::str("x"));
    let failures = record_type.conforms(&record, false).left().unwrap();
    assert_eq!(failures.len(), 1);
    match &failures[0] {
        SemanticsError::PredicateFailed { predicate_name, value } => {
            assert_eq!(predicate_name, "is_integer");
            assert_eq!(value, &Value::str("x"));
        }
        other => panic!("unexpected failure {:?}", other),
    }
}

#[test]
fn combine_intersects_shared_keys_and_keeps_the_others() {
    let left = RecordType::new()
        .with_key_value("name", ValueType::string(Card::One))
        .with_key_value("age", ValueType::integer(Card::One));
    let right = RecordType::new()
        .with_key_value("age", ValueType::integer(Card::ZeroOrOne))
        .with_key_value("zip", ValueType::string(Card::One));
    let both = left.combine(&right);
    assert_eq!(both.len(), 3);
    assert_eq!(
        both.to_string(),
        "{age: (Integer(1) \u{2229} Integer(?)), name: String(1), zip: String(1)}"
    );
    let expected = RecordType::new()
        .with_key_value("zip", ValueType::string(Card::One))
        .with_key_value(
            "age",
            ValueType::intersection(
                ValueType::integer(Card::One),
                ValueType::integer(Card::ZeroOrOne),
            ),
        )
        .with_key_value("name", ValueType::string(Card::One));
    assert!(both == expected);
    assert!(!(both == left));
}

#[test]
fn combine_with_the_empty_record_type_changes_nothing() {
    let left = RecordType::new().with_key_value("name", ValueType::string(Card::One));
    assert!(left.combine(&RecordType::empty()) == left);
    assert!(RecordType::empty().combine(&left) == left);
}

#[test]
fn insert_replaces_what_was_declared() {
    let mut record_type = RecordType::new().with_key_value("a", ValueType::string(Card::One));
    record_type.insert(Key::new("a"), ValueType::integer(Card::One));
    assert_eq!(record_type.len(), 1);
    assert_eq!(record_type.to_string(), "{a: Integer(1)}");
    assert!(record_type.get(&Key::new("a")).is_some());
    assert!(record_type.get(&Key::new("b")).is_none());
}
