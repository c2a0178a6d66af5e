use pgschemapc::boolean_expr::BooleanExpr;
use pgschemapc::card::{Card, Max};
use pgschemapc::property_value_spec::{Type, TypeSpec};
use pgschemapc::semantics_error::SemanticsError;
use pgschemapc::value::Value;
use pgschemapc::value_set::ValueSet;
use pgschemapc::value_type::{check_all, ScalarKind, ValueType};

fn set(values: Vec<Value>) -> ValueSet {
    let mut set = ValueSet::new();
    for value in values {
        set.insert(value);
    }
    set
}

#[test]
fn the_count_is_checked_before_the_kinds() {
    let one_string = ValueType::string(Card::One);
    let values = set(vec![Value::integer(1), Value::integer(2)]);
    let failures = one_string.conforms(&values).left().unwrap();
    assert_eq!(failures, vec![SemanticsError::CardinalityMismatch { expected: Card::One, count: 2 }]);
}

#[test]
fn the_first_value_of_another_kind_is_reported() {
    let strings = ValueType::string(Card::ZeroOrMore);
    let values = set(vec![Value::str("a"), Value::integer(2), Value::date("d")]);
    let failures = strings.conforms(&values).left().unwrap();
    assert_eq!(
        failures,
        vec![SemanticsError::PredicateFailed {
            predicate_name: "is_string".to_string(),
            value: Value::integer(2),
        }]
    );
    let dates = ValueType::date(Card::OneOrMore);
    let failures = dates.conforms(&values).left().unwrap();
    assert_eq!(
        failures,
        vec![SemanticsError::PredicateFailed {
            predicate_name: "is_date".to_string(),
            value: Value::str("a"),
        }]
    );
}

#[test]
fn scalar_types_accept_their_kind() {
    assert!(ValueType::string(Card::One).conforms(&set(vec![Value::str("a")])).is_right());
    assert!(ValueType::integer(Card::One).conforms(&set(vec![Value::integer(1)])).is_right());
    assert!(ValueType::date(Card::One).conforms(&set(vec![Value::date("d")])).is_right());
    assert!(ValueType::integer(Card::ZeroOrMore).conforms(&set(vec![])).is_right());
    assert!(ValueType::integer(Card::OneOrMore).conforms(&set(vec![])).is_left());
    let evidence = ValueType::string(Card::One).conforms(&set(vec![Value::str("a")])).right().unwrap();
    assert!(evidence.is_empty());
}

#[test]
fn a_value_counts_once() {
    let values = set(vec![Value::integer(1), Value::integer(1)]);
    assert_eq!(values.len(), 1);
    assert!(ValueType::integer(Card::One).conforms(&values).is_right());
}

#[test]
fn a_range_of_values() {
    let range = ValueType::integer(Card::Range(2, Max::Bounded(4)));
    let mut values = set(vec![Value::integer(1)]);
    assert!(range.conforms(&values).is_left());
    values.insert(Value::integer(2));
    assert!(range.conforms(&values).is_right());
    values.insert(Value::integer(3));
    assert!(range.conforms(&values).is_right());
    values.insert(Value::integer(4));
    assert!(range.conforms(&values).is_right());
    values.insert(Value::integer(5));
    assert_eq!(
        range.conforms(&values).left().unwrap(),
        vec![SemanticsError::CardinalityMismatch {
            expected: Card::Range(2, Max::Bounded(4)),
            count: 5,
        }]
    );
}

#[test]
fn an_intersection_asks_for_both_and_reports_the_first_that_fails() {
    let both = ValueType::intersection(
        ValueType::integer(Card::OneOrMore),
        ValueType::cond(BooleanExpr::GreaterThan("5".to_string())),
    );
    assert!(both.conforms(&set(vec![Value::integer(6), Value::integer(7)])).is_right());
    assert_eq!(
        both.conforms(&set(vec![Value::integer(6), Value::integer(10)])).left().unwrap(),
        vec![SemanticsError::PredicateFailed {
            predicate_name: "(> 5)".to_string(),
            value: Value::integer(10),
        }]
    );
    assert_eq!(
        both.conforms(&set(vec![])).left().unwrap(),
        vec![SemanticsError::CardinalityMismatch { expected: Card::OneOrMore, count: 0 }]
    );
}

#[test]
fn a_union_asks_for_one_and_reports_both_where_both_fail() {
    let either = ValueType::union(ValueType::integer(Card::One), ValueType::string(Card::One));
    assert!(either.conforms(&set(vec![Value::integer(6)])).is_right());
    assert!(either.conforms(&set(vec![Value::str("six")])).is_right());
    assert_eq!(
        either.conforms(&set(vec![Value::date("d")])).left().unwrap(),
        vec![
            SemanticsError::PredicateFailed {
                predicate_name: "is_integer".to_string(),
                value: Value::date("d"),
            },
            SemanticsError::PredicateFailed {
                predicate_name: "is_string".to_string(),
                value: Value::date("d"),
            },
        ]
    );
}

#[test]
fn a_condition_is_asked_of_every_value() {
    let cond = ValueType::cond(BooleanExpr::Equals("a".to_string()));
    assert!(cond.conforms(&set(vec![])).is_right());
    assert!(cond.conforms(&set(vec![Value::str("a")])).is_right());
    assert_eq!(
        cond.conforms(&set(vec![Value::str("a"), Value::str("b"), Value::str("c")]))
            .left()
            .unwrap(),
        vec![SemanticsError::PredicateFailed {
            predicate_name: "(== a)".to_string(),
            value: Value::str("b"),
        }]
    );
}

#[test]
fn check_all_reports_under_the_given_name() {
    let values = set(vec![Value::integer(1), Value::str("x")]);
    assert!(check_all(&values, ScalarKind::Integer, "whole").is_left());
    assert_eq!(
        check_all(&values, ScalarKind::Integer, "whole").left().unwrap(),
        vec![SemanticsError::PredicateFailed {
            predicate_name: "whole".to_string(),
            value: Value::str("x"),
        }]
    );
    assert!(check_all(&set(vec![Value::integer(1)]), ScalarKind::Integer, "whole").is_right());
    assert!(ScalarKind::Date.matches(&Value::date("d")));
    assert!(!ScalarKind::Date.matches(&Value::str("d")));
    assert_eq!(ScalarKind::String.test_name(), "is_string");
}

#[test]
fn value_types_are_written_out() {
    assert_eq!(ValueType::string(Card::One).to_string(), "String(1)");
    assert_eq!(ValueType::integer(Card::ZeroOrOne).to_string(), "Integer(?)");
    assert_eq!(ValueType::date(Card::OneOrMore).to_string(), "Date(+)");
    assert_eq!(
        ValueType::intersection(ValueType::string(Card::One), ValueType::date(Card::One)).to_string(),
        "(String(1) \u{2229} Date(1))"
    );
    assert_eq!(
        ValueType::union(ValueType::string(Card::One), ValueType::date(Card::One)).to_string(),
        "(String(1) \u{222a} Date(1))"
    );
    assert_eq!(
        ValueType::cond(BooleanExpr::Equals("x".to_string())).to_string(),
        "Condition((== x))"
    );
}

#[test]
fn value_types_compare_by_what_they_are() {
    let a = ValueType::union(ValueType::string(Card::One), ValueType::date(Card::One));
    assert!(a == a.clone());
    assert!(a != ValueType::intersection(ValueType::string(Card::One), ValueType::date(Card::One)));
    assert!(ValueType::string(Card::One) != ValueType::string(Card::ZeroOrOne));
    assert!(ValueType::string(Card::One) != ValueType::integer(Card::One));
    assert_eq!(ValueType::string(Card::One), ValueType::StringType(Card::One));
}

#[test]
fn written_types_become_value_types() {
    let string = Type::Type(ValueType::string(Card::One));
    let date = Type::Type(ValueType::date(Card::One));
    assert_eq!(
        Type::Conjunction(Box::new(string.clone()), Box::new(date.clone())).to_value_type(),
        ValueType::intersection(ValueType::string(Card::One), ValueType::date(Card::One))
    );
    assert_eq!(
        Type::Disjunction(Box::new(string), Box::new(date)).to_value_type(),
        ValueType::union(ValueType::string(Card::One), ValueType::date(Card::One))
    );
    assert_eq!(
        Type::Cond(ValueType::integer(Card::One), BooleanExpr::GreaterThan("1".to_string()))
            .to_value_type(),
        ValueType::intersection(
            ValueType::integer(Card::One),
            ValueType::cond(BooleanExpr::GreaterThan("1".to_string()))
        )
    );
    assert_eq!(TypeSpec::string(Card::One).to_value_type(), ValueType::string(Card::One));
    assert_eq!(TypeSpec::integer(Card::One).to_value_type(), ValueType::integer(Card::One));
    assert_eq!(TypeSpec::date(Card::OneOrMore).to_value_type(), ValueType::date(Card::OneOrMore));
}
