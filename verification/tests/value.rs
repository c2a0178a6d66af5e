use pgschemapc::boolean_expr::BooleanExpr;
use pgschemapc::card::{Card, Max};
use pgschemapc::pgs_error::PgsError;
use pgschemapc::text::{decimal_string, signed_decimal_string, str_equal, str_precedes};
use pgschemapc::value::Value;
use std::cmp::Ordering;

#[test]
fn greater_than_compares_decimal_text_not_numbers() {
    let nine = BooleanExpr::GreaterThan("9".to_string());
    assert_eq!(nine.check(&Value::integer(10)), false);
    assert_eq!(nine.check(&Value::integer(91)), true);
    assert_eq!(nine.check(&Value::integer(9)), false);
    assert_eq!(nine.check(&Value::integer(-1)), false);
    let ten = BooleanExpr::GreaterThan("10".to_string());
    assert_eq!(ten.check(&Value::integer(9)), true);
    assert_eq!(ten.check(&Value::integer(100)), true);
    assert_eq!(ten.check(&Value::str("99")), false);
    assert_eq!(ten.check(&Value::date("99")), false);
}

#[test]
fn equals_is_met_by_the_same_text_only() {
    let e = BooleanExpr::Equals("abc".to_string());
    assert!(e.check(&Value::str("abc")));
    assert!(!e.check(&Value::str("abd")));
    assert!(!e.check(&Value::date("abc")));
    assert!(!e.check(&Value::integer(1)));
}

#[test]
fn and_or_not_compose() {
    let a = BooleanExpr::Equals("a".to_string());
    let b = BooleanExpr::Equals("b".to_string());
    let either = BooleanExpr::Or(Box::new(a.clone()), Box::new(b.clone()));
    let both = BooleanExpr::And(Box::new(a.clone()), Box::new(b.clone()));
    let not_a = BooleanExpr::Not(Box::new(a.clone()));
    assert!(either.check(&Value::str("b")));
    assert!(!either.check(&Value::str("c")));
    assert!(!both.check(&Value::str("a")));
    assert!(not_a.check(&Value::str("b")));
    assert!(!not_a.check(&Value::str("a")));
    assert_eq!(either.to_string(), "((== a) OR (== b))");
    assert_eq!(both.to_string(), "((== a) AND (== b))");
    assert_eq!(not_a.to_string(), "NOT ((== a))");
    assert_eq!(BooleanExpr::GreaterThan("9".to_string()).to_string(), "(> 9)");
    assert!(either == either.clone());
    assert!(!(either == both));
}

#[test]
fn value_kinds() {
    assert!(Value::str("x").is_string());
    assert!(!Value::str("x").is_integer());
    assert!(Value::integer(1).is_integer());
    assert!(!Value::integer(1).is_date());
    assert!(Value::date("2024-01-01").is_date());
    assert!(!Value::date("2024-01-01").is_string());
    assert_eq!(Value::str("x"), Value::String("x".to_string()));
    assert_eq!(Value::integer(5), Value::Integer(5));
    assert_eq!(Value::date("d"), Value::Date("d".to_string()));
    assert_ne!(Value::str("d"), Value::date("d"));
}

#[test]
fn values_are_written_as_they_are() {
    assert_eq!(Value::str("x y").to_string(), "x y");
    assert_eq!(Value::integer(-17).to_string(), "-17");
    assert_eq!(Value::integer(i32::MIN).to_string(), "-2147483648");
    assert_eq!(Value::integer(i32::MAX).to_string(), "2147483647");
    assert_eq!(Value::integer(0).to_string(), "0");
    assert_eq!(Value::date("2024-01-01").to_string(), "2024-01-01");
}

#[test]
fn comparisons_of_integers() {
    let two = Value::integer(2);
    let three = Value::integer(3);
    assert_eq!(three.greater_than(&two), Ok(true));
    assert_eq!(two.greater_than(&three), Ok(false));
    assert_eq!(two.greater_than(&two), Ok(false));
    assert_eq!(two.less_than(&three), Ok(true));
    assert_eq!(three.less_than(&two), Ok(false));
    assert_eq!(two.less_than_or_equal(&three), Ok(true));
    assert_eq!(two.less_than_or_equal(&two), Ok(false));
    assert_eq!(two.greater_than_or_equal(&three), Ok(true));
    assert_eq!(three.greater_than_or_equal(&two), Ok(false));
    assert_eq!(two.greater_than_or_equal(&two), Ok(false));
}

#[test]
fn comparisons_of_other_kinds_are_type_mismatches() {
    let two = Value::integer(2);
    let text = Value::str("a\"b");
    assert_eq!(
        two.greater_than(&text),
        Err(PgsError::TypeMismatch {
            operation: ">".to_string(),
            expected: "Integer".to_string(),
            found: "String(\"a\\\"b\")".to_string(),
        })
    );
    assert_eq!(
        text.less_than(&two),
        Err(PgsError::TypeMismatch {
            operation: "<".to_string(),
            expected: "Integer".to_string(),
            found: "Integer(2)".to_string(),
        })
    );
    assert_eq!(
        two.less_than_or_equal(&Value::date("d")),
        Err(PgsError::TypeMismatch {
            operation: "<=".to_string(),
            expected: "Integer".to_string(),
            found: "Date(\"d\")".to_string(),
        })
    );
    assert_eq!(
        text.greater_than_or_equal(&text),
        Err(PgsError::TypeMismatch {
            operation: ">=".to_string(),
            expected: "Integer".to_string(),
            found: "String(\"a\\\"b\")".to_string(),
        })
    );
}

#[test]
fn regex_match_looks_for_the_pattern_as_it_is() {
    assert_eq!(Value::str("hello world").regex_match("o w"), Ok(true));
    assert_eq!(Value::str("hello world").regex_match("ow"), Ok(false));
    assert_eq!(Value::str("hello").regex_match(""), Ok(true));
    assert_eq!(Value::str("").regex_match("a"), Ok(false));
    assert_eq!(Value::str("a.c").regex_match("a.c"), Ok(true));
    assert_eq!(Value::str("abc").regex_match("a.c"), Ok(false));
    assert_eq!(
        Value::integer(5).regex_match("5"),
        Err(PgsError::TypeMismatch {
            operation: "regex_match".to_string(),
            expected: "String".to_string(),
            found: "Integer(5)".to_string(),
        })
    );
}

#[test]
fn values_of_one_kind_are_ordered() {
    assert_eq!(Value::integer(1).partial_cmp(&Value::integer(2)), Some(Ordering::Less));
    assert_eq!(Value::integer(2).partial_cmp(&Value::integer(2)), Some(Ordering::Equal));
    assert_eq!(Value::integer(10).partial_cmp(&Value::integer(9)), Some(Ordering::Greater));
    assert_eq!(Value::str("10").partial_cmp(&Value::str("9")), Some(Ordering::Less));
    assert_eq!(Value::str("b").partial_cmp(&Value::str("ab")), Some(Ordering::Greater));
    assert_eq!(Value::str("ab").partial_cmp(&Value::str("ab")), Some(Ordering::Equal));
    assert_eq!(Value::date("2024").partial_cmp(&Value::date("2025")), Some(Ordering::Less));
    assert_eq!(Value::str("a").partial_cmp(&Value::date("a")), None);
    assert_eq!(Value::integer(1).partial_cmp(&Value::str("1")), None);
    assert!(Value::integer(1) < Value::integer(2));
    assert!(!(Value::integer(1) < Value::str("2")));
}

#[test]
fn dictionary_order_of_texts() {
    assert!(str_precedes("", "a"));
    assert!(!str_precedes("a", ""));
    assert!(!str_precedes("", ""));
    assert!(str_precedes("10", "9"));
    assert!(!str_precedes("9", "10"));
    assert!(str_precedes("ab", "abc"));
    assert!(!str_precedes("abc", "ab"));
    assert!(!str_precedes("abc", "abc"));
    assert!(str_precedes("Z", "a"));
    assert!(str_precedes("z", "\u{e9}"));
    assert_eq!(str_precedes("\u{e9}", "\u{4e2d}"), "\u{e9}" < "\u{4e2d}");
    assert!(str_equal("abc", "abc"));
    assert!(!str_equal("abc", "abd"));
    assert!(!str_equal("abc", "ab"));
    assert!(str_equal("", ""));
}

#[test]
fn decimal_notation() {
    assert_eq!(decimal_string(0), "0");
    assert_eq!(decimal_string(7), "7");
    assert_eq!(decimal_string(10), "10");
    assert_eq!(decimal_string(1234567890), "1234567890");
    assert_eq!(decimal_string(u64::MAX), "18446744073709551615");
    assert_eq!(signed_decimal_string(-5), "-5");
    assert_eq!(signed_decimal_string(120), "120");
}

#[test]
fn cardinality_boundaries() {
    assert!(Card::ZeroOrMore.contains(0));
    assert!(Card::ZeroOrMore.contains(1));
    assert!(Card::ZeroOrMore.contains(1000));
    assert!(!Card::OneOrMore.contains(0));
    assert!(Card::OneOrMore.contains(1));
    assert!(Card::OneOrMore.contains(17));
    assert!(!Card::One.contains(0));
    assert!(Card::One.contains(1));
    assert!(!Card::One.contains(2));
    assert!(Card::ZeroOrOne.contains(0));
    assert!(Card::ZeroOrOne.contains(1));
    assert!(!Card::ZeroOrOne.contains(2));
    let range = Card::range(2, Max::Bounded(4));
    assert_eq!(range, Card::Range(2, Max::Bounded(4)));
    assert!(!range.contains(1));
    assert!(range.contains(2));
    assert!(range.contains(3));
    assert!(range.contains(4));
    assert!(!range.contains(5));
    let open = Card::range(2, Max::Unbounded);
    assert!(!open.contains(1));
    assert!(open.contains(2));
    assert!(open.contains(usize::MAX));
    let never = Card::range(3, Max::Bounded(2));
    assert!(!never.contains(2));
    assert!(!never.contains(3));
}

#[test]
fn cardinalities_are_written_in_short() {
    assert_eq!(Card::One.to_string(), "1");
    assert_eq!(Card::ZeroOrOne.to_string(), "?");
    assert_eq!(Card::ZeroOrMore.to_string(), "*");
    assert_eq!(Card::OneOrMore.to_string(), "+");
    assert_eq!(Card::Range(2, Max::Bounded(40)).to_string(), "{2,40}");
    assert_eq!(Card::Range(0, Max::Unbounded).to_string(), "{0,*}");
}

#[test]
fn dictionary_order_is_the_order_of_texts() {
    let texts = [
        "",
        "a",
        "A",
        "ab",
        "abc",
        "b",
        "10",
        "9",
        "-1",
        "z",
        "\u{7f}",
        "\u{80}",
        "\u{7ff}",
        "\u{800}",
        "\u{d7ff}",
        "\u{e000}",
        "\u{ffff}",
        "\u{10000}",
        "\u{10ffff}",
        "e\u{301}",
        "\u{e9}",
        "a\u{10000}",
        "a\u{ffff}",
    ];
    for a in texts.iter() {
        for b in texts.iter() {
            assert_eq!(str_precedes(a, b), a < b, "{:?} before {:?}", a, b);
            assert_eq!(str_equal(a, b), a == b, "{:?} equal to {:?}", a, b);
            assert_eq!(
                Value::str(a).partial_cmp(&Value::str(b)),
                a.partial_cmp(b),
                "{:?} against {:?}",
                a,
                b
            );
        }
    }
}

#[test]
fn decimal_notation_is_the_notation_of_integers() {
    for i in [0, 1, 9, 10, 11, 99, 100, 101, 12345, i32::MAX, -1, -9, -10, -100, i32::MIN] {
        assert_eq!(signed_decimal_string(i), i.to_string());
        assert_eq!(Value::integer(i).to_string(), i.to_string());
    }
    for n in [0u64, 5, 10, 19, 20, 1000, 999_999, u64::MAX] {
        assert_eq!(decimal_string(n), n.to_string());
    }
}
