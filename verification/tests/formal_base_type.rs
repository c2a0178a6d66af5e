use pgschemapc::card::Card;
use pgschemapc::formal_base_type::{combine_set_records, FormalBaseType};
use pgschemapc::key::Key;
use pgschemapc::label_set::LabelSet;
use pgschemapc::pgs_error::PgsError;
use pgschemapc::property_value_spec::{
    combine_semantics_sets, union_semantics_sets, PropertyValue, TypeSpec,
};
use pgschemapc::record::Record;
use pgschemapc::record_type::RecordType;
use pgschemapc::record_type_set::RecordTypeSet;
use pgschemapc::value::Value;
use pgschemapc::value_type::ValueType;

fn shape(key: &str) -> RecordType {
    RecordType::new().with_key_value(key, ValueType::string(Card::One))
}

fn base(label: &str, keys: Vec<&str>) -> FormalBaseType {
    let mut base = FormalBaseType::new().with_label(label);
    for key in keys {
        base.add_content(shape(key));
    }
    base
}

#[test]
fn the_unit_type_has_no_label_and_the_empty_alternative() {
    let unit = FormalBaseType::type_0();
    assert_eq!(unit.labels().len(), 0);
    assert_eq!(unit.content().len(), 1);
    assert_eq!(unit.content().get(0).len(), 0);
    assert!(!unit.is_open());
    assert_eq!(unit, FormalBaseType::new().with_record_type(RecordType::empty()));
    assert_ne!(unit, FormalBaseType::new());
}

#[test]
fn union_takes_labels_and_alternatives_as_they_are() {
    let a = base("A", vec!["x", "y"]);
    let b = base("B", vec!["y", "z"]);
    let u = a.union(&b);
    assert_eq!(u.labels().to_string(), "{A, B}");
    assert_eq!(
        u.content().to_string(),
        "[{x: String(1)} | {y: String(1)} | {z: String(1)}]"
    );
    assert_eq!(u, b.union(&a));
}

#[test]
fn combine_crosses_the_alternatives() {
    let a = base("A", vec!["x", "y"]);
    let b = base("B", vec!["y", "z"]);
    let c = a.combine(&b);
    assert_eq!(c.labels().to_string(), "{A, B}");
    assert_eq!(
        c.content().to_string(),
        "[{x: String(1), y: String(1)} | {x: String(1), z: String(1)} | {y: (String(1) \u{2229} String(1))} | {y: String(1), z: String(1)}]"
    );
    assert_eq!(combine_set_records(a.content(), b.content()), c.content().clone());
}

#[test]
fn combine_with_a_type_without_alternatives_has_no_alternatives() {
    let a = base("A", vec!["x"]);
    let nothing = FormalBaseType::new();
    assert_eq!(a.combine(&nothing).content().len(), 0);
    assert_eq!(a.combine(&FormalBaseType::type_0()), a);
}

#[test]
fn conjunction_distributes_over_disjunction() {
    let a = base("A", vec!["x", "y"]);
    let b = base("B", vec!["y", "z"]);
    let c = base("C", vec!["w", "x"]);
    let left = a.union(&b).combine(&c);
    let right = a.combine(&c).union(&b.combine(&c));
    assert_eq!(left, right);
    assert_eq!(left.content().len(), right.content().len());
    let labels = LabelSet::new().with_label("A").with_label("B").with_label("C");
    let record = Record::new()
        .with_key_value("z", Value::str("1"))
        .with_key_value("w", Value::str("2"));
    assert!(left.conforms(&labels, &record).is_right());
    assert!(right.conforms(&labels, &record).is_right());
    let other = Record::new()
        .with_key_value("z", Value::integer(1))
        .with_key_value("w", Value::str("2"));
    assert!(left.conforms(&labels, &other).is_left());
    assert!(right.conforms(&labels, &other).is_left());
    let extra = Record::new()
        .with_key_value("z", Value::str("1"))
        .with_key_value("w", Value::str("2"))
        .with_key_value("q", Value::str("3"));
    assert!(left.conforms(&labels, &extra).is_left());
    assert!(right.conforms(&labels, &extra).is_left());
    let open_left = a.union(&b).combine(&base("C", vec!["w", "x"]).with_open());
    let open_right = a.combine(&base("C", vec!["w", "x"]).with_open()).union(&b.combine(&base("C", vec!["w", "x"]).with_open()));
    assert_eq!(open_left, open_right);
    assert!(open_left.conforms(&labels, &extra).is_right());
    assert!(open_right.conforms(&labels, &extra).is_right());
}

#[test]
fn sets_of_alternatives_hold_each_alternative_once() {
    let mut set = RecordTypeSet::new();
    set.insert(shape("a"));
    set.insert(shape("b"));
    set.insert(shape("a"));
    assert_eq!(set.len(), 2);
    assert!(set.contains(&shape("b")));
    assert!(!set.contains(&shape("c")));
    let mut other = RecordTypeSet::new();
    other.insert(shape("b"));
    other.insert(shape("a"));
    assert!(set == other);
    assert!(other.within(&set));
    other.insert(shape("c"));
    assert!(set != other);
    assert!(set.within(&other));
    assert!(!other.within(&set));
    let merged = union_semantics_sets(set.clone(), other.clone());
    assert_eq!(merged.to_string(), "[{a: String(1)} | {b: String(1)} | {c: String(1)}]");
    let crossed = combine_semantics_sets(set.clone(), other);
    assert_eq!(crossed, set.cross(&merged));
    assert_eq!(crossed.len(), 5);
}

#[test]
fn shapes_compile_to_alternatives() {
    let name = || PropertyValue::property(Key::new("name"), TypeSpec::string(Card::One));
    let age = || PropertyValue::optional_property(Key::new("age"), TypeSpec::integer(Card::One));
    assert_eq!(name().semantics().to_string(), "[{name: String(1)}]");
    assert_eq!(age().semantics().to_string(), "[{age: Integer(1)} | {}]");
    assert_eq!(PropertyValue::Empty.semantics().to_string(), "[{}]");
    assert_eq!(
        PropertyValue::each_of(name(), age()).semantics().to_string(),
        "[{age: Integer(1), name: String(1)} | {name: String(1)}]"
    );
    assert_eq!(
        PropertyValue::each_of(name(), PropertyValue::Empty).semantics(),
        name().semantics()
    );
    assert_eq!(
        PropertyValue::each_of(PropertyValue::Empty, age()).semantics(),
        age().semantics()
    );
    assert_eq!(
        PropertyValue::one_of(name(), age()).semantics().to_string(),
        "[{name: String(1)} | {age: Integer(1)} | {}]"
    );
    assert_eq!(PropertyValue::one_of(name(), name()).semantics(), name().semantics());
}

#[test]
fn a_type_without_alternatives_accepts_nothing() {
    let nothing = FormalBaseType::new();
    let failures = nothing.conforms(&LabelSet::new(), &Record::new()).left().unwrap();
    assert_eq!(
        failures,
        vec![PgsError::RecordContentFails {
            record: "{}".to_string(),
            type_content: "[]".to_string(),
        }]
    );
    assert!(FormalBaseType::type_0().conforms(&LabelSet::new(), &Record::new()).is_right());
}

#[test]
fn builders_of_formal_base_types() {
    let labels = LabelSet::new().with_label("A");
    let mut content = RecordTypeSet::new();
    content.insert(shape("x"));
    let built = FormalBaseType::new().with_labels(labels).with_content(content);
    assert_eq!(built, base("A", vec!["x"]));
    let mut other = FormalBaseType::new();
    other.add_label("A".to_string());
    other.add_content(shape("x"));
    assert_eq!(built, other);
    assert_ne!(built, other.with_open());
}

#[test]
fn label_sets_are_sets() {
    let a = LabelSet::new().with_label("b").with_label("a").with_label("b");
    assert_eq!(a.len(), 2);
    assert_eq!(a.get(0), "a");
    assert_eq!(a.get(1), "b");
    assert!(a.contains("a"));
    assert!(!a.contains("c"));
    let b = LabelSet::new().with_label("a").with_label("b");
    assert!(a == b);
    let c = b.union(&LabelSet::new().with_label("c"));
    assert_eq!(c.to_string(), "{a, b, c}");
    assert!(a.within(&c));
    assert!(!c.within(&a));
    assert!(a != c);
    assert_eq!(LabelSet::new().to_string(), "{}");
}

#[test]
fn records_keep_keys_in_order_and_values_once() {
    let record = Record::new()
        .with_key_value("b", Value::integer(2))
        .with_key_value("a", Value::str("x"))
        .with_key_value("b", Value::integer(3))
        .with_key_value("b", Value::integer(2));
    assert_eq!(record.len(), 2);
    assert_eq!(record.key_at(0).str(), "a");
    assert_eq!(record.key_at(1).str(), "b");
    assert_eq!(record.values_at(1).len(), 2);
    assert_eq!(record.to_string(), "{a: [x], b: [2, 3]}");
    assert!(record.contains_key(&Key::new("a")));
    assert!(!record.contains_key(&Key::new("c")));
    let copy = record.clone();
    assert_eq!(copy.to_string(), record.to_string());
}
