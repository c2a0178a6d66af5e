//! Property shapes: which properties a record has to hold, given as a tree
//! of required and optional properties joined by "each of" and "one of".

use crate::boolean_expr::BooleanExpr;
use crate::card::Card;
use crate::distinct::{lemma_merged_one, merged};
use crate::formal_base_type::{FormalBaseType, FormalBaseTypeView};
use crate::key::Key;
use crate::record_type::{RecordType, RecordTypeView};
use crate::record_type_set::{
    alternatives_wf, crossed, lemma_crossed, lemma_merged_wf, RecordTypeSet,
};
use crate::semantics_error::SemanticsError;
use crate::value_type::{ScalarKind, ValueType, ValueTypeView};
use vstd::prelude::*;
use vstd::string::*;

verus! {

/// The type of a property as a schema writes it.
#[derive(Debug)]
pub enum Type {
    /// Both types at once.
    Conjunction(Box<Type>, Box<Type>),
    /// One type or the other.
    Disjunction(Box<Type>, Box<Type>),
    /// A value type as it is.
    Type(ValueType),
    /// A value type narrowed by a condition.
    Cond(ValueType, BooleanExpr),
}

impl View for Type {
    type V = ValueTypeView;

    /// The value type that the written type stands for: a conjunction is an
    /// intersection, a disjunction a union, and a condition is intersected
    /// with the type that it narrows.
    open spec fn view(&self) -> ValueTypeView
        decreases self,
    {
        match self {
            Type::Type(value_type) => value_type@,
            Type::Conjunction(a, b) => ValueTypeView::Intersection(
                Box::new((**a).view()),
                Box::new((**b).view()),
            ),
            Type::Disjunction(a, b) => ValueTypeView::Union(
                Box::new((**a).view()),
                Box::new((**b).view()),
            ),
            Type::Cond(value_type, cond) => ValueTypeView::Intersection(
                Box::new(value_type@),
                Box::new(ValueTypeView::Cond(cond@)),
            ),
        }
    }
}

impl Type {
    /// The value type that the written type stands for.
    pub fn to_value_type(&self) -> (value_type: ValueType)
        ensures
            value_type@ == self@,
        decreases self,
    {
        match self {
            Type::Type(value_type) => value_type.clone(),
            Type::Conjunction(a, b) => {
                let avt: ValueType = a.to_value_type();
                let bvt: ValueType = b.to_value_type();
                ValueType::intersection(avt, bvt)
            },
            Type::Disjunction(a, b) => ValueType::union(a.to_value_type(), b.to_value_type()),
            Type::Cond(value_type, cond) => {
                let vt_cond = ValueType::cond(cond.clone());
                ValueType::intersection(value_type.clone(), vt_cond)
            },
        }
    }
}

impl Clone for Type {
    fn clone(&self) -> (r: Type)
        ensures
            r@ == self@,
        decreases self,
    {
        match self {
            Type::Type(value_type) => Type::Type(value_type.clone()),
            Type::Conjunction(a, b) => Type::Conjunction(
                Box::new((**a).clone()),
                Box::new((**b).clone()),
            ),
            Type::Disjunction(a, b) => Type::Disjunction(
                Box::new((**a).clone()),
                Box::new((**b).clone()),
            ),
            Type::Cond(value_type, cond) => Type::Cond(value_type.clone(), cond.clone()),
        }
    }
}

/// The declared type of a property.
#[derive(Debug)]
pub struct TypeSpec {
    type_def: Type,
}

impl View for TypeSpec {
    type V = ValueTypeView;

    closed spec fn view(&self) -> ValueTypeView {
        self.type_def@
    }
}

impl TypeSpec {
    /// Texts, as many as `card` admits.
    pub fn string(card: Card) -> (spec: TypeSpec)
        ensures
            spec@ == ValueTypeView::Scalar(ScalarKind::String, card),
    {
        TypeSpec { type_def: Type::Type(ValueType::string(card)) }
    }

    /// Integers, as many as `card` admits.
    pub fn integer(card: Card) -> (spec: TypeSpec)
        ensures
            spec@ == ValueTypeView::Scalar(ScalarKind::Integer, card),
    {
        TypeSpec { type_def: Type::Type(ValueType::integer(card)) }
    }

    /// Dates, as many as `card` admits.
    pub fn date(card: Card) -> (spec: TypeSpec)
        ensures
            spec@ == ValueTypeView::Scalar(ScalarKind::Date, card),
    {
        TypeSpec { type_def: Type::Type(ValueType::date(card)) }
    }

    /// The value type that the declaration stands for.
    pub fn to_value_type(&self) -> (value_type: ValueType)
        ensures
            value_type@ == self@,
    {
        self.type_def.to_value_type()
    }
}

impl Clone for TypeSpec {
    fn clone(&self) -> (r: TypeSpec)
        ensures
            r@ == self@,
    {
        TypeSpec { type_def: self.type_def.clone() }
    }
}

/// A property shape.
#[derive(Debug)]
pub enum PropertyValue {
    /// Both shapes at once.
    EachOf(Box<PropertyValue>, Box<PropertyValue>),
    /// One shape or the other.
    OneOf(Box<PropertyValue>, Box<PropertyValue>),
    /// A property that the record has to hold.
    Property(Key, TypeSpec),
    /// A property that the record may hold.
    OptionalProperty(Key, TypeSpec),
    /// No demand at all.
    Empty,
}

/// What a [`PropertyValue`] stands for.
pub ghost enum PropertyValueView {
    EachOf(Box<PropertyValueView>, Box<PropertyValueView>),
    OneOf(Box<PropertyValueView>, Box<PropertyValueView>),
    Property(Seq<char>, ValueTypeView),
    OptionalProperty(Seq<char>, ValueTypeView),
    Empty,
}

impl View for PropertyValue {
    type V = PropertyValueView;

    open spec fn view(&self) -> PropertyValueView
        decreases self,
    {
        match self {
            PropertyValue::EachOf(a, b) => PropertyValueView::EachOf(
                Box::new((**a).view()),
                Box::new((**b).view()),
            ),
            PropertyValue::OneOf(a, b) => PropertyValueView::OneOf(
                Box::new((**a).view()),
                Box::new((**b).view()),
            ),
            PropertyValue::Property(key, spec) => PropertyValueView::Property(key@, spec@),
            PropertyValue::OptionalProperty(key, spec) => PropertyValueView::OptionalProperty(
                key@,
                spec@,
            ),
            PropertyValue::Empty => PropertyValueView::Empty,
        }
    }
}

/// The record type that declares `value_type` for `key` and nothing else.
pub open spec fn single(key: Seq<char>, value_type: ValueTypeView) -> RecordTypeView {
    seq![(key, value_type)]
}

impl PropertyValueView {
    /// The alternative record types that the shape compiles to.
    ///
    /// A required property is one alternative. An optional property is two:
    /// the property, and the record type that declares nothing. "Each of"
    /// is the cross product of the two sides, "one of" is the alternatives
    /// of both sides as they are. The empty shape is the one alternative
    /// that declares nothing, the unit of "each of".
    pub open spec fn alternatives(self) -> Seq<RecordTypeView>
        decreases self,
    {
        match self {
            PropertyValueView::EachOf(a, b) => crossed(a.alternatives(), b.alternatives()),
            PropertyValueView::OneOf(a, b) => merged(a.alternatives(), b.alternatives()),
            PropertyValueView::Property(key, value_type) => seq![single(key, value_type)],
            PropertyValueView::OptionalProperty(key, value_type) => seq![
                single(key, value_type),
                RecordTypeView::empty(),
            ],
            PropertyValueView::Empty => seq![RecordTypeView::empty()],
        }
    }
}

impl PropertyValueView {
    /// The shape as it is printed.
    pub open spec fn render(self) -> Seq<char>
        decreases self,
    {
        match self {
            PropertyValueView::EachOf(a, b) => "("@ + a.render() + ", "@ + b.render() + ")"@,
            PropertyValueView::OneOf(a, b) => "("@ + a.render() + " | "@ + b.render() + ")"@,
            PropertyValueView::Property(key, value_type) => key + ": "@ + value_type.render(),
            PropertyValueView::OptionalProperty(key, value_type) => "OPTIONAL "@ + key + ": "@
                + value_type.render(),
            PropertyValueView::Empty => Seq::empty(),
        }
    }
}

/// The alternatives of a shape are a set of alternatives in order.
pub proof fn lemma_alternatives_wf(shape: PropertyValueView)
    ensures
        alternatives_wf(shape.alternatives()),
    decreases shape,
{
    match shape {
        PropertyValueView::EachOf(a, b) => {
            lemma_alternatives_wf(*a);
            lemma_alternatives_wf(*b);
            lemma_crossed(a.alternatives(), b.alternatives());
        },
        PropertyValueView::OneOf(a, b) => {
            lemma_alternatives_wf(*a);
            lemma_alternatives_wf(*b);
            lemma_merged_wf(a.alternatives(), b.alternatives());
        },
        PropertyValueView::Property(key, value_type) => {},
        PropertyValueView::OptionalProperty(key, value_type) => {
            assert(single(key, value_type).len() != RecordTypeView::empty().len());
        },
        PropertyValueView::Empty => {},
    }
}

/// The cross product of two sets of alternatives: "each of".
pub fn combine_semantics_sets(left: RecordTypeSet, right: RecordTypeSet) -> (combined: RecordTypeSet)
    requires
        left.wf(),
        right.wf(),
    ensures
        combined.wf(),
        combined@ == crossed(left@, right@),
{
    left.cross(&right)
}

/// The alternatives of both sets as they are: "one of".
pub fn union_semantics_sets(left: RecordTypeSet, right: RecordTypeSet) -> (combined: RecordTypeSet)
    requires
        left.wf(),
        right.wf(),
    ensures
        combined.wf(),
        combined@ == merged(left@, right@),
{
    let mut combined = left;
    combined.extend(&right);
    combined
}

fn single_record_type(key: &Key, spec: &TypeSpec) -> (record_type: RecordType)
    ensures
        record_type.wf(),
        record_type@ == single(key@, spec@),
{
    let record_type = RecordType::new().with_key_value(key.str(), spec.to_value_type());
    assert(record_type@ =~= single(key@, spec@));
    record_type
}

impl PropertyValue {
    /// A required property.
    pub fn property(key: Key, type_spec: TypeSpec) -> (shape: PropertyValue)
        ensures
            shape@ == PropertyValueView::Property(key@, type_spec@),
    {
        PropertyValue::Property(key, type_spec)
    }

    /// A property that may be absent.
    pub fn optional_property(key: Key, type_spec: TypeSpec) -> (shape: PropertyValue)
        ensures
            shape@ == PropertyValueView::OptionalProperty(key@, type_spec@),
    {
        PropertyValue::OptionalProperty(key, type_spec)
    }

    /// Both shapes at once.
    pub fn each_of(left: PropertyValue, right: PropertyValue) -> (shape: PropertyValue)
        ensures
            shape@ == PropertyValueView::EachOf(Box::new(left@), Box::new(right@)),
    {
        PropertyValue::EachOf(Box::new(left), Box::new(right))
    }

    /// One shape or the other.
    pub fn one_of(left: PropertyValue, right: PropertyValue) -> (shape: PropertyValue)
        ensures
            shape@ == PropertyValueView::OneOf(Box::new(left@), Box::new(right@)),
    {
        PropertyValue::OneOf(Box::new(left), Box::new(right))
    }

    /// Writes the shape out.
    pub fn to_string(&self) -> (s: String)
        ensures
            s@ == self@.render(),
        decreases self,
    {
        match self {
            PropertyValue::EachOf(a, b) => {
                let mut s = String::from_str("(");
                s.append(a.to_string().as_str());
                s.append(", ");
                s.append(b.to_string().as_str());
                s.append(")");
                s
            },
            PropertyValue::OneOf(a, b) => {
                let mut s = String::from_str("(");
                s.append(a.to_string().as_str());
                s.append(" | ");
                s.append(b.to_string().as_str());
                s.append(")");
                s
            },
            PropertyValue::Property(key, spec) => {
                let mut s = key.to_string();
                s.append(": ");
                s.append(spec.to_value_type().to_string().as_str());
                s
            },
            PropertyValue::OptionalProperty(key, spec) => {
                let mut s = String::from_str("OPTIONAL ");
                s.append(key.str());
                s.append(": ");
                s.append(spec.to_value_type().to_string().as_str());
                s
            },
            PropertyValue::Empty => String::new(),
        }
    }

    /// Compiles the shape to its alternative record types.
    pub fn semantics(&self) -> (alternatives: RecordTypeSet)
        ensures
            alternatives.wf(),
            alternatives@ == self@.alternatives(),
        decreases self,
    {
        proof {
            lemma_alternatives_wf(self@);
        }
        match self {
            PropertyValue::EachOf(left, right) => {
                let left_semantics = left.semantics();
                let right_semantics = right.semantics();
                combine_semantics_sets(left_semantics, right_semantics)
            },
            PropertyValue::OneOf(left, right) => {
                let left_semantics = left.semantics();
                let right_semantics = right.semantics();
                union_semantics_sets(left_semantics, right_semantics)
            },
            PropertyValue::Property(p, type_spec) => {
                let mut alternatives = RecordTypeSet::new();
                alternatives.insert(single_record_type(p, type_spec));
                proof {
                    lemma_merged_one(Seq::<RecordTypeView>::empty(), single(p@, type_spec@));
                    assert(alternatives@ =~= self@.alternatives());
                }
                alternatives
            },
            PropertyValue::OptionalProperty(p, type_spec) => {
                let mut alternatives = RecordTypeSet::new();
                alternatives.insert(single_record_type(p, type_spec));
                let ghost first = alternatives@;
                alternatives.insert(RecordType::empty());
                proof {
                    lemma_merged_one(Seq::<RecordTypeView>::empty(), single(p@, type_spec@));
                    lemma_merged_one(first, RecordTypeView::empty());
                    assert(first =~= seq![single(p@, type_spec@)]);
                    assert(first[0].len() == 1);
                    assert(!first.contains(RecordTypeView::empty()));
                    assert(alternatives@ =~= self@.alternatives());
                }
                alternatives
            },
            PropertyValue::Empty => {
                let mut alternatives = RecordTypeSet::new();
                alternatives.insert(RecordType::empty());
                proof {
                    lemma_merged_one(Seq::<RecordTypeView>::empty(), RecordTypeView::empty());
                    assert(alternatives@ =~= self@.alternatives());
                }
                alternatives
            },
        }
    }
}

impl Clone for PropertyValue {
    fn clone(&self) -> (r: PropertyValue)
        ensures
            r@ == self@,
        decreases self,
    {
        match self {
            PropertyValue::EachOf(a, b) => PropertyValue::EachOf(
                Box::new((**a).clone()),
                Box::new((**b).clone()),
            ),
            PropertyValue::OneOf(a, b) => PropertyValue::OneOf(
                Box::new((**a).clone()),
                Box::new((**b).clone()),
            ),
            PropertyValue::Property(key, spec) => PropertyValue::Property(
                key.clone(),
                spec.clone(),
            ),
            PropertyValue::OptionalProperty(key, spec) => PropertyValue::OptionalProperty(
                key.clone(),
                spec.clone(),
            ),
            PropertyValue::Empty => PropertyValue::Empty,
        }
    }
}

/// A property shape, closed or open to further properties.
#[derive(Debug)]
pub enum PropertyValueSpec {
    /// The record holds no key beyond those of the shape.
    Closed(PropertyValue),
    /// The record may hold further keys.
    Open(PropertyValue),
}

/// What a [`PropertyValueSpec`] stands for.
pub ghost enum PropertyValueSpecView {
    Closed(PropertyValueView),
    Open(PropertyValueView),
}

impl View for PropertyValueSpec {
    type V = PropertyValueSpecView;

    open spec fn view(&self) -> PropertyValueSpecView {
        match self {
            PropertyValueSpec::Closed(shape) => PropertyValueSpecView::Closed(shape@),
            PropertyValueSpec::Open(shape) => PropertyValueSpecView::Open(shape@),
        }
    }
}

impl PropertyValueSpecView {
    /// The shape as it is printed: in braces, with the word OPEN at the end
    /// where it is open.
    pub open spec fn render(self) -> Seq<char> {
        match self {
            PropertyValueSpecView::Closed(shape) => "{"@ + shape.render() + "}"@,
            PropertyValueSpecView::Open(shape) => "{"@ + shape.render() + ", OPEN}"@,
        }
    }

    /// The type that the shape compiles to: no labels, the alternatives of
    /// the shape, checked openly where the shape is open.
    pub open spec fn meaning(self) -> FormalBaseTypeView {
        match self {
            PropertyValueSpecView::Closed(shape) => FormalBaseTypeView {
                labels: Set::empty(),
                content: shape.alternatives(),
                open: false,
            },
            PropertyValueSpecView::Open(shape) => FormalBaseTypeView {
                labels: Set::empty(),
                content: shape.alternatives(),
                open: true,
            },
        }
    }
}

impl PropertyValueSpec {
    /// The shape, open to further properties.
    pub fn open(property_value: PropertyValue) -> (spec: PropertyValueSpec)
        ensures
            spec@ == PropertyValueSpecView::Open(property_value@),
    {
        PropertyValueSpec::Open(property_value)
    }

    /// The shape, closed to further properties.
    pub fn closed(property_value: PropertyValue) -> (spec: PropertyValueSpec)
        ensures
            spec@ == PropertyValueSpecView::Closed(property_value@),
    {
        PropertyValueSpec::Closed(property_value)
    }

    /// Writes the shape out.
    pub fn to_string(&self) -> (s: String)
        ensures
            s@ == self@.render(),
    {
        match self {
            PropertyValueSpec::Closed(shape) => {
                let mut s = String::from_str("{");
                s.append(shape.to_string().as_str());
                s.append("}");
                s
            },
            PropertyValueSpec::Open(shape) => {
                let mut s = String::from_str("{");
                s.append(shape.to_string().as_str());
                s.append(", OPEN}");
                s
            },
        }
    }

    /// Compiles the shape to a type. This never fails.
    pub fn semantics(&self) -> (compiled: Result<FormalBaseType, SemanticsError>)
        ensures
            compiled is Ok,
            compiled->Ok_0.wf(),
            compiled->Ok_0@ == self@.meaning(),
    {
        match self {
            PropertyValueSpec::Closed(pv) => {
                Ok(FormalBaseType::new().with_content(pv.semantics()))
            },
            PropertyValueSpec::Open(pv) => {
                Ok(FormalBaseType::new().with_content(pv.semantics()).with_open())
            },
        }
    }
}

impl Clone for PropertyValueSpec {
    fn clone(&self) -> (r: PropertyValueSpec)
        ensures
            r@ == self@,
    {
        match self {
            PropertyValueSpec::Closed(shape) => PropertyValueSpec::Closed(shape.clone()),
            PropertyValueSpec::Open(shape) => PropertyValueSpec::Open(shape.clone()),
        }
    }
}

} // verus!
