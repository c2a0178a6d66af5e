//! The types of property values: a scalar kind with a cardinality, a
//! condition, and intersections and unions of these.

use crate::boolean_expr::{BooleanExpr, BooleanExprView};
use crate::card::Card;
use crate::evidence::Evidence;
use crate::semantics_error::{SemanticsError, SemanticsErrorView};
use crate::value::{Value, ValueView};
use crate::value_set::ValueSet;
use crate::verdict::{pass, passed, reports, views};
use either::Either;
use vstd::prelude::*;
use vstd::std_specs::cmp::PartialEqSpecImpl;
use vstd::string::*;

verus! {

/// The three kinds of scalar values.
#[derive(Debug, Clone, Copy, PartialEq, Eq, Hash, Structural)]
pub enum ScalarKind {
    String,
    Integer,
    Date,
}

impl ScalarKind {
    /// Whether `value` is of this kind.
    pub open spec fn covers(self, value: ValueView) -> bool {
        match self {
            ScalarKind::String => value is String,
            ScalarKind::Integer => value is Integer,
            ScalarKind::Date => value is Date,
        }
    }

    /// The name under which a failure reports the test for this kind.
    pub open spec fn predicate_name(self) -> Seq<char> {
        match self {
            ScalarKind::String => "is_string"@,
            ScalarKind::Integer => "is_integer"@,
            ScalarKind::Date => "is_date"@,
        }
    }

    /// Decides whether `value` is of this kind.
    pub fn matches(&self, value: &Value) -> (r: bool)
        ensures
            r == self.covers(value@),
    {
        match self {
            ScalarKind::String => value.is_string(),
            ScalarKind::Integer => value.is_integer(),
            ScalarKind::Date => value.is_date(),
        }
    }

    /// The name of the test for this kind.
    pub fn test_name(&self) -> (name: &'static str)
        ensures
            name@ == self.predicate_name(),
    {
        match self {
            ScalarKind::String => "is_string",
            ScalarKind::Integer => "is_integer",
            ScalarKind::Date => "is_date",
        }
    }
}

/// The type of the values of one property.
#[derive(Debug, Eq)]
pub enum ValueType {
    /// Texts, as many as the cardinality admits.
    StringType(Card),
    /// Integers, as many as the cardinality admits.
    IntegerType(Card),
    /// Dates, as many as the cardinality admits.
    DateType(Card),
    /// What belongs to both types.
    Intersection(Box<ValueType>, Box<ValueType>),
    /// What belongs to one of the two types.
    Union(Box<ValueType>, Box<ValueType>),
    /// Values that each meet the condition.
    Cond(BooleanExpr),
}

/// What a [`ValueType`] stands for.
pub ghost enum ValueTypeView {
    Scalar(ScalarKind, Card),
    Intersection(Box<ValueTypeView>, Box<ValueTypeView>),
    Union(Box<ValueTypeView>, Box<ValueTypeView>),
    Cond(BooleanExprView),
}

impl View for ValueType {
    type V = ValueTypeView;

    open spec fn view(&self) -> ValueTypeView
        decreases self,
    {
        match self {
            ValueType::StringType(card) => ValueTypeView::Scalar(ScalarKind::String, *card),
            ValueType::IntegerType(card) => ValueTypeView::Scalar(ScalarKind::Integer, *card),
            ValueType::DateType(card) => ValueTypeView::Scalar(ScalarKind::Date, *card),
            ValueType::Intersection(a, b) => ValueTypeView::Intersection(
                Box::new((**a).view()),
                Box::new((**b).view()),
            ),
            ValueType::Union(a, b) => ValueTypeView::Union(
                Box::new((**a).view()),
                Box::new((**b).view()),
            ),
            ValueType::Cond(expr) => ValueTypeView::Cond(expr@),
        }
    }
}

/// The first of `values`, from position `from` on, that is not of `kind`.
pub open spec fn first_of_other_kind(values: Seq<ValueView>, kind: ScalarKind, from: int) -> Option<
    ValueView,
>
    decreases values.len() - from,
{
    if from >= values.len() {
        None
    } else if !kind.covers(values[from]) {
        Some(values[from])
    } else {
        first_of_other_kind(values, kind, from + 1)
    }
}

/// The first of `values`, from position `from` on, that fails `expr`.
pub open spec fn first_failing(values: Seq<ValueView>, expr: BooleanExprView, from: int) -> Option<
    ValueView,
>
    decreases values.len() - from,
{
    if from >= values.len() {
        None
    } else if !expr.holds(values[from]) {
        Some(values[from])
    } else {
        first_failing(values, expr, from + 1)
    }
}

/// What a check of `values` against a scalar kind with a cardinality
/// reports: the count first, then the first value of another kind.
pub open spec fn scalar_failures(kind: ScalarKind, card: Card, values: Seq<ValueView>) -> Seq<
    SemanticsErrorView,
> {
    if !card.admits(values.len()) {
        seq![SemanticsErrorView::CardinalityMismatch { expected: card, count: values.len() }]
    } else {
        kind_failures(kind, kind.predicate_name(), values)
    }
}

/// What a check that every one of `values` is of `kind` reports, where the
/// test goes by the name `predicate_name`.
pub open spec fn kind_failures(
    kind: ScalarKind,
    predicate_name: Seq<char>,
    values: Seq<ValueView>,
) -> Seq<SemanticsErrorView> {
    match first_of_other_kind(values, kind, 0) {
        Some(value) => seq![SemanticsErrorView::PredicateFailed { predicate_name, value }],
        None => Seq::empty(),
    }
}

impl ValueTypeView {
    /// Whether the values of a property, taken together, belong to the type.
    pub open spec fn accepts(self, values: Seq<ValueView>) -> bool
        decreases self,
    {
        match self {
            ValueTypeView::Scalar(kind, card) => {
                &&& card.admits(values.len())
                &&& forall|i: int| 0 <= i < values.len() ==> kind.covers(#[trigger] values[i])
            },
            ValueTypeView::Intersection(a, b) => a.accepts(values) && b.accepts(values),
            ValueTypeView::Union(a, b) => a.accepts(values) || b.accepts(values),
            ValueTypeView::Cond(expr) => forall|i: int|
                0 <= i < values.len() ==> expr.holds(#[trigger] values[i]),
        }
    }

    /// What a check of `values` against the type reports; nothing where the
    /// type accepts them.
    ///
    /// The count comes before the kinds, and of several failures the first
    /// is reported. An intersection reports what its first failing side
    /// reports. A union fails only where both sides fail, and then reports
    /// what both report.
    pub open spec fn failures(self, values: Seq<ValueView>) -> Seq<SemanticsErrorView>
        decreases self,
    {
        match self {
            ValueTypeView::Scalar(kind, card) => scalar_failures(kind, card, values),
            ValueTypeView::Intersection(a, b) => {
                if a.failures(values).len() > 0 {
                    a.failures(values)
                } else {
                    b.failures(values)
                }
            },
            ValueTypeView::Union(a, b) => {
                if a.failures(values).len() == 0 || b.failures(values).len() == 0 {
                    Seq::empty()
                } else {
                    a.failures(values) + b.failures(values)
                }
            },
            ValueTypeView::Cond(expr) => match first_failing(values, expr, 0) {
                Some(value) => seq![
                    SemanticsErrorView::PredicateFailed { predicate_name: expr.render(), value },
                ],
                None => Seq::empty(),
            },
        }
    }

    /// The type as it is printed.
    pub open spec fn render(self) -> Seq<char>
        decreases self,
    {
        match self {
            ValueTypeView::Scalar(ScalarKind::String, card) => "String("@ + card.render() + ")"@,
            ValueTypeView::Scalar(ScalarKind::Integer, card) => "Integer("@ + card.render() + ")"@,
            ValueTypeView::Scalar(ScalarKind::Date, card) => "Date("@ + card.render() + ")"@,
            ValueTypeView::Intersection(a, b) => "("@ + a.render() + " \u{2229} "@ + b.render()
                + ")"@,
            ValueTypeView::Union(a, b) => "("@ + a.render() + " \u{222a} "@ + b.render() + ")"@,
            ValueTypeView::Cond(expr) => "Condition("@ + expr.render() + ")"@,
        }
    }
}

pub proof fn lemma_first_of_other_kind(values: Seq<ValueView>, kind: ScalarKind, from: int)
    requires
        0 <= from,
    ensures
        first_of_other_kind(values, kind, from) is None <==> forall|i: int|
            from <= i < values.len() ==> kind.covers(#[trigger] values[i]),
    decreases values.len() - from,
{
    if from < values.len() {
        lemma_first_of_other_kind(values, kind, from + 1);
    }
}

pub proof fn lemma_first_failing(values: Seq<ValueView>, expr: BooleanExprView, from: int)
    requires
        0 <= from,
    ensures
        first_failing(values, expr, from) is None <==> forall|i: int|
            from <= i < values.len() ==> expr.holds(#[trigger] values[i]),
    decreases values.len() - from,
{
    if from < values.len() {
        lemma_first_failing(values, expr, from + 1);
    }
}

/// A type accepts exactly the values of which its check reports nothing.
pub proof fn lemma_accepts_iff_no_failures(value_type: ValueTypeView, values: Seq<ValueView>)
    ensures
        value_type.accepts(values) <==> value_type.failures(values).len() == 0,
    decreases value_type,
{
    match value_type {
        ValueTypeView::Scalar(kind, card) => {
            lemma_first_of_other_kind(values, kind, 0);
        },
        ValueTypeView::Intersection(a, b) => {
            lemma_accepts_iff_no_failures(*a, values);
            lemma_accepts_iff_no_failures(*b, values);
        },
        ValueTypeView::Union(a, b) => {
            lemma_accepts_iff_no_failures(*a, values);
            lemma_accepts_iff_no_failures(*b, values);
        },
        ValueTypeView::Cond(expr) => {
            lemma_first_failing(values, expr, 0);
        },
    }
}

/// Checks that every one of `values` is of `kind`, and reports the first
/// that is not under `predicate_name`.
pub fn check_all(values: &ValueSet, kind: ScalarKind, predicate_name: &str) -> (verdict: Either<
    Vec<SemanticsError>,
    Vec<Evidence>,
>)
    ensures
        reports(verdict, kind_failures(kind, predicate_name@, values@)),
{
    let mut i: usize = 0;
    while i < values.len()
        invariant
            i <= values@.len(),
            first_of_other_kind(values@, kind, 0) == first_of_other_kind(values@, kind, i as int),
        decreases values@.len() - i,
    {
        let value = values.get(i);
        if !kind.matches(value) {
            let failure = SemanticsError::PredicateFailed {
                predicate_name: String::from_str(predicate_name),
                value: value.clone(),
            };
            let failures = vec![failure];
            assert(views(failures@) =~= kind_failures(kind, predicate_name@, values@));
            return Either::Left(failures);
        }
        i += 1;
    }
    pass()
}

fn check_cardinality(card: &Card, values: &ValueSet) -> (failures: Option<Vec<SemanticsError>>)
    ensures
        card.admits(values@.len()) <==> failures is None,
        failures is Some ==> views(failures->Some_0@) == seq![
            SemanticsErrorView::CardinalityMismatch { expected: *card, count: values@.len() },
        ],
{
    if card.contains(values.len()) {
        None
    } else {
        let failures = vec![
            SemanticsError::CardinalityMismatch { expected: *card, count: values.len() },
        ];
        assert(views(failures@) =~= seq![
            SemanticsErrorView::CardinalityMismatch { expected: *card, count: values@.len() },
        ]);
        Some(failures)
    }
}

fn check_scalar(kind: ScalarKind, card: &Card, values: &ValueSet) -> (verdict: Either<
    Vec<SemanticsError>,
    Vec<Evidence>,
>)
    ensures
        reports(verdict, scalar_failures(kind, *card, values@)),
{
    match check_cardinality(card, values) {
        Some(failures) => Either::Left(failures),
        None => check_all(values, kind, kind.test_name()),
    }
}

fn check_condition(expr: &BooleanExpr, values: &ValueSet) -> (verdict: Either<
    Vec<SemanticsError>,
    Vec<Evidence>,
>)
    ensures
        reports(verdict, ValueTypeView::Cond(expr@).failures(values@)),
{
    let mut i: usize = 0;
    while i < values.len()
        invariant
            i <= values@.len(),
            first_failing(values@, expr@, 0) == first_failing(values@, expr@, i as int),
        decreases values@.len() - i,
    {
        let value = values.get(i);
        if !expr.check(value) {
            let failure = SemanticsError::PredicateFailed {
                predicate_name: expr.to_string(),
                value: value.clone(),
            };
            let failures = vec![failure];
            assert(views(failures@) =~= ValueTypeView::Cond(expr@).failures(values@));
            return Either::Left(failures);
        }
        i += 1;
    }
    pass()
}

impl ValueType {
    /// Integers, as many as `card` admits.
    pub fn integer(card: Card) -> (r: ValueType)
        ensures
            r@ == ValueTypeView::Scalar(ScalarKind::Integer, card),
    {
        ValueType::IntegerType(card)
    }

    /// Texts, as many as `card` admits.
    pub fn string(card: Card) -> (r: ValueType)
        ensures
            r@ == ValueTypeView::Scalar(ScalarKind::String, card),
    {
        ValueType::StringType(card)
    }

    /// Dates, as many as `card` admits.
    pub fn date(card: Card) -> (r: ValueType)
        ensures
            r@ == ValueTypeView::Scalar(ScalarKind::Date, card),
    {
        ValueType::DateType(card)
    }

    /// What belongs to both `a` and `b`.
    pub fn intersection(a: ValueType, b: ValueType) -> (r: ValueType)
        ensures
            r@ == ValueTypeView::Intersection(Box::new(a@), Box::new(b@)),
    {
        ValueType::Intersection(Box::new(a), Box::new(b))
    }

    /// What belongs to `a` or to `b`.
    pub fn union(a: ValueType, b: ValueType) -> (r: ValueType)
        ensures
            r@ == ValueTypeView::Union(Box::new(a@), Box::new(b@)),
    {
        ValueType::Union(Box::new(a), Box::new(b))
    }

    /// Values that each meet `expr`.
    pub fn cond(expr: BooleanExpr) -> (r: ValueType)
        ensures
            r@ == ValueTypeView::Cond(expr@),
    {
        ValueType::Cond(expr)
    }

    /// Checks the values of a property against the type.
    ///
    /// The verdict is a pass exactly where the type accepts the values, and
    /// else lists the failures that [`ValueTypeView::failures`] names.
    pub fn conforms(&self, values: &ValueSet) -> (verdict: Either<
        Vec<SemanticsError>,
        Vec<Evidence>,
    >)
        ensures
            reports(verdict, self@.failures(values@)),
            passed(verdict) <==> self@.accepts(values@),
            verdict is Left <==> !self@.accepts(values@),
        decreases self,
    {
        proof {
            lemma_accepts_iff_no_failures(self@, values@);
        }
        match self {
            ValueType::StringType(card) => check_scalar(ScalarKind::String, card, values),
            ValueType::IntegerType(card) => check_scalar(ScalarKind::Integer, card, values),
            ValueType::DateType(card) => check_scalar(ScalarKind::Date, card, values),
            ValueType::Intersection(a, b) => {
                let first = a.conforms(values);
                if first.is_left() {
                    first
                } else {
                    b.conforms(values)
                }
            },
            ValueType::Union(a, b) => {
                match a.conforms(values) {
                    Either::Right(evidence) => Either::Right(evidence),
                    Either::Left(mut failures) => match b.conforms(values) {
                        Either::Right(evidence) => Either::Right(evidence),
                        Either::Left(mut more) => {
                            let ghost left = failures@;
                            let ghost right = more@;
                            failures.append(&mut more);
                            assert(views(failures@) =~= views(left) + views(right));
                            Either::Left(failures)
                        },
                    },
                }
            },
            ValueType::Cond(expr) => check_condition(expr, values),
        }
    }

    /// Writes the type out.
    pub fn to_string(&self) -> (s: String)
        ensures
            s@ == self@.render(),
        decreases self,
    {
        match self {
            ValueType::StringType(card) => {
                let mut s = String::from_str("String(");
                s.append(card.to_string().as_str());
                s.append(")");
                s
            },
            ValueType::IntegerType(card) => {
                let mut s = String::from_str("Integer(");
                s.append(card.to_string().as_str());
                s.append(")");
                s
            },
            ValueType::DateType(card) => {
                let mut s = String::from_str("Date(");
                s.append(card.to_string().as_str());
                s.append(")");
                s
            },
            ValueType::Intersection(a, b) => {
                let mut s = String::from_str("(");
                s.append(a.to_string().as_str());
                s.append(" \u{2229} ");
                s.append(b.to_string().as_str());
                s.append(")");
                s
            },
            ValueType::Union(a, b) => {
                let mut s = String::from_str("(");
                s.append(a.to_string().as_str());
                s.append(" \u{222a} ");
                s.append(b.to_string().as_str());
                s.append(")");
                s
            },
            ValueType::Cond(expr) => {
                let mut s = String::from_str("Condition(");
                s.append(expr.to_string().as_str());
                s.append(")");
                s
            },
        }
    }

    /// Decides whether two types are the same.
    pub fn same(&self, other: &ValueType) -> (r: bool)
        ensures
            r == (self@ == other@),
        decreases self,
    {
        match (self, other) {
            (ValueType::StringType(c), ValueType::StringType(d)) => *c == *d,
            (ValueType::IntegerType(c), ValueType::IntegerType(d)) => *c == *d,
            (ValueType::DateType(c), ValueType::DateType(d)) => *c == *d,
            (ValueType::Intersection(a, b), ValueType::Intersection(c, d)) => a.same(c) && b.same(
                d,
            ),
            (ValueType::Union(a, b), ValueType::Union(c, d)) => a.same(c) && b.same(d),
            (ValueType::Cond(e), ValueType::Cond(f)) => e.same(f),
            _ => false,
        }
    }
}

impl Clone for ValueType {
    fn clone(&self) -> (r: ValueType)
        ensures
            r@ == self@,
        decreases self,
    {
        match self {
            ValueType::StringType(card) => ValueType::StringType(*card),
            ValueType::IntegerType(card) => ValueType::IntegerType(*card),
            ValueType::DateType(card) => ValueType::DateType(*card),
            ValueType::Intersection(a, b) => ValueType::Intersection(
                Box::new((**a).clone()),
                Box::new((**b).clone()),
            ),
            ValueType::Union(a, b) => ValueType::Union(
                Box::new((**a).clone()),
                Box::new((**b).clone()),
            ),
            ValueType::Cond(expr) => ValueType::Cond(expr.clone()),
        }
    }
}

impl PartialEq for ValueType {
    fn eq(&self, other: &ValueType) -> (r: bool) {
        self.same(other)
    }
}

impl PartialEqSpecImpl for ValueType {
    open spec fn obeys_eq_spec() -> bool {
        true
    }

    open spec fn eq_spec(&self, other: &ValueType) -> bool {
        self@ == other@
    }
}

} // verus!
