//! Conditions on a single value.

use crate::text::{precedes, signed_decimal, signed_decimal_string, str_precedes};
use crate::value::{Value, ValueView};
use vstd::prelude::*;
use vstd::std_specs::cmp::PartialEqSpecImpl;
use vstd::string::*;

verus! {

/// A condition that a value meets or fails.
#[derive(Debug, Eq)]
pub enum BooleanExpr {
    /// Both conditions hold.
    And(Box<BooleanExpr>, Box<BooleanExpr>),
    /// One of the two conditions holds.
    Or(Box<BooleanExpr>, Box<BooleanExpr>),
    /// The condition fails.
    Not(Box<BooleanExpr>),
    /// The value is this text.
    Equals(String),
    /// The value is an integer whose decimal notation comes after this text
    /// in dictionary order.
    GreaterThan(String),
}

/// What a [`BooleanExpr`] stands for.
pub ghost enum BooleanExprView {
    And(Box<BooleanExprView>, Box<BooleanExprView>),
    Or(Box<BooleanExprView>, Box<BooleanExprView>),
    Not(Box<BooleanExprView>),
    Equals(Seq<char>),
    GreaterThan(Seq<char>),
}

impl View for BooleanExpr {
    type V = BooleanExprView;

    open spec fn view(&self) -> BooleanExprView
        decreases self,
    {
        match self {
            BooleanExpr::And(a, b) => BooleanExprView::And(
                Box::new((**a).view()),
                Box::new((**b).view()),
            ),
            BooleanExpr::Or(a, b) => BooleanExprView::Or(
                Box::new((**a).view()),
                Box::new((**b).view()),
            ),
            BooleanExpr::Not(a) => BooleanExprView::Not(Box::new((**a).view())),
            BooleanExpr::Equals(s) => BooleanExprView::Equals(s@),
            BooleanExpr::GreaterThan(s) => BooleanExprView::GreaterThan(s@),
        }
    }
}

impl BooleanExprView {
    /// Whether `value` meets the condition.
    ///
    /// `Equals` is met by a text value only, and only by the very same text.
    /// `GreaterThan` is met by an integer only, and compares the integer's
    /// decimal notation with the bound as text, in dictionary order: the
    /// integer 10 is not greater than "9", since "10" comes before "9".
    pub open spec fn holds(self, value: ValueView) -> bool
        decreases self,
    {
        match self {
            BooleanExprView::And(a, b) => a.holds(value) && b.holds(value),
            BooleanExprView::Or(a, b) => a.holds(value) || b.holds(value),
            BooleanExprView::Not(a) => !a.holds(value),
            BooleanExprView::Equals(text) => value == ValueView::String(text),
            BooleanExprView::GreaterThan(bound) => match value {
                ValueView::Integer(i) => precedes(bound, signed_decimal(i)),
                _ => false,
            },
        }
    }

    /// The condition as it is printed.
    pub open spec fn render(self) -> Seq<char>
        decreases self,
    {
        match self {
            BooleanExprView::And(a, b) => "("@ + a.render() + " AND "@ + b.render() + ")"@,
            BooleanExprView::Or(a, b) => "("@ + a.render() + " OR "@ + b.render() + ")"@,
            BooleanExprView::Not(a) => "NOT ("@ + a.render() + ")"@,
            BooleanExprView::Equals(text) => "(== "@ + text + ")"@,
            BooleanExprView::GreaterThan(bound) => "(> "@ + bound + ")"@,
        }
    }
}

impl BooleanExpr {
    /// Decides whether `value` meets the condition.
    pub fn check(&self, value: &Value) -> (r: bool)
        ensures
            r == self@.holds(value@),
        decreases self,
    {
        match self {
            BooleanExpr::And(a, b) => a.check(value) && b.check(value),
            BooleanExpr::Or(a, b) => a.check(value) || b.check(value),
            BooleanExpr::Not(a) => !a.check(value),
            BooleanExpr::Equals(text) => match value {
                Value::String(s) => *s == *text,
                _ => false,
            },
            BooleanExpr::GreaterThan(bound) => match value {
                Value::Integer(i) => {
                    let written = signed_decimal_string(*i);
                    str_precedes(bound.as_str(), written.as_str())
                },
                _ => false,
            },
        }
    }

    /// Writes the condition out.
    pub fn to_string(&self) -> (s: String)
        ensures
            s@ == self@.render(),
        decreases self,
    {
        match self {
            BooleanExpr::And(a, b) => {
                let mut s = String::from_str("(");
                s.append(a.to_string().as_str());
                s.append(" AND ");
                s.append(b.to_string().as_str());
                s.append(")");
                s
            },
            BooleanExpr::Or(a, b) => {
                let mut s = String::from_str("(");
                s.append(a.to_string().as_str());
                s.append(" OR ");
                s.append(b.to_string().as_str());
                s.append(")");
                s
            },
            BooleanExpr::Not(a) => {
                let mut s = String::from_str("NOT (");
                s.append(a.to_string().as_str());
                s.append(")");
                s
            },
            BooleanExpr::Equals(text) => {
                let mut s = String::from_str("(== ");
                s.append(text.as_str());
                s.append(")");
                s
            },
            BooleanExpr::GreaterThan(bound) => {
                let mut s = String::from_str("(> ");
                s.append(bound.as_str());
                s.append(")");
                s
            },
        }
    }

    /// Decides whether two conditions are the same.
    pub fn same(&self, other: &BooleanExpr) -> (r: bool)
        ensures
            r == (self@ == other@),
        decreases self,
    {
        match (self, other) {
            (BooleanExpr::And(a, b), BooleanExpr::And(c, d)) => a.same(c) && b.same(d),
            (BooleanExpr::Or(a, b), BooleanExpr::Or(c, d)) => a.same(c) && b.same(d),
            (BooleanExpr::Not(a), BooleanExpr::Not(c)) => a.same(c),
            (BooleanExpr::Equals(s), BooleanExpr::Equals(t)) => *s == *t,
            (BooleanExpr::GreaterThan(s), BooleanExpr::GreaterThan(t)) => *s == *t,
            _ => false,
        }
    }
}

impl Clone for BooleanExpr {
    fn clone(&self) -> (r: BooleanExpr)
        ensures
            r@ == self@,
        decreases self,
    {
        match self {
            BooleanExpr::And(a, b) => BooleanExpr::And(
                Box::new((**a).clone()),
                Box::new((**b).clone()),
            ),
            BooleanExpr::Or(a, b) => BooleanExpr::Or(
                Box::new((**a).clone()),
                Box::new((**b).clone()),
            ),
            BooleanExpr::Not(a) => BooleanExpr::Not(Box::new((**a).clone())),
            BooleanExpr::Equals(s) => BooleanExpr::Equals(s.clone()),
            BooleanExpr::GreaterThan(s) => BooleanExpr::GreaterThan(s.clone()),
        }
    }
}

impl PartialEq for BooleanExpr {
    fn eq(&self, other: &BooleanExpr) -> (r: bool) {
        self.same(other)
    }
}

impl PartialEqSpecImpl for BooleanExpr {
    open spec fn obeys_eq_spec() -> bool {
        true
    }

    open spec fn eq_spec(&self, other: &BooleanExpr) -> bool {
        self@ == other@
    }
}

} // verus!
