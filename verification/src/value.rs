//! Scalar values, as a graph holds them.

use crate::pgs_error::{PgsError, PgsErrorView};
use crate::text::{
    precedes, signed_decimal, signed_decimal_string, str_equal, str_precedes,
};
use core::cmp::Ordering;
use vstd::prelude::*;
use vstd::std_specs::cmp::{PartialEqSpecImpl, PartialOrdSpecImpl};
use vstd::string::*;

verus! {

/// A scalar value.
#[derive(Debug, Eq, Hash)]
pub enum Value {
    /// A piece of text.
    String(String),
    /// A whole number.
    Integer(i32),
    /// A date, kept as it was written.
    Date(String),
}

/// What a [`Value`] stands for.
pub ghost enum ValueView {
    String(Seq<char>),
    Integer(int),
    Date(Seq<char>),
}

impl View for Value {
    type V = ValueView;

    open spec fn view(&self) -> ValueView {
        match self {
            Value::String(s) => ValueView::String(s@),
            Value::Integer(i) => ValueView::Integer(*i as int),
            Value::Date(d) => ValueView::Date(d@),
        }
    }
}

impl ValueView {
    /// The value as it is printed: text and dates as they are, a number in
    /// decimal notation.
    pub open spec fn render(self) -> Seq<char> {
        match self {
            ValueView::String(s) => s,
            ValueView::Integer(i) => signed_decimal(i),
            ValueView::Date(d) => d,
        }
    }

    /// How this value compares with `other`: two integers by their size,
    /// two texts or two dates in dictionary order. Values of different
    /// kinds do not compare.
    pub open spec fn order(self, other: ValueView) -> Option<Ordering> {
        match (self, other) {
            (ValueView::Integer(a), ValueView::Integer(b)) => Some(integer_order(a, b)),
            (ValueView::String(a), ValueView::String(b)) => Some(text_order(a, b)),
            (ValueView::Date(a), ValueView::Date(b)) => Some(text_order(a, b)),
            _ => None,
        }
    }
}

/// How two integers compare.
pub open spec fn integer_order(a: int, b: int) -> Ordering {
    if a < b {
        Ordering::Less
    } else if a == b {
        Ordering::Equal
    } else {
        Ordering::Greater
    }
}

/// How two texts compare, in dictionary order.
pub open spec fn text_order(a: Seq<char>, b: Seq<char>) -> Ordering {
    if a == b {
        Ordering::Equal
    } else if precedes(a, b) {
        Ordering::Less
    } else {
        Ordering::Greater
    }
}

fn compare_text(a: &str, b: &str) -> (r: Ordering)
    ensures
        r == text_order(a@, b@),
{
    if str_equal(a, b) {
        Ordering::Equal
    } else if str_precedes(a, b) {
        Ordering::Less
    } else {
        Ordering::Greater
    }
}

fn compare_integers(a: i32, b: i32) -> (r: Ordering)
    ensures
        a < b ==> r == Ordering::Less,
        a == b ==> r == Ordering::Equal,
        a > b ==> r == Ordering::Greater,
{
    if a < b {
        Ordering::Less
    } else if a == b {
        Ordering::Equal
    } else {
        Ordering::Greater
    }
}

/// The text that the `Debug` format writes for a value.
pub uninterp spec fn value_debug_text(value: ValueView) -> Seq<char>;

/// Formats a value with `{:?}`, that is with the derived `Debug` of
/// [`Value`]; the contract only gives the resulting text its name.
#[verifier::external_body]
fn debug_text(value: &Value) -> (text: String)
    ensures
        text@ == value_debug_text(value@),
{
    format!("{:?}", value)
}

/// `str::contains` with a string pattern: whether `pattern` occurs in `text`
/// as a contiguous run of characters.
#[verifier::external_body]
fn str_contains(text: &str, pattern: &str) -> (r: bool)
    ensures
        r == occurs_in(pattern@, text@),
{
    text.contains(pattern)
}

/// `pattern` occurs somewhere in `text`.
pub open spec fn occurs_in(pattern: Seq<char>, text: Seq<char>) -> bool {
    exists|i: int|
        0 <= i <= text.len() - pattern.len() && #[trigger] text.subrange(i, i + pattern.len())
            == pattern
}

/// The diagnostic for an operation applied to a value of the wrong kind.
pub open spec fn kind_mismatch(
    operation: Seq<char>,
    expected: Seq<char>,
    found: ValueView,
) -> PgsErrorView {
    PgsErrorView::TypeMismatch { operation, expected, found: value_debug_text(found) }
}

/// The diagnostic for `operation`, which expects values of the kind
/// `expected`, applied to a value whose `Debug` text is `found`.
pub fn type_mismatch(operation: &str, expected: &str, found: String) -> (e: PgsError)
    ensures
        e@ == (PgsErrorView::TypeMismatch {
            operation: operation@,
            expected: expected@,
            found: found@,
        }),
{
    PgsError::TypeMismatch {
        operation: String::from_str(operation),
        expected: String::from_str(expected),
        found,
    }
}

fn mismatch(operation: &str, expected: &str, found: &Value) -> (e: PgsError)
    ensures
        e@ == kind_mismatch(operation@, expected@, found@),
{
    type_mismatch(operation, expected, debug_text(found))
}

impl Value {
    /// A text value.
    pub fn str(s: &str) -> (v: Value)
        ensures
            v@ == ValueView::String(s@),
    {
        Value::String(String::from_str(s))
    }

    /// An integer value.
    pub fn integer(i: i32) -> (v: Value)
        ensures
            v@ == ValueView::Integer(i as int),
    {
        Value::Integer(i)
    }

    /// A date value.
    pub fn date(d: &str) -> (v: Value)
        ensures
            v@ == ValueView::Date(d@),
    {
        Value::Date(String::from_str(d))
    }

    pub fn is_string(&self) -> (r: bool)
        ensures
            r == (self@ is String),
    {
        match self {
            Value::String(_) => true,
            _ => false,
        }
    }

    pub fn is_integer(&self) -> (r: bool)
        ensures
            r == (self@ is Integer),
    {
        match self {
            Value::Integer(_) => true,
            _ => false,
        }
    }

    pub fn is_date(&self) -> (r: bool)
        ensures
            r == (self@ is Date),
    {
        match self {
            Value::Date(_) => true,
            _ => false,
        }
    }

    /// `self > other` on two integers; a mismatch of kinds otherwise, which
    /// names `other`.
    pub fn greater_than(&self, other: &Value) -> (r: Result<bool, PgsError>)
        ensures
            match (self@, other@) {
                (ValueView::Integer(i), ValueView::Integer(v)) => r == Ok::<bool, PgsError>(i > v),
                _ => r is Err && r->Err_0@ == kind_mismatch(">"@, "Integer"@, other@),
            },
    {
        match (self, other) {
            (Value::Integer(i), Value::Integer(v)) => Ok(*i > *v),
            _ => Err(mismatch(">", "Integer", other)),
        }
    }

    /// `self < other` on two integers; a mismatch of kinds otherwise, which
    /// names `other`.
    pub fn less_than(&self, other: &Value) -> (r: Result<bool, PgsError>)
        ensures
            match (self@, other@) {
                (ValueView::Integer(i), ValueView::Integer(v)) => r == Ok::<bool, PgsError>(i < v),
                _ => r is Err && r->Err_0@ == kind_mismatch("<"@, "Integer"@, other@),
            },
    {
        match (self, other) {
            (Value::Integer(i), Value::Integer(v)) => Ok(*i < *v),
            _ => Err(mismatch("<", "Integer", other)),
        }
    }

    /// On two integers this is the strict `self < other`: two equal integers
    /// give `false`. A mismatch of kinds otherwise, which names `other`.
    pub fn less_than_or_equal(&self, other: &Value) -> (r: Result<bool, PgsError>)
        ensures
            match (self@, other@) {
                (ValueView::Integer(i), ValueView::Integer(v)) => r == Ok::<bool, PgsError>(i < v),
                _ => r is Err && r->Err_0@ == kind_mismatch("<="@, "Integer"@, other@),
            },
    {
        match (self, other) {
            (Value::Integer(i), Value::Integer(v)) => Ok(*i < *v),
            _ => Err(mismatch("<=", "Integer", other)),
        }
    }

    /// On two integers this is the strict `self < other`, whatever the name
    /// suggests. A mismatch of kinds otherwise, which names `other`.
    pub fn greater_than_or_equal(&self, other: &Value) -> (r: Result<bool, PgsError>)
        ensures
            match (self@, other@) {
                (ValueView::Integer(i), ValueView::Integer(v)) => r == Ok::<bool, PgsError>(i < v),
                _ => r is Err && r->Err_0@ == kind_mismatch(">="@, "Integer"@, other@),
            },
    {
        match (self, other) {
            (Value::Integer(i), Value::Integer(v)) => Ok(*i < *v),
            _ => Err(mismatch(">=", "Integer", other)),
        }
    }

    /// Whether `pattern` occurs in a text value, read literally; a mismatch
    /// of kinds on any other value, which names the value itself.
    pub fn regex_match(&self, pattern: &str) -> (r: Result<bool, PgsError>)
        ensures
            match self@ {
                ValueView::String(s) => r == Ok::<bool, PgsError>(occurs_in(pattern@, s)),
                _ => r is Err && r->Err_0@ == kind_mismatch("regex_match"@, "String"@, self@),
            },
    {
        match self {
            Value::String(s) => Ok(str_contains(s.as_str(), pattern)),
            _ => Err(mismatch("regex_match", "String", self)),
        }
    }

    /// The value as it is printed.
    pub fn to_string(&self) -> (s: String)
        ensures
            s@ == self@.render(),
    {
        match self {
            Value::String(s) => s.clone(),
            Value::Integer(i) => signed_decimal_string(*i),
            Value::Date(d) => d.clone(),
        }
    }

}

impl Clone for Value {
    fn clone(&self) -> (v: Value)
        ensures
            v@ == self@,
    {
        match self {
            Value::String(s) => Value::String(s.clone()),
            Value::Integer(i) => Value::Integer(*i),
            Value::Date(d) => Value::Date(d.clone()),
        }
    }
}

impl PartialEq for Value {
    fn eq(&self, other: &Value) -> (r: bool) {
        match (self, other) {
            (Value::String(a), Value::String(b)) => *a == *b,
            (Value::Integer(a), Value::Integer(b)) => *a == *b,
            (Value::Date(a), Value::Date(b)) => *a == *b,
            _ => false,
        }
    }
}

impl PartialEqSpecImpl for Value {
    open spec fn obeys_eq_spec() -> bool {
        true
    }

    open spec fn eq_spec(&self, other: &Value) -> bool {
        self@ == other@
    }
}

impl PartialOrd for Value {
    fn partial_cmp(&self, other: &Value) -> (r: Option<Ordering>) {
        match (self, other) {
            (Value::Integer(i1), Value::Integer(i2)) => Some(compare_integers(*i1, *i2)),
            (Value::String(s1), Value::String(s2)) => Some(compare_text(s1.as_str(), s2.as_str())),
            (Value::Date(d1), Value::Date(d2)) => Some(compare_text(d1.as_str(), d2.as_str())),
            _ => None,
        }
    }
}

impl PartialOrdSpecImpl for Value {
    open spec fn obeys_partial_cmp_spec() -> bool {
        true
    }

    open spec fn partial_cmp_spec(&self, other: &Value) -> Option<Ordering> {
        self@.order(other@)
    }
}

} // verus!
