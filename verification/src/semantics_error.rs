//! What can go wrong inside the type algebra.

use crate::card::Card;
use crate::key::Key;
use crate::names::TypeName;
use crate::value::{Value, ValueView};
use vstd::prelude::*;

verus! {

/// A failure of compiling a type or of checking a record against one.
#[allow(inconsistent_fields)]
#[derive(Debug, PartialEq)]
pub enum SemanticsError {
    /// A type name that the schema does not declare.
    MissingType(TypeName),
    /// The record holds a key that the closed record type does not declare.
    KeyNotFoundClosedRecordType { key: Key, record_type: String },
    /// The number of values is outside the declared cardinality.
    CardinalityMismatch { expected: Card, count: usize },
    /// A value is not of the declared kind, or fails the declared condition.
    PredicateFailed { predicate_name: String, value: Value },
    /// The record lacks keys that the record type asks for.
    MissingKeys { keys: String, record_type: String },
    /// The record holds keys beyond those of the record type.
    ExtraKeysNotOpen { keys: String, record_type: String },
    /// The declaration of a type refers back to the type itself.
    CyclicType(TypeName),
}

/// What a [`SemanticsError`] stands for.
#[allow(inconsistent_fields)]
pub ghost enum SemanticsErrorView {
    MissingType(Seq<char>),
    KeyNotFoundClosedRecordType { key: Seq<char>, record_type: Seq<char> },
    CardinalityMismatch { expected: Card, count: nat },
    PredicateFailed { predicate_name: Seq<char>, value: ValueView },
    MissingKeys { keys: Seq<char>, record_type: Seq<char> },
    ExtraKeysNotOpen { keys: Seq<char>, record_type: Seq<char> },
    CyclicType(Seq<char>),
}

impl View for SemanticsError {
    type V = SemanticsErrorView;

    open spec fn view(&self) -> SemanticsErrorView {
        match self {
            SemanticsError::MissingType(s) => SemanticsErrorView::MissingType(s@),
            SemanticsError::KeyNotFoundClosedRecordType { key, record_type } => {
                SemanticsErrorView::KeyNotFoundClosedRecordType {
                    key: key@,
                    record_type: record_type@,
                }
            },
            SemanticsError::CardinalityMismatch { expected, count } => {
                SemanticsErrorView::CardinalityMismatch {
                    expected: *expected,
                    count: *count as nat,
                }
            },
            SemanticsError::PredicateFailed { predicate_name, value } => {
                SemanticsErrorView::PredicateFailed {
                    predicate_name: predicate_name@,
                    value: value@,
                }
            },
            SemanticsError::MissingKeys { keys, record_type } => {
                SemanticsErrorView::MissingKeys { keys: keys@, record_type: record_type@ }
            },
            SemanticsError::ExtraKeysNotOpen { keys, record_type } => {
                SemanticsErrorView::ExtraKeysNotOpen { keys: keys@, record_type: record_type@ }
            },
            SemanticsError::CyclicType(s) => SemanticsErrorView::CyclicType(s@),
        }
    }
}

impl SemanticsError {
    /// Writes the failure out in words, as the same failure of the entry
    /// points is written.
    pub fn to_string(&self) -> (s: String)
        ensures
            s@ == self@.lift().message(),
    {
        crate::pgs_error::PgsError::from_semantics(self).to_string()
    }
}

} // verus!
