//! What can go wrong between a schema, a graph and the check of one
//! against the other.

use crate::card::Card;
use crate::key::Key;
use crate::names::TypeName;
use crate::semantics_error::{SemanticsError, SemanticsErrorView};
use crate::value::{Value, ValueView};
use crate::text::{decimal, decimal_string};
use crate::verdict::views;
use vstd::prelude::*;
use vstd::string::*;

verus! {

/// A failure, with what is needed to describe it.
#[allow(inconsistent_fields)]
#[derive(Debug, PartialEq)]
pub enum PgsError {
    /// A piece of text that should have been a number.
    InvalidNumber(String),
    /// A type name that the schema does not declare.
    MissingType(TypeName),
    /// No node goes by this name.
    MissingLabel { label: String },
    /// The record holds a key that the closed record type does not declare.
    KeyNotFoundClosedRecordType { key: Key, record_type: String },
    /// The number of values is outside the declared cardinality.
    CardinalityMismatch { expected: Card, count: usize },
    /// A value is not of the declared kind, or fails the declared condition.
    PredicateFailed { predicate_name: String, value: Value },
    /// The record lacks keys that the record type asks for.
    MissingKeys { keys: String, record_type: String },
    /// The record holds keys beyond those of the record type.
    ExtraKeysNotOpen { keys: String, record_type: String },
    /// The schema text could not be read.
    ParserError { error: String },
    /// The graph text could not be read.
    PGParserError { error: String },
    /// The entity's labels are not the labels of the type.
    LabelsDifferent { record_labels: String, type_labels: String },
    /// None of the type's record types accepts the record.
    RecordContentFails { record: String, type_content: String },
    /// An operation was applied to a value of the wrong kind.
    TypeMismatch { operation: String, expected: String, found: String },
    /// A value fails a condition.
    ConditionFailed { condition: String, value: String },
    /// The declaration of a type refers back to the type itself.
    CyclicType(TypeName),
}

/// What a [`PgsError`] stands for.
#[allow(inconsistent_fields)]
pub ghost enum PgsErrorView {
    InvalidNumber(Seq<char>),
    MissingType(Seq<char>),
    MissingLabel { label: Seq<char> },
    KeyNotFoundClosedRecordType { key: Seq<char>, record_type: Seq<char> },
    CardinalityMismatch { expected: Card, count: nat },
    PredicateFailed { predicate_name: Seq<char>, value: ValueView },
    MissingKeys { keys: Seq<char>, record_type: Seq<char> },
    ExtraKeysNotOpen { keys: Seq<char>, record_type: Seq<char> },
    ParserError { error: Seq<char> },
    PGParserError { error: Seq<char> },
    LabelsDifferent { record_labels: Seq<char>, type_labels: Seq<char> },
    RecordContentFails { record: Seq<char>, type_content: Seq<char> },
    TypeMismatch { operation: Seq<char>, expected: Seq<char>, found: Seq<char> },
    ConditionFailed { condition: Seq<char>, value: Seq<char> },
    CyclicType(Seq<char>),
}

impl View for PgsError {
    type V = PgsErrorView;

    open spec fn view(&self) -> PgsErrorView {
        match self {
            PgsError::InvalidNumber(s) => PgsErrorView::InvalidNumber(s@),
            PgsError::MissingType(s) => PgsErrorView::MissingType(s@),
            PgsError::MissingLabel { label } => PgsErrorView::MissingLabel { label: label@ },
            PgsError::KeyNotFoundClosedRecordType { key, record_type } => {
                PgsErrorView::KeyNotFoundClosedRecordType { key: key@, record_type: record_type@ }
            },
            PgsError::CardinalityMismatch { expected, count } => {
                PgsErrorView::CardinalityMismatch { expected: *expected, count: *count as nat }
            },
            PgsError::PredicateFailed { predicate_name, value } => {
                PgsErrorView::PredicateFailed { predicate_name: predicate_name@, value: value@ }
            },
            PgsError::MissingKeys { keys, record_type } => {
                PgsErrorView::MissingKeys { keys: keys@, record_type: record_type@ }
            },
            PgsError::ExtraKeysNotOpen { keys, record_type } => {
                PgsErrorView::ExtraKeysNotOpen { keys: keys@, record_type: record_type@ }
            },
            PgsError::ParserError { error } => PgsErrorView::ParserError { error: error@ },
            PgsError::PGParserError { error } => PgsErrorView::PGParserError { error: error@ },
            PgsError::LabelsDifferent { record_labels, type_labels } => {
                PgsErrorView::LabelsDifferent {
                    record_labels: record_labels@,
                    type_labels: type_labels@,
                }
            },
            PgsError::RecordContentFails { record, type_content } => {
                PgsErrorView::RecordContentFails { record: record@, type_content: type_content@ }
            },
            PgsError::TypeMismatch { operation, expected, found } => {
                PgsErrorView::TypeMismatch {
                    operation: operation@,
                    expected: expected@,
                    found: found@,
                }
            },
            PgsError::ConditionFailed { condition, value } => {
                PgsErrorView::ConditionFailed { condition: condition@, value: value@ }
            },
            PgsError::CyclicType(s) => PgsErrorView::CyclicType(s@),
        }
    }
}

/// The text that the `Debug` format writes for a piece of text: the text
/// in double quotes, with what cannot stand there as it is written as an
/// escape.
pub uninterp spec fn str_debug_text(text: Seq<char>) -> Seq<char>;

/// Formats a piece of text with `{:?}`, that is with the `Debug` of `str`;
/// the contract only gives the resulting text its name.
#[verifier::external_body]
fn quoted(text: &str) -> (written: String)
    ensures
        written@ == str_debug_text(text@),
{
    format!("{:?}", text)
}

impl PgsErrorView {
    /// The failure in words.
    pub open spec fn message(self) -> Seq<char> {
        match self {
            PgsErrorView::InvalidNumber(text) => "Error parsing as number: "@ + text,
            PgsErrorView::MissingType(name) => "Not found type: "@ + name,
            PgsErrorView::MissingLabel { label } => "Not found node with label: "@ + label,
            PgsErrorView::KeyNotFoundClosedRecordType { key, record_type } => {
                "Key not found in RecordType: "@ + key + " in Closed record type "@ + record_type
            },
            PgsErrorView::CardinalityMismatch { expected, count } => {
                "Cardinality doesn't match: "@ + expected.render() + ", count "@ + decimal(count)
            },
            PgsErrorView::PredicateFailed { predicate_name, value } => {
                "Predicate "@ + predicate_name + " failed with value "@ + value.render()
            },
            PgsErrorView::MissingKeys { keys, record_type } => {
                "Missing keys in record type: "@ + record_type + ", keys: "@ + str_debug_text(keys)
            },
            PgsErrorView::ExtraKeysNotOpen { keys, record_type } => {
                "Extra keys in closed record type: "@ + record_type + ", keys: "@ + str_debug_text(
                    keys,
                )
            },
            PgsErrorView::ParserError { error } => {
                "Parser error parsing property graph schema: "@ + error
            },
            PgsErrorView::PGParserError { error } => {
                "Parser error parsing property graph: "@ + error
            },
            PgsErrorView::LabelsDifferent { record_labels, type_labels } => {
                "Labels do not match: record labels "@ + record_labels + ", type labels "@
                    + type_labels
            },
            PgsErrorView::RecordContentFails { record, type_content } => {
                "Record does not conform to type content:\n Record:\n"@ + record
                    + "\n Types:\n"@ + type_content
            },
            PgsErrorView::TypeMismatch { operation, expected, found } => {
                "Type mismatch in operation "@ + operation + ": expected "@ + expected
                    + ", found "@ + found
            },
            PgsErrorView::ConditionFailed { condition, value } => {
                "Condition ("@ + condition + ") for value: "@ + value
            },
            PgsErrorView::CyclicType(name) => "Type refers back to itself: "@ + name,
        }
    }
}

/// The text `before`, then `first`, then `between`, then `second`.
fn two_part_message(before: &str, first: &str, between: &str, second: &str) -> (s: String)
    ensures
        s@ == before@ + first@ + between@ + second@,
{
    let mut s = String::from_str(before);
    s.append(first);
    s.append(between);
    s.append(second);
    s
}

/// The text `before`, then `only`.
fn one_part_message(before: &str, only: &str) -> (s: String)
    ensures
        s@ == before@ + only@,
{
    let mut s = String::from_str(before);
    s.append(only);
    s
}

impl Clone for PgsError {
    fn clone(&self) -> (r: PgsError)
        ensures
            r@ == self@,
    {
        match self {
            PgsError::InvalidNumber(s) => PgsError::InvalidNumber(s.clone()),
            PgsError::MissingType(s) => PgsError::MissingType(s.clone()),
            PgsError::MissingLabel { label } => PgsError::MissingLabel { label: label.clone() },
            PgsError::KeyNotFoundClosedRecordType { key, record_type } => {
                PgsError::KeyNotFoundClosedRecordType {
                    key: key.clone(),
                    record_type: record_type.clone(),
                }
            },
            PgsError::CardinalityMismatch { expected, count } => {
                PgsError::CardinalityMismatch { expected: *expected, count: *count }
            },
            PgsError::PredicateFailed { predicate_name, value } => {
                PgsError::PredicateFailed {
                    predicate_name: predicate_name.clone(),
                    value: value.clone(),
                }
            },
            PgsError::MissingKeys { keys, record_type } => {
                PgsError::MissingKeys { keys: keys.clone(), record_type: record_type.clone() }
            },
            PgsError::ExtraKeysNotOpen { keys, record_type } => {
                PgsError::ExtraKeysNotOpen { keys: keys.clone(), record_type: record_type.clone() }
            },
            PgsError::ParserError { error } => PgsError::ParserError { error: error.clone() },
            PgsError::PGParserError { error } => PgsError::PGParserError { error: error.clone() },
            PgsError::LabelsDifferent { record_labels, type_labels } => {
                PgsError::LabelsDifferent {
                    record_labels: record_labels.clone(),
                    type_labels: type_labels.clone(),
                }
            },
            PgsError::RecordContentFails { record, type_content } => {
                PgsError::RecordContentFails {
                    record: record.clone(),
                    type_content: type_content.clone(),
                }
            },
            PgsError::TypeMismatch { operation, expected, found } => {
                PgsError::TypeMismatch {
                    operation: operation.clone(),
                    expected: expected.clone(),
                    found: found.clone(),
                }
            },
            PgsError::ConditionFailed { condition, value } => {
                PgsError::ConditionFailed { condition: condition.clone(), value: value.clone() }
            },
            PgsError::CyclicType(s) => PgsError::CyclicType(s.clone()),
        }
    }
}

impl SemanticsErrorView {
    /// The same failure, as the entry points of the library report it.
    pub open spec fn lift(self) -> PgsErrorView {
        match self {
            SemanticsErrorView::MissingType(s) => PgsErrorView::MissingType(s),
            SemanticsErrorView::KeyNotFoundClosedRecordType { key, record_type } => {
                PgsErrorView::KeyNotFoundClosedRecordType { key, record_type }
            },
            SemanticsErrorView::CardinalityMismatch { expected, count } => {
                PgsErrorView::CardinalityMismatch { expected, count }
            },
            SemanticsErrorView::PredicateFailed { predicate_name, value } => {
                PgsErrorView::PredicateFailed { predicate_name, value }
            },
            SemanticsErrorView::MissingKeys { keys, record_type } => {
                PgsErrorView::MissingKeys { keys, record_type }
            },
            SemanticsErrorView::ExtraKeysNotOpen { keys, record_type } => {
                PgsErrorView::ExtraKeysNotOpen { keys, record_type }
            },
            SemanticsErrorView::CyclicType(s) => PgsErrorView::CyclicType(s),
        }
    }
}

impl PgsError {
    /// Writes the failure out in words.
    pub fn to_string(&self) -> (s: String)
        ensures
            s@ == self@.message(),
    {
        match self {
            PgsError::InvalidNumber(text) => one_part_message(
                "Error parsing as number: ",
                text.as_str(),
            ),
            PgsError::MissingType(name) => one_part_message("Not found type: ", name.as_str()),
            PgsError::MissingLabel { label } => one_part_message(
                "Not found node with label: ",
                label.as_str(),
            ),
            PgsError::KeyNotFoundClosedRecordType { key, record_type } => two_part_message(
                "Key not found in RecordType: ",
                key.str(),
                " in Closed record type ",
                record_type.as_str(),
            ),
            PgsError::CardinalityMismatch { expected, count } => two_part_message(
                "Cardinality doesn't match: ",
                expected.to_string().as_str(),
                ", count ",
                decimal_string(*count as u64).as_str(),
            ),
            PgsError::PredicateFailed { predicate_name, value } => two_part_message(
                "Predicate ",
                predicate_name.as_str(),
                " failed with value ",
                value.to_string().as_str(),
            ),
            PgsError::MissingKeys { keys, record_type } => two_part_message(
                "Missing keys in record type: ",
                record_type.as_str(),
                ", keys: ",
                quoted(keys.as_str()).as_str(),
            ),
            PgsError::ExtraKeysNotOpen { keys, record_type } => two_part_message(
                "Extra keys in closed record type: ",
                record_type.as_str(),
                ", keys: ",
                quoted(keys.as_str()).as_str(),
            ),
            PgsError::ParserError { error } => one_part_message(
                "Parser error parsing property graph schema: ",
                error.as_str(),
            ),
            PgsError::PGParserError { error } => one_part_message(
                "Parser error parsing property graph: ",
                error.as_str(),
            ),
            PgsError::LabelsDifferent { record_labels, type_labels } => two_part_message(
                "Labels do not match: record labels ",
                record_labels.as_str(),
                ", type labels ",
                type_labels.as_str(),
            ),
            PgsError::RecordContentFails { record, type_content } => two_part_message(
                "Record does not conform to type content:\n Record:\n",
                record.as_str(),
                "\n Types:\n",
                type_content.as_str(),
            ),
            PgsError::TypeMismatch { operation, expected, found } => {
                let mut s = two_part_message(
                    "Type mismatch in operation ",
                    operation.as_str(),
                    ": expected ",
                    expected.as_str(),
                );
                s.append(", found ");
                s.append(found.as_str());
                s
            },
            PgsError::ConditionFailed { condition, value } => two_part_message(
                "Condition (",
                condition.as_str(),
                ") for value: ",
                value.as_str(),
            ),
            PgsError::CyclicType(name) => one_part_message(
                "Type refers back to itself: ",
                name.as_str(),
            ),
        }
    }

    /// The same failure, as the entry points of the library report it.
    pub fn from_semantics(e: &SemanticsError) -> (r: PgsError)
        ensures
            r@ == e@.lift(),
    {
        match e {
            SemanticsError::MissingType(s) => PgsError::MissingType(s.clone()),
            SemanticsError::KeyNotFoundClosedRecordType { key, record_type } => {
                PgsError::KeyNotFoundClosedRecordType {
                    key: key.clone(),
                    record_type: record_type.clone(),
                }
            },
            SemanticsError::CardinalityMismatch { expected, count } => {
                PgsError::CardinalityMismatch { expected: *expected, count: *count }
            },
            SemanticsError::PredicateFailed { predicate_name, value } => {
                PgsError::PredicateFailed {
                    predicate_name: predicate_name.clone(),
                    value: value.clone(),
                }
            },
            SemanticsError::MissingKeys { keys, record_type } => {
                PgsError::MissingKeys { keys: keys.clone(), record_type: record_type.clone() }
            },
            SemanticsError::ExtraKeysNotOpen { keys, record_type } => {
                PgsError::ExtraKeysNotOpen { keys: keys.clone(), record_type: record_type.clone() }
            },
            SemanticsError::CyclicType(s) => PgsError::CyclicType(s.clone()),
        }
    }

    /// A list of failures, each as the entry points of the library report
    /// it.
    pub fn from_all(failures: &Vec<SemanticsError>) -> (lifted: Vec<PgsError>)
        ensures
            views(lifted@) == lift_all(views(failures@)),
    {
        let mut lifted: Vec<PgsError> = Vec::new();
        let mut i: usize = 0;
        while i < failures.len()
            invariant
                i <= failures@.len(),
                lifted@.len() == i,
                forall|j: int| 0 <= j < i ==> lifted@[j]@ == failures@[j]@.lift(),
            decreases failures@.len() - i,
        {
            lifted.push(PgsError::from_semantics(&failures[i]));
            i += 1;
        }
        assert(views(lifted@) =~= lift_all(views(failures@)));
        lifted
    }
}

/// A list of failures, each lifted.
pub open spec fn lift_all(failures: Seq<SemanticsErrorView>) -> Seq<PgsErrorView> {
    failures.map_values(|e: SemanticsErrorView| e.lift())
}

} // verus!
