//! From the syntax tree of a schema document to a schema.

use crate::card::{Card as PGCard, Max as PGMax};
use crate::formal_graph_type::{FormalGraphType, RegistryView};
use crate::key::Key;
use crate::label_property_spec::{
    LabelPropertySpec as PGLabelPropertySpec, LabelPropertySpecView,
};
use crate::number::{parse_usize, written_usize};
use crate::parser::pgs_actions::{
    BaseProperty, Card, CreateType, LabelPropertySpec, Labels, Max, MoreLabels, Properties,
    Property, Range, SimpleType, SingleLabel,
};
use crate::pgs_error::{PgsError, PgsErrorView};
use crate::property_value_spec::{
    PropertyValue as PGPropertyValue, PropertyValueSpec as PGPropertyValueSpec,
    PropertyValueSpecView, PropertyValueView, TypeSpec as PGTypeSpec,
};
use crate::value_type::{ScalarKind, ValueTypeView};
use vstd::prelude::*;

verus! {

/// The number that is written, or the text as an invalid number.
pub open spec fn number_meaning(text: String) -> Result<usize, PgsErrorView> {
    match written_usize(text@) {
        Some(number) => Ok(number),
        None => Err(PgsErrorView::InvalidNumber(text@)),
    }
}

/// The upper end of a range as it is written.
pub open spec fn max_meaning(max: Max) -> Result<PGMax, PgsErrorView> {
    match max {
        Max::Number(text) => match number_meaning(text) {
            Ok(number) => Ok(PGMax::Bounded(number)),
            Err(e) => Err(e),
        },
        Max::Star => Ok(PGMax::Unbounded),
    }
}

/// A range as it is written: the lower end is read first.
pub open spec fn range_meaning(range: Range) -> Result<PGCard, PgsErrorView> {
    match number_meaning(range.number) {
        Err(e) => Err(e),
        Ok(min) => match max_meaning(range.max) {
            Err(e) => Err(e),
            Ok(max) => Ok(PGCard::Range(min, max)),
        },
    }
}

/// A cardinality as it is written.
pub open spec fn card_meaning(card: Card) -> Result<PGCard, PgsErrorView> {
    match card {
        Card::ZeroOrMore => Ok(PGCard::ZeroOrMore),
        Card::OneOrMore => Ok(PGCard::OneOrMore),
        Card::Range(range) => range_meaning(range),
        Card::Optional => Ok(PGCard::ZeroOrOne),
    }
}

/// The kind that a written type name stands for.
pub open spec fn kind_meaning(simple: SimpleType) -> ScalarKind {
    match simple {
        SimpleType::STRING_NAME => ScalarKind::String,
        SimpleType::INTEGER_NAME => ScalarKind::Integer,
        SimpleType::DATE_NAME => ScalarKind::Date,
    }
}

/// The key and the type of a written property; a property without a
/// cardinality holds exactly one value.
pub open spec fn property_meaning(property: Property) -> Result<
    (Seq<char>, ValueTypeView),
    PgsErrorView,
> {
    let card = match property.card_opt {
        Some(card) => card_meaning(card),
        None => Ok(PGCard::One),
    };
    match card {
        Err(e) => Err(e),
        Ok(card) => Ok((property.key@, ValueTypeView::Scalar(kind_meaning(property.type_spec), card))),
    }
}

/// A written property, required or optional.
pub open spec fn base_property_meaning(base: BaseProperty) -> Result<
    PropertyValueView,
    PgsErrorView,
> {
    match property_meaning(base.property) {
        Err(e) => Err(e),
        Ok((key, value_type)) => if base.optionalopt is Some {
            Ok(PropertyValueView::OptionalProperty(key, value_type))
        } else {
            Ok(PropertyValueView::Property(key, value_type))
        },
    }
}

/// The two sides of a written pair of shapes: the left one is read first.
pub open spec fn pair_meaning(
    left: Result<PropertyValueView, PgsErrorView>,
    right: Result<PropertyValueView, PgsErrorView>,
    each: bool,
) -> Result<PropertyValueView, PgsErrorView> {
    match left {
        Err(e) => Err(e),
        Ok(left) => match right {
            Err(e) => Err(e),
            Ok(right) => if each {
                Ok(PropertyValueView::EachOf(Box::new(left), Box::new(right)))
            } else {
                Ok(PropertyValueView::OneOf(Box::new(left), Box::new(right)))
            },
        },
    }
}

/// The property shape that is written; parentheses mean nothing.
pub open spec fn properties_meaning(properties: Properties) -> Result<
    PropertyValueView,
    PgsErrorView,
>
    decreases properties,
{
    match properties {
        Properties::Paren(inner) => properties_meaning(*inner),
        Properties::EachOf(each_of) => pair_meaning(
            properties_meaning(*each_of.left),
            properties_meaning(*each_of.right),
            true,
        ),
        Properties::OneOf(one_of) => pair_meaning(
            properties_meaning(*one_of.left),
            properties_meaning(*one_of.right),
            false,
        ),
        Properties::BaseProperty(base) => base_property_meaning(base),
    }
}

/// A written label, or a written reference to a type.
pub open spec fn single_label_meaning(label: SingleLabel) -> LabelPropertySpecView {
    match label {
        SingleLabel::SingleLabel(identifier) => LabelPropertySpecView::Label(identifier@),
        SingleLabel::TypeName(name) => LabelPropertySpecView::Ref(name@),
    }
}

/// The expression `first` followed by further labels: each is joined to
/// what stands before it, so that the labels group from the left.
pub open spec fn more_labels_meaning(
    first: LabelPropertySpecView,
    more: MoreLabels,
) -> LabelPropertySpecView
    decreases more,
{
    match more {
        MoreLabels::AndLabels(and_labels) => {
            let joined = LabelPropertySpecView::And(
                Box::new(first),
                Box::new(single_label_meaning(and_labels.single_label)),
            );
            match *and_labels.more_labels_opt {
                Some(rest) => more_labels_meaning(joined, rest),
                None => joined,
            }
        },
        MoreLabels::OrLabels(or_labels) => {
            let joined = LabelPropertySpecView::Or(
                Box::new(first),
                Box::new(single_label_meaning(or_labels.single_label)),
            );
            match *or_labels.more_labels_opt {
                Some(rest) => more_labels_meaning(joined, rest),
                None => joined,
            }
        },
    }
}

/// The written labels of a type.
pub open spec fn labels_meaning(labels: Labels) -> LabelPropertySpecView {
    match labels.more_labels_opt {
        Some(more) => more_labels_meaning(single_label_meaning(labels.single_label), more),
        None => single_label_meaning(labels.single_label),
    }
}

/// The type expression that a written declaration means: its labels, with
/// its properties as a closed shape where it has any. A declaration without
/// labels is the empty expression, whatever properties it has.
pub open spec fn declaration_meaning(spec: LabelPropertySpec) -> Result<
    LabelPropertySpecView,
    PgsErrorView,
> {
    match spec.label_spec_opt {
        Some(labels) => match spec.property_spec_opt {
            Some(properties) => match properties_meaning(properties) {
                Err(e) => Err(e),
                Ok(shape) => Ok(
                    LabelPropertySpecView::Content(
                        Box::new(labels_meaning(labels)),
                        PropertyValueSpecView::Closed(shape),
                    ),
                ),
            },
            None => Ok(labels_meaning(labels)),
        },
        None => Ok(LabelPropertySpecView::Empty),
    }
}

/// The schema `base` with what one written declaration adds: a node type
/// and an edge type declare their expression under their name, a graph
/// type declares nothing.
pub open spec fn declared(base: RegistryView, create: CreateType) -> Result<
    RegistryView,
    PgsErrorView,
> {
    match create {
        CreateType::CreateNodeType(node_type) => match declaration_meaning(
            node_type.label_property_spec,
        ) {
            Err(e) => Err(e),
            Ok(spec) => Ok(base.insert(node_type.name@, spec)),
        },
        CreateType::CreateEdgeType(edge_type) => match declaration_meaning(
            edge_type.label_property_spec,
        ) {
            Err(e) => Err(e),
            Ok(spec) => Ok(base.insert(edge_type.name@, spec)),
        },
        CreateType::CreateGraphType(_) => Ok(base),
    }
}

/// The schema `base` with what the first `upto` written declarations add,
/// one after the other, or the failure of the first that means nothing.
pub open spec fn schema_upto(base: RegistryView, types: Seq<CreateType>, upto: int) -> Result<
    RegistryView,
    PgsErrorView,
>
    decreases upto,
{
    if upto <= 0 {
        Ok(base)
    } else {
        match schema_upto(base, types, upto - 1) {
            Err(e) => Err(e),
            Ok(before) => declared(before, types[upto - 1]),
        }
    }
}

/// Once the written declarations fail, they fail the same with more of
/// them.
pub proof fn lemma_schema_failure(
    base: RegistryView,
    types: Seq<CreateType>,
    failed: int,
    upto: int,
)
    requires
        failed <= upto,
        schema_upto(base, types, failed) is Err,
    ensures
        schema_upto(base, types, upto) == schema_upto(base, types, failed),
    decreases upto,
{
    if failed < upto {
        lemma_schema_failure(base, types, failed, upto - 1);
    }
}

/// Builds schemas from syntax trees.
#[derive(Debug)]
pub struct PgsBuilder {}

impl PgsBuilder {
    pub fn new() -> (builder: PgsBuilder) {
        PgsBuilder {  }
    }

    /// Builds the schema that a parsed schema document describes.
    ///
    /// `parsed` is what the grammar made of the document: the written
    /// declarations, or the message of a syntax error, which is handed on.
    /// A bound of a range that is no number is an invalid number.
    pub fn parse_pgs(&self, parsed: Result<Vec<CreateType>, String>) -> (built: Result<
        FormalGraphType,
        PgsError,
    >)
        ensures
            match parsed {
                Err(message) => built is Err && built->Err_0@ == (PgsErrorView::ParserError {
                    error: message@,
                }),
                Ok(types) => match schema_upto(
                    RegistryView::empty(),
                    types@,
                    types@.len() as int,
                ) {
                    Err(e) => built is Err && built->Err_0@ == e,
                    Ok(registry) => built is Ok && built->Ok_0.wf() && built->Ok_0@ == registry,
                },
            },
    {
        match parsed {
            Err(message) => Err(PgsError::ParserError { error: message }),
            Ok(pgs_content) => {
                let mut schema = FormalGraphType::new();
                match get_create_types(&pgs_content, &mut schema) {
                    Err(e) => Err(e),
                    Ok(()) => Ok(schema),
                }
            },
        }
    }
}

/// Adds the written declarations to the schema, one after the other, up to
/// the first that means nothing.
pub fn get_create_types(create_types: &Vec<CreateType>, schema: &mut FormalGraphType) -> (done:
    Result<(), PgsError>)
    requires
        old(schema).wf(),
    ensures
        final(schema).wf(),
        match schema_upto(old(schema)@, create_types@, create_types@.len() as int) {
            Err(e) => done is Err && done->Err_0@ == e,
            Ok(registry) => done is Ok && final(schema)@ == registry,
        },
{
    let ghost base = schema@;
    let mut i: usize = 0;
    while i < create_types.len()
        invariant
            i <= create_types@.len(),
            schema.wf(),
            base == old(schema)@,
            schema_upto(base, create_types@, i as int) == Ok::<RegistryView, PgsErrorView>(
                schema@,
            ),
        decreases create_types@.len() - i,
    {
        let added = match &create_types[i] {
            CreateType::CreateNodeType(node_type) => {
                match get_label_property_spec(&node_type.label_property_spec) {
                    Err(e) => Err(e),
                    Ok(label_property_spec) => {
                        schema.add(node_type.name.as_str(), label_property_spec);
                        Ok(())
                    },
                }
            },
            CreateType::CreateEdgeType(edge_type) => {
                match get_label_property_spec(&edge_type.label_property_spec) {
                    Err(e) => Err(e),
                    Ok(label_property_spec) => {
                        schema.add(edge_type.name.as_str(), label_property_spec);
                        Ok(())
                    },
                }
            },
            CreateType::CreateGraphType(_) => Ok(()),
        };
        match added {
            Err(e) => {
                proof {
                    assert(schema_upto(base, create_types@, i + 1) == Err::<
                        RegistryView,
                        PgsErrorView,
                    >(e@));
                    lemma_schema_failure(base, create_types@, i + 1, create_types@.len() as int);
                }
                return Err(e);
            },
            Ok(()) => {},
        }
        i += 1;
    }
    Ok(())
}

/// The type expression that a written declaration means.
pub fn get_label_property_spec(label_property_spec: &LabelPropertySpec) -> (built: Result<
    PGLabelPropertySpec,
    PgsError,
>)
    ensures
        match declaration_meaning(*label_property_spec) {
            Err(e) => built is Err && built->Err_0@ == e,
            Ok(meaning) => built is Ok && built->Ok_0@ == meaning,
        },
{
    if let Some(label_spec) = &label_property_spec.label_spec_opt {
        let label_spec = get_labels(label_spec);
        if let Some(property_spec) = &label_property_spec.property_spec_opt {
            match get_property_value_spec(property_spec) {
                Err(e) => Err(e),
                Ok(property_value_spec) => Ok(
                    PGLabelPropertySpec::content(
                        label_spec,
                        PGPropertyValueSpec::closed(property_value_spec),
                    ),
                ),
            }
        } else {
            Ok(label_spec)
        }
    } else {
        Ok(PGLabelPropertySpec::new())
    }
}

/// The type expression that the written labels mean.
pub fn get_labels(labels: &Labels) -> (built: PGLabelPropertySpec)
    ensures
        built@ == labels_meaning(*labels),
{
    let mut label_spec = get_single_label(&labels.single_label);
    if let Some(more_labels) = &labels.more_labels_opt {
        get_more_labels(more_labels, &mut label_spec);
    }
    label_spec
}

/// A label, or a reference to a type.
pub fn get_single_label(single_label: &SingleLabel) -> (built: PGLabelPropertySpec)
    ensures
        built@ == single_label_meaning(*single_label),
{
    match single_label {
        SingleLabel::SingleLabel(identifier) => PGLabelPropertySpec::label(identifier.clone()),
        SingleLabel::TypeName(name) => PGLabelPropertySpec::ref_(name.clone()),
    }
}

/// Joins the further labels to the expression in `label_spec`, one after
/// the other.
pub fn get_more_labels(more_labels: &MoreLabels, label_spec: &mut PGLabelPropertySpec)
    ensures
        final(label_spec)@ == more_labels_meaning(old(label_spec)@, *more_labels),
    decreases more_labels,
{
    match more_labels {
        MoreLabels::AndLabels(and_labels) => {
            let label_spec2 = get_single_label(&and_labels.single_label);
            *label_spec = PGLabelPropertySpec::and(label_spec.clone(), label_spec2);
            if let Some(more_labels) = &*and_labels.more_labels_opt {
                get_more_labels(more_labels, label_spec);
            }
        },
        MoreLabels::OrLabels(or_labels) => {
            let label_spec2 = get_single_label(&or_labels.single_label);
            *label_spec = PGLabelPropertySpec::or(label_spec.clone(), label_spec2);
            if let Some(more_labels) = &*or_labels.more_labels_opt {
                get_more_labels(more_labels, label_spec);
            }
        },
    }
}

/// The property shape that is written.
pub fn get_property_value_spec(property_value_spec: &Properties) -> (built: Result<
    PGPropertyValue,
    PgsError,
>)
    ensures
        match properties_meaning(*property_value_spec) {
            Err(e) => built is Err && built->Err_0@ == e,
            Ok(meaning) => built is Ok && built->Ok_0@ == meaning,
        },
    decreases property_value_spec, 1int,
{
    get_property_value(property_value_spec)
}

/// The property shape that is written.
pub fn get_property_value(property_value: &Properties) -> (built: Result<PGPropertyValue, PgsError>)
    ensures
        match properties_meaning(*property_value) {
            Err(e) => built is Err && built->Err_0@ == e,
            Ok(meaning) => built is Ok && built->Ok_0@ == meaning,
        },
    decreases property_value, 0int,
{
    match property_value {
        Properties::Paren(properties) => get_property_value_spec(properties),
        Properties::EachOf(each_of) => {
            match get_property_value_spec(&each_of.left) {
                Err(e) => Err(e),
                Ok(left) => match get_property_value_spec(&each_of.right) {
                    Err(e) => Err(e),
                    Ok(right) => Ok(PGPropertyValue::each_of(left, right)),
                },
            }
        },
        Properties::OneOf(one_of) => {
            match get_property_value_spec(&one_of.left) {
                Err(e) => Err(e),
                Ok(left) => match get_property_value_spec(&one_of.right) {
                    Err(e) => Err(e),
                    Ok(right) => Ok(PGPropertyValue::one_of(left, right)),
                },
            }
        },
        Properties::BaseProperty(property) => get_base_property(property),
    }
}

/// A written property, required or optional.
pub fn get_base_property(base_property: &BaseProperty) -> (built: Result<PGPropertyValue, PgsError>)
    ensures
        match base_property_meaning(*base_property) {
            Err(e) => built is Err && built->Err_0@ == e,
            Ok(meaning) => built is Ok && built->Ok_0@ == meaning,
        },
{
    match get_property(&base_property.property) {
        Err(e) => Err(e),
        Ok((key, type_spec)) => {
            if let Some(_) = base_property.optionalopt {
                Ok(PGPropertyValue::optional_property(key, type_spec))
            } else {
                Ok(PGPropertyValue::property(key, type_spec))
            }
        },
    }
}

/// The key and the type of a written property.
pub fn get_property(property: &Property) -> (built: Result<(Key, PGTypeSpec), PgsError>)
    ensures
        match property_meaning(*property) {
            Err(e) => built is Err && built->Err_0@ == e,
            Ok(meaning) => built is Ok && built->Ok_0.0@ == meaning.0 && built->Ok_0.1@
                == meaning.1,
        },
{
    let card = if let Some(card) = &property.card_opt {
        match get_card(card) {
            Err(e) => {
                return Err(e);
            },
            Ok(card) => card,
        }
    } else {
        PGCard::One
    };
    let type_spec = get_type_spec(&property.type_spec, card);
    Ok((Key::new(property.key.as_str()), type_spec))
}

/// A cardinality as it is written.
pub fn get_card(card: &Card) -> (built: Result<PGCard, PgsError>)
    ensures
        match card_meaning(*card) {
            Err(e) => built is Err && built->Err_0@ == e,
            Ok(meaning) => built == Ok::<PGCard, PgsError>(meaning),
        },
{
    match card {
        Card::ZeroOrMore => Ok(PGCard::ZeroOrMore),
        Card::OneOrMore => Ok(PGCard::OneOrMore),
        Card::Range(range) => get_range(range),
        Card::Optional => Ok(PGCard::ZeroOrOne),
    }
}

/// A range as it is written.
pub fn get_range(range: &Range) -> (built: Result<PGCard, PgsError>)
    ensures
        match range_meaning(*range) {
            Err(e) => built is Err && built->Err_0@ == e,
            Ok(meaning) => built == Ok::<PGCard, PgsError>(meaning),
        },
{
    match get_number(&range.number) {
        Err(e) => Err(e),
        Ok(min) => match get_max(&range.max) {
            Err(e) => Err(e),
            Ok(max) => Ok(PGCard::range(min, max)),
        },
    }
}

/// The upper end of a range as it is written.
pub fn get_max(max: &Max) -> (built: Result<PGMax, PgsError>)
    ensures
        match max_meaning(*max) {
            Err(e) => built is Err && built->Err_0@ == e,
            Ok(meaning) => built == Ok::<PGMax, PgsError>(meaning),
        },
{
    match max {
        Max::Number(n) => {
            match get_number(n) {
                Err(e) => Err(e),
                Ok(n) => Ok(PGMax::Bounded(n)),
            }
        },
        Max::Star => Ok(PGMax::Unbounded),
    }
}

/// The number that is written.
pub fn get_number(number: &String) -> (built: Result<usize, PgsError>)
    ensures
        match number_meaning(*number) {
            Err(e) => built is Err && built->Err_0@ == e,
            Ok(meaning) => built == Ok::<usize, PgsError>(meaning),
        },
{
    match parse_usize(number.as_str()) {
        Some(parsed) => Ok(parsed),
        None => Err(PgsError::InvalidNumber(number.clone())),
    }
}

/// The declared type of a property.
pub fn get_type_spec(type_spec: &SimpleType, card: PGCard) -> (built: PGTypeSpec)
    ensures
        built@ == ValueTypeView::Scalar(kind_meaning(*type_spec), card),
{
    match type_spec {
        SimpleType::STRING_NAME => PGTypeSpec::string(card),
        SimpleType::INTEGER_NAME => PGTypeSpec::integer(card),
        SimpleType::DATE_NAME => PGTypeSpec::date(card),
    }
}

} // verus!
