//! The syntax tree of a schema document, and the steps that build it: one
//! function for each rule of the grammar, called with what the rule's parts
//! gave.

use vstd::prelude::*;
use vstd::string::*;

verus! {

#[allow(non_camel_case_types)]
pub type IDENTIFIER = String;

pub fn identifier(token: &str) -> (r: IDENTIFIER)
    ensures
        r@ == token@,
{
    String::from_str(token)
}

pub type Number = String;

pub fn number(token: &str) -> (r: Number)
    ensures
        r@ == token@,
{
    String::from_str(token)
}

pub type Pgs = CreateType1;

pub fn pgs_create_type1(create_type1: CreateType1) -> (r: Pgs)
    ensures
        r == create_type1,
{
    create_type1
}

pub type CreateType1 = Vec<CreateType>;

pub fn create_type1_c1(create_type1: CreateType1, create_type: CreateType) -> (r: CreateType1)
    ensures
        r@ == create_type1@.push(create_type),
{
    let mut create_type1 = create_type1;
    create_type1.push(create_type);
    create_type1
}

pub fn create_type1_create_type(create_type: CreateType) -> (r: CreateType1)
    ensures
        r@ == seq![create_type],
{
    vec![create_type]
}

/// A written declaration: of a node type, of an edge type, or of a graph
/// type.
#[derive(Debug)]
pub enum CreateType {
    CreateNodeType(CreateNodeType),
    CreateEdgeType(CreateEdgeType),
    CreateGraphType(CreateGraphType),
}

pub fn create_type_create_node_type(create_node_type: CreateNodeType) -> (r: CreateType)
    ensures
        r == (CreateType::CreateNodeType(create_node_type)),
{
    CreateType::CreateNodeType(create_node_type)
}

pub fn create_type_create_edge_type(create_edge_type: CreateEdgeType) -> (r: CreateType)
    ensures
        r == (CreateType::CreateEdgeType(create_edge_type)),
{
    CreateType::CreateEdgeType(create_edge_type)
}

pub fn create_type_create_graph_type(create_graph_type: CreateGraphType) -> (r: CreateType)
    ensures
        r == (CreateType::CreateGraphType(create_graph_type)),
{
    CreateType::CreateGraphType(create_graph_type)
}

pub type CreateNodeType = NodeType;

pub fn create_node_type_node_type(node_type: NodeType) -> (r: CreateNodeType)
    ensures
        r == node_type,
{
    node_type
}

pub type CreateEdgeType = EdgeType;

pub fn create_edge_type_edge_type(edge_type: EdgeType) -> (r: CreateEdgeType)
    ensures
        r == edge_type,
{
    edge_type
}

pub type CreateGraphType = GraphType;

pub fn create_graph_type_graph_type(graph_type: GraphType) -> (r: CreateGraphType)
    ensures
        r == graph_type,
{
    graph_type
}

/// A written node type: its name and its type expression.
#[derive(Debug)]
pub struct NodeType {
    pub name: TypeName,
    pub label_property_spec: LabelPropertySpec,
}

pub fn node_type_c1(name: TypeName, label_property_spec: LabelPropertySpec) -> (r: NodeType)
    ensures
        r == (NodeType { name, label_property_spec }),
{
    NodeType { name, label_property_spec }
}

/// A written edge type: its name and its type expression, between the type
/// expressions of its two ends.
#[derive(Debug)]
pub struct EdgeType {
    pub endpoint_type_1: EndpointType,
    pub name: TypeName,
    pub label_property_spec: LabelPropertySpec,
    pub endpoint_type_6: EndpointType,
}

pub fn edge_type_c1(
    endpoint_type_1: EndpointType,
    name: TypeName,
    label_property_spec: LabelPropertySpec,
    endpoint_type_6: EndpointType,
) -> (r: EdgeType)
    ensures
        r == (EdgeType { endpoint_type_1, name, label_property_spec, endpoint_type_6 }),
{
    EdgeType { endpoint_type_1, name, label_property_spec, endpoint_type_6 }
}

pub type GraphType = TypeName;

pub fn graph_type_type_name(name: TypeName) -> (r: GraphType)
    ensures
        r == name,
{
    name
}

pub type TypeName = IDENTIFIER;

pub fn type_name_identifier(identifier: IDENTIFIER) -> (r: TypeName)
    ensures
        r == identifier,
{
    identifier
}

pub type EndpointType = LabelPropertySpec;

pub fn endpoint_type_label_property_spec(
    label_property_spec: LabelPropertySpec,
) -> (r: EndpointType)
    ensures
        r == label_property_spec,
{
    label_property_spec
}

/// The labels and the properties of a written type, either of which may be
/// left out.
#[derive(Debug)]
pub struct LabelPropertySpec {
    pub label_spec_opt: LabelSpecOpt,
    pub property_spec_opt: PropertySpecOpt,
}

pub fn label_property_spec_c1(
    label_spec_opt: LabelSpecOpt,
    property_spec_opt: PropertySpecOpt,
) -> (r: LabelPropertySpec)
    ensures
        r == (LabelPropertySpec { label_spec_opt, property_spec_opt }),
{
    LabelPropertySpec { label_spec_opt, property_spec_opt }
}

pub type LabelSpecOpt = Option<LabelSpec>;

pub fn label_spec_opt_label_spec(label_spec: LabelSpec) -> (r: LabelSpecOpt)
    ensures
        r == (Some(label_spec)),
{
    Some(label_spec)
}

pub fn label_spec_opt_empty() -> (r: LabelSpecOpt)
    ensures
        r is None,
{
    None
}

pub type PropertySpecOpt = Option<PropertySpec>;

pub fn property_spec_opt_property_spec(property_spec: PropertySpec) -> (r: PropertySpecOpt)
    ensures
        r == (Some(property_spec)),
{
    Some(property_spec)
}

pub fn property_spec_opt_empty() -> (r: PropertySpecOpt)
    ensures
        r is None,
{
    None
}

pub type LabelSpec = Labels;

pub fn label_spec_labels(labels: Labels) -> (r: LabelSpec)
    ensures
        r == labels,
{
    labels
}

/// Written labels: the first, and what follows it.
#[derive(Debug)]
pub struct Labels {
    pub single_label: SingleLabel,
    pub more_labels_opt: MoreLabelsOpt,
}

pub fn labels_c1(single_label: SingleLabel, more_labels_opt: MoreLabelsOpt) -> (r: Labels)
    ensures
        r == (Labels { single_label, more_labels_opt }),
{
    Labels { single_label, more_labels_opt }
}

pub type MoreLabelsOpt = Option<MoreLabels>;

pub fn more_labels_opt_more_labels(more_labels: MoreLabels) -> (r: MoreLabelsOpt)
    ensures
        r == (Some(more_labels)),
{
    Some(more_labels)
}

pub fn more_labels_opt_empty() -> (r: MoreLabelsOpt)
    ensures
        r is None,
{
    None
}

/// A label that is joined to what stands before it by "and", and what follows
/// it.
#[derive(Debug)]
pub struct AndLabels {
    pub single_label: SingleLabel,
    pub more_labels_opt: Box<MoreLabelsOpt>,
}

/// A label that is joined to what stands before it by "or", and what follows
/// it.
#[derive(Debug)]
pub struct OrLabels {
    pub single_label: SingleLabel,
    pub more_labels_opt: Box<MoreLabelsOpt>,
}

/// What follows a label: a further label, joined by "and" or by "or".
#[derive(Debug)]
pub enum MoreLabels {
    AndLabels(AndLabels),
    OrLabels(OrLabels),
}

pub fn more_labels_and_labels(
    single_label: SingleLabel,
    more_labels_opt: MoreLabelsOpt,
) -> (r: MoreLabels)
    ensures
        r == (MoreLabels::AndLabels(AndLabels { single_label, more_labels_opt: Box::new(more_labels_opt) })),
{
    MoreLabels::AndLabels(AndLabels { single_label, more_labels_opt: Box::new(more_labels_opt) })
}

pub fn more_labels_or_labels(
    single_label: SingleLabel,
    more_labels_opt: MoreLabelsOpt,
) -> (r: MoreLabels)
    ensures
        r == (MoreLabels::OrLabels(OrLabels { single_label, more_labels_opt: Box::new(more_labels_opt) })),
{
    MoreLabels::OrLabels(OrLabels { single_label, more_labels_opt: Box::new(more_labels_opt) })
}

/// A written label, or the name of a type in its place.
#[derive(Debug)]
pub enum SingleLabel {
    SingleLabel(IDENTIFIER),
    TypeName(IDENTIFIER),
}

pub fn single_label_single_label(identifier: IDENTIFIER) -> (r: SingleLabel)
    ensures
        r == (SingleLabel::SingleLabel(identifier)),
{
    SingleLabel::SingleLabel(identifier)
}

pub fn single_label_type_name(identifier: IDENTIFIER) -> (r: SingleLabel)
    ensures
        r == (SingleLabel::TypeName(identifier)),
{
    SingleLabel::TypeName(identifier)
}

pub type PropertySpec = Properties;

pub fn property_spec_properties(properties: Properties) -> (r: PropertySpec)
    ensures
        r == properties,
{
    properties
}

/// Two written shapes of which a record has to have both.
#[derive(Debug)]
pub struct EachOf {
    pub left: Box<Properties>,
    pub right: Box<Properties>,
}

/// Two written shapes of which a record has to have one.
#[derive(Debug)]
pub struct OneOf {
    pub left: Box<Properties>,
    pub right: Box<Properties>,
}

/// A written property, with or without the word that makes it optional.
#[derive(Debug)]
pub struct BaseProperty {
    pub optionalopt: OPTIONALOpt,
    pub property: Property,
}

/// A written property shape.
#[derive(Debug)]
pub enum Properties {
    EachOf(EachOf),
    OneOf(OneOf),
    Paren(Box<Properties>),
    BaseProperty(BaseProperty),
}

pub fn properties_each_of(left: Properties, right: Properties) -> (r: Properties)
    ensures
        r == (Properties::EachOf(EachOf { left: Box::new(left), right: Box::new(right) })),
{
    Properties::EachOf(EachOf { left: Box::new(left), right: Box::new(right) })
}

pub fn properties_one_of(left: Properties, right: Properties) -> (r: Properties)
    ensures
        r == (Properties::OneOf(OneOf { left: Box::new(left), right: Box::new(right) })),
{
    Properties::OneOf(OneOf { left: Box::new(left), right: Box::new(right) })
}

pub fn properties_paren(properties: Properties) -> (r: Properties)
    ensures
        r == (Properties::Paren(Box::new(properties))),
{
    Properties::Paren(Box::new(properties))
}

pub fn properties_base_property(optionalopt: OPTIONALOpt, property: Property) -> (r: Properties)
    ensures
        r == (Properties::BaseProperty(BaseProperty { optionalopt, property })),
{
    Properties::BaseProperty(BaseProperty { optionalopt, property })
}

#[allow(non_camel_case_types)]
pub type OPTIONALOpt = Option<OptionalOptNoO>;

/// The word that makes a property optional.
#[allow(non_camel_case_types)]
#[derive(Debug)]
pub enum OptionalOptNoO {
    OPTIONAL,
}

pub fn optionalopt_optional() -> (r: OPTIONALOpt)
    ensures
        r == (Some(OptionalOptNoO::OPTIONAL)),
{
    Some(OptionalOptNoO::OPTIONAL)
}

pub fn optionalopt_empty() -> (r: OPTIONALOpt)
    ensures
        r is None,
{
    None
}

/// A written property: its key, the name of its type, and its cardinality
/// where one is written.
#[derive(Debug)]
pub struct Property {
    pub key: key,
    pub type_spec: TypeSpec,
    pub card_opt: CardOpt,
}

pub fn property_c1(key: key, type_spec: TypeSpec, card_opt: CardOpt) -> (r: Property)
    ensures
        r == (Property { key, type_spec, card_opt }),
{
    Property { key, type_spec, card_opt }
}

pub type CardOpt = Option<Card>;

pub fn card_opt_card(card: Card) -> (r: CardOpt)
    ensures
        r == (Some(card)),
{
    Some(card)
}

pub fn card_opt_empty() -> (r: CardOpt)
    ensures
        r is None,
{
    None
}

#[allow(non_camel_case_types)]
pub type key = IDENTIFIER;

pub fn key_identifier(identifier: IDENTIFIER) -> (r: key)
    ensures
        r == identifier,
{
    identifier
}

pub type TypeSpec = SimpleType;

pub fn type_spec_simple_type(simple_type: SimpleType) -> (r: TypeSpec)
    ensures
        r == simple_type,
{
    simple_type
}

/// The written name of a kind of values.
#[allow(non_camel_case_types)]
#[derive(Debug)]
pub enum SimpleType {
    STRING_NAME,
    INTEGER_NAME,
    DATE_NAME,
}

pub fn simple_type_string_name() -> (r: SimpleType)
    ensures
        r == (SimpleType::STRING_NAME),
{
    SimpleType::STRING_NAME
}

pub fn simple_type_integer_name() -> (r: SimpleType)
    ensures
        r == (SimpleType::INTEGER_NAME),
{
    SimpleType::INTEGER_NAME
}

pub fn simple_type_date_name() -> (r: SimpleType)
    ensures
        r == (SimpleType::DATE_NAME),
{
    SimpleType::DATE_NAME
}

/// A written range: its lower end, and its upper end.
#[derive(Debug)]
pub struct Range {
    pub number: Number,
    pub max: Max,
}

/// A written cardinality.
#[derive(Debug)]
pub enum Card {
    Optional,
    OneOrMore,
    ZeroOrMore,
    Range(Range),
}

pub fn card_optional() -> (r: Card)
    ensures
        r == (Card::Optional),
{
    Card::Optional
}

pub fn card_one_or_more() -> (r: Card)
    ensures
        r == (Card::OneOrMore),
{
    Card::OneOrMore
}

pub fn card_zero_or_more() -> (r: Card)
    ensures
        r == (Card::ZeroOrMore),
{
    Card::ZeroOrMore
}

pub fn card_range(number: Number, max: Max) -> (r: Card)
    ensures
        r == (Card::Range(Range { number, max })),
{
    Card::Range(Range { number, max })
}

/// The written upper end of a range: a number, or a star for none.
#[derive(Debug)]
pub enum Max {
    Number(Number),
    Star,
}

pub fn max_number(number: Number) -> (r: Max)
    ensures
        r == (Max::Number(number)),
{
    Max::Number(number)
}

pub fn max_star() -> (r: Max)
    ensures
        r == (Max::Star),
{
    Max::Star
}

} // verus!
