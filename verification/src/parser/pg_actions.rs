//! The syntax tree of a graph document, and the steps that build it: one
//! function for each rule of the grammar, called with what the rule's parts
//! gave.

use vstd::prelude::*;
use vstd::string::*;

verus! {

#[allow(non_camel_case_types)]
pub type QUOTED_STRING = String;

pub fn quoted_string(token: &str) -> (r: QUOTED_STRING)
    ensures
        r@ == token@,
{
    String::from_str(token)
}

#[allow(non_camel_case_types)]
pub type IDENTIFIER = String;

pub fn identifier(token: &str) -> (r: IDENTIFIER)
    ensures
        r@ == token@,
{
    String::from_str(token)
}

#[allow(non_camel_case_types)]
pub type NUMBER = String;

pub fn number(token: &str) -> (r: NUMBER)
    ensures
        r@ == token@,
{
    String::from_str(token)
}

pub type Pg = Nodes;

pub fn pg_nodes(nodes: Nodes) -> (r: Pg)
    ensures
        r == nodes,
{
    nodes
}

pub type Nodes = Node1;

pub fn nodes_node1(node1: Node1) -> (r: Nodes)
    ensures
        r == node1,
{
    node1
}

pub type Node1 = Vec<Node>;

pub fn node1_c1(node1: Node1, node: Node) -> (r: Node1)
    ensures
        r@ == node1@.push(node),
{
    let mut node1 = node1;
    node1.push(node);
    node1
}

pub fn node1_node(node: Node) -> (r: Node1)
    ensures
        r@ == seq![node],
{
    vec![node]
}

/// A written node: its name, then its labels and properties.
#[derive(Debug)]
pub struct Node {
    pub id: Id,
    pub label_property_spec: LabelPropertySpec,
}

pub fn node_c1(id: Id, label_property_spec: LabelPropertySpec) -> (r: Node)
    ensures
        r == (Node { id, label_property_spec }),
{
    Node { id, label_property_spec }
}

pub type Id = IDENTIFIER;

pub fn id_identifier(identifier: IDENTIFIER) -> (r: Id)
    ensures
        r == identifier,
{
    identifier
}

/// The labels and the properties of a written node, either of which may be
/// left out.
#[derive(Debug)]
pub struct LabelPropertySpec {
    pub label_spec_opt: LabelSpecOpt,
    pub property_spec_opt: PropertySpecOpt,
}

pub fn label_property_spec_c1(
    label_spec_opt: LabelSpecOpt,
    property_spec_opt: PropertySpecOpt,
) -> (r: LabelPropertySpec)
    ensures
        r == (LabelPropertySpec { label_spec_opt, property_spec_opt }),
{
    LabelPropertySpec { label_spec_opt, property_spec_opt }
}

pub type LabelSpecOpt = Option<LabelSpec>;

pub fn label_spec_opt_label_spec(label_spec: LabelSpec) -> (r: LabelSpecOpt)
    ensures
        r == (Some(label_spec)),
{
    Some(label_spec)
}

pub fn label_spec_opt_empty() -> (r: LabelSpecOpt)
    ensures
        r is None,
{
    None
}

pub type PropertySpecOpt = Option<PropertySpec>;

pub fn property_spec_opt_property_spec(property_spec: PropertySpec) -> (r: PropertySpecOpt)
    ensures
        r == (Some(property_spec)),
{
    Some(property_spec)
}

pub fn property_spec_opt_empty() -> (r: PropertySpecOpt)
    ensures
        r is None,
{
    None
}

pub type LabelSpec = IDENTIFIER1;

pub fn label_spec_identifier1(identifier1: IDENTIFIER1) -> (r: LabelSpec)
    ensures
        r == identifier1,
{
    identifier1
}

#[allow(non_camel_case_types)]
pub type IDENTIFIER1 = Vec<IDENTIFIER>;

pub fn identifier1_c1(identifier1: IDENTIFIER1, identifier: IDENTIFIER) -> (r: IDENTIFIER1)
    ensures
        r@ == identifier1@.push(identifier),
{
    let mut identifier1 = identifier1;
    identifier1.push(identifier);
    identifier1
}

pub fn identifier1_identifier(identifier: IDENTIFIER) -> (r: IDENTIFIER1)
    ensures
        r@ == seq![identifier],
{
    vec![identifier]
}

pub type PropertySpec = Properties;

pub fn property_spec_properties(properties: Properties) -> (r: PropertySpec)
    ensures
        r == properties,
{
    properties
}

pub type Properties = Property1;

pub fn properties_property1(property1: Property1) -> (r: Properties)
    ensures
        r == property1,
{
    property1
}

pub type Property1 = Vec<Property>;

pub fn property1_c1(property1: Property1, property: Property) -> (r: Property1)
    ensures
        r@ == property1@.push(property),
{
    let mut property1 = property1;
    property1.push(property);
    property1
}

pub fn property1_property(property: Property) -> (r: Property1)
    ensures
        r@ == seq![property],
{
    vec![property]
}

/// A written property: its key and its values.
#[derive(Debug)]
pub struct Property {
    pub key: key,
    pub values: Values,
}

pub fn property_c1(key: key, values: Values) -> (r: Property)
    ensures
        r == (Property { key, values }),
{
    Property { key, values }
}

#[allow(non_camel_case_types)]
pub type key = IDENTIFIER;

pub fn key_identifier(identifier: IDENTIFIER) -> (r: key)
    ensures
        r == identifier,
{
    identifier
}

/// The values of a written property: one value, or a list of values.
#[derive(Debug)]
pub enum Values {
    SingleValue(SingleValue),
    ListValue(ListValues),
}

pub fn values_single_value(single_value: SingleValue) -> (r: Values)
    ensures
        r == (Values::SingleValue(single_value)),
{
    Values::SingleValue(single_value)
}

pub fn values_list_value(list_values: ListValues) -> (r: Values)
    ensures
        r == (Values::ListValue(list_values)),
{
    Values::ListValue(list_values)
}

pub type ListValues = SingleValue0;

pub fn list_values_single_value0(single_value0: SingleValue0) -> (r: ListValues)
    ensures
        r == single_value0,
{
    single_value0
}

pub type SingleValue1 = Vec<SingleValue>;

pub fn single_value1_c1(single_value1: SingleValue1, single_value: SingleValue) -> (r: SingleValue1)
    ensures
        r@ == single_value1@.push(single_value),
{
    let mut single_value1 = single_value1;
    single_value1.push(single_value);
    single_value1
}

pub fn single_value1_single_value(single_value: SingleValue) -> (r: SingleValue1)
    ensures
        r@ == seq![single_value],
{
    vec![single_value]
}

pub type SingleValue0 = Option<SingleValue1>;

pub fn single_value0_single_value1(single_value1: SingleValue1) -> (r: SingleValue0)
    ensures
        r == (Some(single_value1)),
{
    Some(single_value1)
}

pub fn single_value0_empty() -> (r: SingleValue0)
    ensures
        r is None,
{
    None
}

/// A written value: a text in quotes, or a number.
#[allow(non_camel_case_types)]
#[derive(Debug)]
pub enum SingleValue {
    StringValue(QUOTED_STRING),
    NumberValue(NUMBER),
}

pub fn single_value_string_value(quoted_string: QUOTED_STRING) -> (r: SingleValue)
    ensures
        r == (SingleValue::StringValue(quoted_string)),
{
    SingleValue::StringValue(quoted_string)
}

pub fn single_value_number_value(number: NUMBER) -> (r: SingleValue)
    ensures
        r == (SingleValue::NumberValue(number)),
{
    SingleValue::NumberValue(number)
}

} // verus!
