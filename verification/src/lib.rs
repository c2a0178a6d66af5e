//! Schema conformance for property graphs.
//!
//! A schema declares types by name. A type is an expression over labels,
//! references to other types and property shapes
//! ([`label_property_spec`], [`property_value_spec`]). Compiling an
//! expression gives its meaning, a formal base type ([`formal_base_type`]):
//! a set of labels and a set of alternative record types ([`record_type`]),
//! which map keys to value types ([`value_type`]). A node or an edge
//! belongs to a type where its labels are exactly the labels of the type
//! and its record has the shape of one of the alternatives. The schema
//! ([`formal_graph_type`]) compiles a declared type and checks an entity
//! against it; a type map ([`type_map`]) does so for every node that it
//! associates with a type.
//!
//! Every function states in its contract what it returns, over the views of
//! the values that it takes: texts are sequences of characters, records and
//! record types are their entries in the order of the keys, and sets are
//! sequences without duplicates. What holds of the algebra as a whole is
//! proved in [`laws`].

pub mod boolean_expr;
pub mod card;
pub mod distinct;
pub mod edge;
pub mod evidence;
pub mod formal_base_type;
pub mod formal_graph_type;
pub mod key;
pub mod key_map;
pub mod label_property_spec;
pub mod label_set;
pub mod laws;
pub mod names;
pub mod node;
pub mod node_id;
pub mod number;
pub mod parser;
pub mod pg;
pub mod pgs_error;
pub mod property_value_spec;
pub mod record;
pub mod record_type;
pub mod record_type_set;
pub mod semantics_error;
pub mod text;
pub mod type_map;
pub mod validation_result;
pub mod value;
pub mod value_set;
pub mod value_type;
pub mod verdict;
