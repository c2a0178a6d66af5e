//! Names as they are written in a schema.

use vstd::prelude::*;

verus! {

/// A name of any kind.
pub type Name = String;

/// The name under which a schema declares a type.
pub type TypeName = String;

/// A label carried by a node or an edge.
pub type LabelName = String;

} // verus!
