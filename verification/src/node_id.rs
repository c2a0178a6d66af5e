//! Identifiers of nodes and edges.

use crate::text::{decimal, decimal_string};
use vstd::prelude::*;
use vstd::string::*;

verus! {

/// The number under which a graph keeps an entity.
#[derive(Debug, Clone, Copy, PartialEq, Eq, Structural)]
pub struct NodeId {
    pub id: u32,
}

impl NodeId {
    pub fn new(id: u32) -> (node_id: NodeId)
        ensures
            node_id.id == id,
    {
        NodeId { id }
    }

    /// The identifier as it is printed: the number in parentheses.
    pub open spec fn render(self) -> Seq<char> {
        "("@ + decimal(self.id as nat) + ")"@
    }

    /// Writes the identifier out.
    pub fn to_string(&self) -> (s: String)
        ensures
            s@ == self.render(),
    {
        let mut s = String::from_str("(");
        s.append(decimal_string(self.id as u64).as_str());
        s.append(")");
        s
    }
}

} // verus!
