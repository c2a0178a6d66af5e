//! Edges of a property graph.

use crate::label_set::{render_labels, LabelSet};
use crate::node_id::NodeId;
use crate::record::{render_record, Record};
use vstd::prelude::*;
use vstd::string::*;

verus! {

/// An edge: its identifier, the two nodes that it joins, its labels and its
/// properties.
#[derive(Debug)]
pub struct Edge {
    pub id: NodeId,
    pub source: NodeId,
    pub target: NodeId,
    pub label: LabelSet,
    pub properties: Record,
}

impl Edge {
    /// The labels and the properties are in order.
    pub open spec fn wf(&self) -> bool {
        self.label.wf() && self.properties.wf()
    }

    /// The edge `id` from `source` to `target`, without labels and
    /// properties.
    pub fn new(id: u32, source: u32, target: u32) -> (edge: Edge)
        ensures
            edge.wf(),
            edge.id.id == id,
            edge.source.id == source,
            edge.target.id == target,
            edge.label@ == Set::<Seq<char>>::empty(),
            edge.properties@.len() == 0,
    {
        Edge {
            id: NodeId::new(id),
            source: NodeId::new(source),
            target: NodeId::new(target),
            label: LabelSet::new(),
            properties: Record::new(),
        }
    }

    /// The edge with `label` among its labels.
    pub fn with_label(self, label: &str) -> (edge: Edge)
        requires
            self.wf(),
        ensures
            edge.wf(),
            edge.id == self.id,
            edge.source == self.source,
            edge.target == self.target,
            edge.label@ == self.label@.insert(label@),
            edge.properties@ == self.properties@,
    {
        let mut edge = self;
        edge.label.insert(label);
        edge
    }

    /// The edge with a copy of `content` in place of its properties.
    pub fn with_content(self, content: &Record) -> (edge: Edge)
        requires
            self.wf(),
            content.wf(),
        ensures
            edge.wf(),
            edge.id == self.id,
            edge.source == self.source,
            edge.target == self.target,
            edge.label@ == self.label@,
            edge.properties@ == content@,
    {
        Edge {
            id: self.id,
            source: self.source,
            target: self.target,
            label: self.label,
            properties: content.clone(),
        }
    }

    /// The edge as it is printed: its number, its two ends, its labels, its
    /// properties.
    pub open spec fn render(&self) -> Seq<char> {
        "Edge("@ + self.id.render() + " from "@ + self.source.render() + " to "@
            + self.target.render() + " with labels "@ + render_labels(self.label.names())
            + " and properties "@ + render_record(self.properties@) + ")"@
    }

    /// Writes the edge out.
    pub fn to_string(&self) -> (s: String)
        ensures
            s@ == self.render(),
    {
        let mut s = String::from_str("Edge(");
        s.append(self.id.to_string().as_str());
        s.append(" from ");
        s.append(self.source.to_string().as_str());
        s.append(" to ");
        s.append(self.target.to_string().as_str());
        s.append(" with labels ");
        s.append(self.label.to_string().as_str());
        s.append(" and properties ");
        s.append(self.properties.to_string().as_str());
        s.append(")");
        s
    }

    /// The labels of the edge.
    pub fn labels(&self) -> (labels: &LabelSet)
        ensures
            labels == &self.label,
    {
        &self.label
    }

    /// The properties of the edge.
    pub fn content(&self) -> (content: &Record)
        ensures
            content == &self.properties,
    {
        &self.properties
    }
}

} // verus!
