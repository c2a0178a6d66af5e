//! Nodes of a property graph.

use crate::label_set::{render_labels, LabelSet};
use crate::node_id::NodeId;
use crate::record::{render_record, Record};
use vstd::prelude::*;
use vstd::string::*;

verus! {

/// A node: its identifier, its labels and its properties.
#[derive(Debug)]
pub struct Node {
    pub id: NodeId,
    pub label: LabelSet,
    pub properties: Record,
}

impl Node {
    /// The labels and the properties are in order.
    pub open spec fn wf(&self) -> bool {
        self.label.wf() && self.properties.wf()
    }

    /// The node `id`, without labels and properties.
    pub fn new(id: u32) -> (node: Node)
        ensures
            node.wf(),
            node.id.id == id,
            node.label@ == Set::<Seq<char>>::empty(),
            node.properties@.len() == 0,
    {
        Node { id: NodeId::new(id), label: LabelSet::new(), properties: Record::new() }
    }

    /// The node with `label` among its labels.
    pub fn with_label(self, label: &str) -> (node: Node)
        requires
            self.wf(),
        ensures
            node.wf(),
            node.id == self.id,
            node.label@ == self.label@.insert(label@),
            node.properties@ == self.properties@,
    {
        let mut node = self;
        node.label.insert(label);
        node
    }

    /// The node with `labels` in place of its labels.
    pub fn with_labels(self, labels: LabelSet) -> (node: Node)
        requires
            self.wf(),
            labels.wf(),
        ensures
            node.wf(),
            node.id == self.id,
            node.label@ == labels@,
            node.properties@ == self.properties@,
    {
        Node { id: self.id, label: labels, properties: self.properties }
    }

    /// The node with a copy of `content` in place of its properties.
    pub fn with_content(self, content: &Record) -> (node: Node)
        requires
            self.wf(),
            content.wf(),
        ensures
            node.wf(),
            node.id == self.id,
            node.label@ == self.label@,
            node.properties@ == content@,
    {
        Node { id: self.id, label: self.label, properties: content.clone() }
    }

    /// The node as it is printed: its number, its labels, its properties.
    pub open spec fn render(&self) -> Seq<char> {
        "Node("@ + self.id.render() + " "@ + render_labels(self.label.names()) + " ["@
            + render_record(self.properties@) + "]"@
    }

    /// Writes the node out.
    pub fn to_string(&self) -> (s: String)
        ensures
            s@ == self.render(),
    {
        let mut s = String::from_str("Node(");
        s.append(self.id.to_string().as_str());
        s.append(" ");
        s.append(self.label.to_string().as_str());
        s.append(" [");
        s.append(self.properties.to_string().as_str());
        s.append("]");
        s
    }

    /// The labels of the node.
    pub fn labels(&self) -> (labels: &LabelSet)
        ensures
            labels == &self.label,
    {
        &self.label
    }

    /// The properties of the node.
    pub fn content(&self) -> (content: &Record)
        ensures
            content == &self.properties,
    {
        &self.properties
    }
}

impl Clone for Node {
    fn clone(&self) -> (node: Node)
        ensures
            node.id == self.id,
            node.label@ == self.label@,
            node.label.names() == self.label.names(),
            node.properties@ == self.properties@,
    {
        Node { id: self.id, label: self.label.clone(), properties: self.properties.clone() }
    }
}

} // verus!
