//! A property graph held in memory: nodes and edges by number, and the
//! names under which the nodes were declared.

use crate::edge::Edge;
use crate::key::Key;
use crate::key_map::{has_key, lemma_put, lookup, KeyMap};
use crate::label_set::LabelSet;
use crate::node::Node;
use crate::pgs_error::{PgsError, PgsErrorView};
use crate::record::Record;
use std::collections::HashMap;
use crate::text::{decimal, decimal_string};
use vstd::prelude::*;
use vstd::string::*;

verus! {

broadcast use vstd::std_specs::hash::group_hash_axioms;

/// Simple representation of a property graph.
#[derive(Debug)]
pub struct PropertyGraph {
    nodes: HashMap<usize, Node>,
    edges: HashMap<usize, Edge>,
    label_names: KeyMap<usize>,
    node_id_counter: usize,
    edge_id_counter: usize,
}

impl PropertyGraph {
    /// The nodes, by number.
    pub closed spec fn nodes(&self) -> Map<usize, Node> {
        self.nodes@
    }

    /// The edges, by number.
    pub closed spec fn edges(&self) -> Map<usize, Edge> {
        self.edges@
    }

    /// The number of the node declared as `name`.
    pub closed spec fn number_of(&self, name: Seq<char>) -> Option<usize> {
        lookup(self.label_names.assoc(), name)
    }

    /// The number that the next node gets.
    pub closed spec fn next_node(&self) -> usize {
        self.node_id_counter
    }

    /// The number that the next edge gets.
    pub closed spec fn next_edge(&self) -> usize {
        self.edge_id_counter
    }

    /// The node declared as `name`: the node with the number that goes with
    /// the name, where there is one.
    pub open spec fn node_named(&self, name: Seq<char>) -> Option<Node> {
        match self.number_of(name) {
            Some(number) => if self.nodes().dom().contains(number) {
                Some(self.nodes()[number])
            } else {
                None
            },
            None => None,
        }
    }

    /// The names are kept in order and every node is in order.
    pub closed spec fn wf(&self) -> bool {
        &&& self.label_names.wf()
        &&& forall|number: usize| #[trigger]
            self.nodes@.dom().contains(number) ==> self.nodes@[number].wf()
    }

    /// Creates a new empty PropertyGraph.
    pub fn new() -> (graph: PropertyGraph)
        ensures
            graph.wf(),
            graph.nodes() == Map::<usize, Node>::empty(),
            graph.edges() == Map::<usize, Edge>::empty(),
            graph.next_node() == 0,
            graph.next_edge() == 0,
            forall|name: Seq<char>| graph.number_of(name) is None,
    {
        let graph = PropertyGraph {
            nodes: HashMap::new(),
            edges: HashMap::new(),
            label_names: KeyMap::new(),
            node_id_counter: 0,
            edge_id_counter: 0,
        };
        assert forall|name: Seq<char>| graph.number_of(name) is None by {
            assert(!has_key(graph.label_names.assoc(), name));
        }
        graph
    }

    /// The graph with `nodes` in place of its nodes.
    pub fn with_nodes(self, nodes: HashMap<usize, Node>) -> (graph: PropertyGraph)
        requires
            self.wf(),
            forall|number: usize| #[trigger] nodes@.dom().contains(number) ==> nodes@[number].wf(),
        ensures
            graph.wf(),
            graph.nodes() == nodes@,
            graph.edges() == self.edges(),
            graph.next_node() == self.next_node(),
            graph.next_edge() == self.next_edge(),
            forall|name: Seq<char>| graph.number_of(name) == self.number_of(name),
    {
        PropertyGraph {
            nodes,
            edges: self.edges,
            label_names: self.label_names,
            node_id_counter: self.node_id_counter,
            edge_id_counter: self.edge_id_counter,
        }
    }

    /// The graph with `edges` in place of its edges.
    pub fn with_edges(self, edges: HashMap<usize, Edge>) -> (graph: PropertyGraph)
        requires
            self.wf(),
        ensures
            graph.wf(),
            graph.nodes() == self.nodes(),
            graph.edges() == edges@,
            graph.next_node() == self.next_node(),
            graph.next_edge() == self.next_edge(),
            forall|name: Seq<char>| graph.number_of(name) == self.number_of(name),
    {
        PropertyGraph {
            nodes: self.nodes,
            edges,
            label_names: self.label_names,
            node_id_counter: self.node_id_counter,
            edge_id_counter: self.edge_id_counter,
        }
    }

    /// How many nodes have been added.
    pub fn node_count(&self) -> (count: usize)
        ensures
            count == self.next_node(),
    {
        self.node_id_counter
    }

    /// How many edges have been added.
    pub fn edge_count(&self) -> (count: usize)
        ensures
            count == self.next_edge(),
    {
        self.edge_id_counter
    }

    /// The node with the number `number`.
    pub fn get_node(&self, number: usize) -> (node: Option<&Node>)
        ensures
            match node {
                Some(node) => self.nodes().dom().contains(number) && *node == self.nodes()[number],
                None => !self.nodes().dom().contains(number),
            },
    {
        self.nodes.get(&number)
    }

    /// The edge with the number `number`.
    pub fn get_edge(&self, number: usize) -> (edge: Option<&Edge>)
        ensures
            match edge {
                Some(edge) => self.edges().dom().contains(number) && *edge == self.edges()[number],
                None => !self.edges().dom().contains(number),
            },
    {
        self.edges.get(&number)
    }

    /// The nodes with a number below `upto` as they are printed, in the
    /// order of their numbers, each on a line of its own.
    pub open spec fn render_nodes(&self, upto: int) -> Seq<char>
        decreases upto,
    {
        if upto <= 0 {
            Seq::empty()
        } else if self.nodes().dom().contains((upto - 1) as usize) {
            self.render_nodes(upto - 1) + "Node "@ + decimal((upto - 1) as nat) + ": "@
                + self.nodes()[(upto - 1) as usize].render() + "\n"@
        } else {
            self.render_nodes(upto - 1)
        }
    }

    /// The edges with a number below `upto` as they are printed, in the
    /// order of their numbers, each on a line of its own.
    pub open spec fn render_edges(&self, upto: int) -> Seq<char>
        decreases upto,
    {
        if upto <= 0 {
            Seq::empty()
        } else if self.edges().dom().contains((upto - 1) as usize) {
            self.render_edges(upto - 1) + "Edge "@ + decimal((upto - 1) as nat) + ": "@
                + self.edges()[(upto - 1) as usize].render() + "\n"@
        } else {
            self.render_edges(upto - 1)
        }
    }

    /// The graph as it is printed: the nodes that were added, then the
    /// edges that were added.
    pub open spec fn render(&self) -> Seq<char> {
        self.render_nodes(self.next_node() as int) + self.render_edges(self.next_edge() as int)
    }

    /// Writes the graph out.
    pub fn to_string(&self) -> (s: String)
        ensures
            s@ == self.render(),
    {
        let mut s = String::new();
        let mut i: usize = 0;
        while i < self.node_id_counter
            invariant
                i <= self.next_node(),
                s@ == self.render_nodes(i as int),
            decreases self.next_node() - i,
        {
            match self.nodes.get(&i) {
                Some(node) => {
                    s.append("Node ");
                    s.append(decimal_string(i as u64).as_str());
                    s.append(": ");
                    s.append(node.to_string().as_str());
                    s.append("\n");
                },
                None => {},
            }
            i += 1;
        }
        let ghost nodes = s@;
        let mut j: usize = 0;
        while j < self.edge_id_counter
            invariant
                j <= self.next_edge(),
                s@ == nodes + self.render_edges(j as int),
            decreases self.next_edge() - j,
        {
            match self.edges.get(&j) {
                Some(edge) => {
                    s.append("Edge ");
                    s.append(decimal_string(j as u64).as_str());
                    s.append(": ");
                    s.append(edge.to_string().as_str());
                    s.append("\n");
                },
                None => {},
            }
            j += 1;
        }
        s
    }

    /// Adds a node to the PropertyGraph. The node gets the next number, and
    /// `name_id` from now on names this node.
    pub fn add_node(&mut self, name_id: String, labels: LabelSet, record: Record)
        requires
            old(self).wf(),
            labels.wf(),
            record.wf(),
            old(self).next_node() < u32::MAX,
        ensures
            final(self).wf(),
            final(self).next_node() == old(self).next_node() + 1,
            final(self).next_edge() == old(self).next_edge(),
            final(self).edges() == old(self).edges(),
            final(self).nodes().dom() == old(self).nodes().dom().insert(old(self).next_node()),
            forall|number: usize|
                number != old(self).next_node() && old(self).nodes().dom().contains(number)
                    ==> #[trigger] final(self).nodes()[number] == old(self).nodes()[number],
            ({
                let node = final(self).nodes()[old(self).next_node()];
                &&& node.id.id == old(self).next_node()
                &&& node.label@ == labels@
                &&& node.properties@ == record@
            }),
            final(self).number_of(name_id@) == Some(old(self).next_node()),
            forall|name: Seq<char>|
                name != name_id@ ==> final(self).number_of(name) == old(self).number_of(name),
    {
        let id = self.node_id_counter;
        self.node_id_counter += 1;
        proof {
            lemma_put(self.label_names.assoc(), name_id@, id);
        }
        self.label_names.put(Key::new(name_id.as_str()), id);
        let node = Node::new(id as u32).with_labels(labels).with_content(&record);
        self.nodes.insert(id, node);
    }

    /// Adds an edge to the PropertyGraph, under the next number.
    pub fn add_edge(&mut self, edge: Edge)
        requires
            old(self).wf(),
            old(self).next_edge() < usize::MAX,
        ensures
            final(self).wf(),
            final(self).next_edge() == old(self).next_edge() + 1,
            final(self).next_node() == old(self).next_node(),
            final(self).nodes() == old(self).nodes(),
            final(self).edges() == old(self).edges().insert(old(self).next_edge(), edge),
            forall|name: Seq<char>| final(self).number_of(name) == old(self).number_of(name),
    {
        let id = self.edge_id_counter;
        self.edge_id_counter += 1;
        self.edges.insert(id, edge);
    }

    /// The node that was declared as `label`; a missing label where no node
    /// goes by that name.
    pub fn get_node_by_label(&self, label: &str) -> (found: Result<&Node, PgsError>)
        requires
            self.wf(),
        ensures
            match found {
                Ok(node) => self.node_named(label@) == Some(*node) && node.wf(),
                Err(e) => self.node_named(label@) is None && e@ == (PgsErrorView::MissingLabel {
                    label: label@,
                }),
            },
    {
        match self.label_names.get(&Key::new(label)) {
            Some(number) => match self.nodes.get(number) {
                Some(node) => Ok(node),
                None => Err(PgsError::MissingLabel { label: String::from_str(label) }),
            },
            None => Err(PgsError::MissingLabel { label: String::from_str(label) }),
        }
    }
}

} // verus!
