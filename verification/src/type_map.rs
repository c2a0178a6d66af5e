//! Which node is to be checked against which type.

use crate::formal_graph_type::{check, FormalGraphType, RegistryView};
use crate::pg::PropertyGraph;
use crate::pgs_error::PgsErrorView;
use crate::validation_result::{ResultAssociation, ValidationResult};
use crate::verdict::{passed, reports, views};
use either::Either;
use vstd::prelude::*;
use vstd::string::*;

verus! {

/// The association of a node, by its name, with a type, by its name.
#[derive(Debug)]
pub struct Association {
    node_id: String,
    declared_type: String,
}

impl Association {
    /// The name of the node.
    pub closed spec fn node_name(&self) -> Seq<char> {
        self.node_id@
    }

    /// The name of the type.
    pub closed spec fn type_label(&self) -> Seq<char> {
        self.declared_type@
    }

    pub fn new(node_id: String, declared_type: String) -> (association: Association)
        ensures
            association.node_name() == node_id@,
            association.type_label() == declared_type@,
    {
        Association { node_id, declared_type }
    }

    /// The association as it is printed: the two names with a colon
    /// between them and a comma behind them.
    pub open spec fn render(&self) -> Seq<char> {
        self.node_name() + ":"@ + self.type_label() + ","@
    }

    /// Writes the association out.
    pub fn to_string(&self) -> (s: String)
        ensures
            s@ == self.render(),
    {
        let mut s = self.node_id.clone();
        s.append(":");
        s.append(self.declared_type.as_str());
        s.append(",");
        s
    }

    pub fn node_id(&self) -> (name: &String)
        ensures
            name@ == self.node_name(),
    {
        &self.node_id
    }

    pub fn declared_type(&self) -> (name: &String)
        ensures
            name@ == self.type_label(),
    {
        &self.declared_type
    }
}

/// Defines associations between node IDs and type names that can be used to
/// trigger validation.
#[derive(Debug)]
pub struct TypeMap {
    associations: Vec<Association>,
}

/// What the check of the node named `node` against the type named
/// `declared` reports: a missing label where the graph has no such node,
/// and else what the schema reports of the node.
pub open spec fn outcome(
    schema: RegistryView,
    graph: &PropertyGraph,
    node: Seq<char>,
    declared: Seq<char>,
) -> Seq<PgsErrorView> {
    match graph.node_named(node) {
        None => seq![PgsErrorView::MissingLabel { label: node }],
        Some(found) => check(schema, declared, found.label@, found.properties@),
    }
}

/// Whether `result` is the outcome for `association`: it names the node and
/// the type, it carries what the check reports, and it is positive exactly
/// where the check reports nothing.
pub open spec fn answers(
    result: ResultAssociation,
    association: Association,
    schema: RegistryView,
    graph: &PropertyGraph,
) -> bool {
    &&& result.node_id@ == association.node_name()
    &&& result.declared_type@ == association.type_label()
    &&& reports(
        result.details,
        outcome(schema, graph, association.node_name(), association.type_label()),
    )
    &&& result.conforms == passed(result.details)
    &&& result.conforms == (outcome(
        schema,
        graph,
        association.node_name(),
        association.type_label(),
    ).len() == 0)
}

impl TypeMap {
    /// The associations, in order.
    pub closed spec fn associations(&self) -> Seq<Association> {
        self.associations@
    }

    pub fn new() -> (map: TypeMap)
        ensures
            map.associations() == Seq::<Association>::empty(),
    {
        TypeMap { associations: Vec::new() }
    }

    /// The first `upto` associations as they are printed, each on a line of
    /// its own.
    pub open spec fn render_upto(&self, upto: int) -> Seq<char>
        decreases upto,
    {
        if upto <= 0 {
            Seq::empty()
        } else {
            self.render_upto(upto - 1) + "  "@ + self.associations()[upto - 1].render() + "\n"@
        }
    }

    /// The type map as it is printed.
    pub open spec fn render(&self) -> Seq<char> {
        self.render_upto(self.associations().len() as int)
    }

    /// Writes the type map out.
    pub fn to_string(&self) -> (s: String)
        ensures
            s@ == self.render(),
    {
        let mut s = String::new();
        let mut i: usize = 0;
        while i < self.associations.len()
            invariant
                i <= self.associations().len(),
                s@ == self.render_upto(i as int),
            decreases self.associations().len() - i,
        {
            s.append("  ");
            s.append(self.associations[i].to_string().as_str());
            s.append("\n");
            i += 1;
        }
        s
    }

    /// The number of associations.
    pub fn len(&self) -> (n: usize)
        ensures
            n == self.associations().len(),
    {
        self.associations.len()
    }

    /// The association at position `index`.
    pub fn get(&self, index: usize) -> (association: &Association)
        requires
            index < self.associations().len(),
        ensures
            *association == self.associations()[index as int],
    {
        &self.associations[index]
    }

    pub fn add_association(&mut self, association: Association)
        ensures
            final(self).associations() == old(self).associations().push(association),
    {
        self.associations.push(association);
    }

    /// Checks one association.
    pub fn validate_one(association: &Association, schema: &FormalGraphType, graph: &PropertyGraph) -> (result: ResultAssociation)
        requires
            schema.wf(),
            graph.wf(),
        ensures
            answers(result, *association, schema@, graph),
    {
        let node_id = association.node_id();
        let declared = association.declared_type();
        let details = match graph.get_node_by_label(node_id.as_str()) {
            Ok(node) => {
                let verdict = schema.conforms_node(declared, node);
                proof {
                    crate::formal_graph_type::lemma_check(
                        schema@,
                        declared@,
                        node.label@,
                        node.properties@,
                    );
                }
                verdict
            },
            Err(e) => {
                let failures = vec![e];
                assert(views(failures@) =~= seq![PgsErrorView::MissingLabel { label: node_id@ }]);
                Either::Left(failures)
            },
        };
        ResultAssociation {
            node_id: node_id.clone(),
            declared_type: declared.clone(),
            conforms: details.is_right(),
            details,
        }
    }

    /// Checks every association against `schema` and `graph`, one after the
    /// other.
    ///
    /// The report holds one outcome for each association, in their order,
    /// whatever the outcomes before it: a node that the graph lacks, or
    /// that does not belong to its type, gives a negative outcome and
    /// nothing more.
    pub fn validate(&self, schema: &FormalGraphType, graph: &PropertyGraph) -> (report: ValidationResult)
        requires
            schema.wf(),
            graph.wf(),
        ensures
            report.wf(),
            report.associations@.len() == self.associations().len(),
            forall|i: int|
                0 <= i < self.associations().len() ==> answers(
                    #[trigger] report.associations@[i],
                    self.associations()[i],
                    schema@,
                    graph,
                ),
    {
        let mut result = ValidationResult::new();
        let mut i: usize = 0;
        while i < self.associations.len()
            invariant
                i <= self.associations@.len(),
                schema.wf(),
                graph.wf(),
                result.wf(),
                result.associations@.len() == i,
                forall|j: int|
                    0 <= j < i ==> answers(
                        #[trigger] result.associations@[j],
                        self.associations()[j],
                        schema@,
                        graph,
                    ),
            decreases self.associations@.len() - i,
        {
            let outcome = TypeMap::validate_one(&self.associations[i], schema, graph);
            result.add_association(outcome);
            i += 1;
        }
        result
    }
}

} // verus!
