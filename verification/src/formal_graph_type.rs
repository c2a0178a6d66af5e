//! The schema: the types that it declares, by name, and the check of a
//! node or an edge against one of them.

use crate::edge::Edge;
use crate::evidence::Evidence;
use crate::key::Key;
use crate::key_map::{
    as_map, has_key, lemma_lookup_related, lemma_put, lemma_rank_from_mapped, lookup, position_of, put, rank, sorted, KeyMap,
};
use crate::label_property_spec::{compile, LabelPropertySpec, LabelPropertySpecView};
use crate::names::TypeName;
use crate::node::Node;
use crate::pgs_error::{PgsError, PgsErrorView};
use crate::record::RecordView;
use crate::verdict::{passed, reports, views};
use either::Either;
use vstd::prelude::*;
use vstd::string::*;

verus! {

/// What a schema stands for: a finite map from type names to type
/// expressions.
pub type RegistryView = Map<Seq<char>, LabelPropertySpecView>;

/// The types that a schema declares, by name.
#[derive(Debug)]
pub struct FormalGraphType {
    map: KeyMap<LabelPropertySpec>,
}

/// What the check of an entity against the type declared as `name`
/// reports: the failure of compiling the type, or what the compiled type
/// reports of the entity.
pub open spec fn check(
    registry: RegistryView,
    name: Seq<char>,
    labels: Set<Seq<char>>,
    record: RecordView,
) -> Seq<PgsErrorView> {
    match compile(LabelPropertySpecView::Ref(name), registry, Set::empty()) {
        Err(e) => seq![e.lift()],
        Ok(compiled) => compiled.failures(labels, record),
    }
}

/// Whether an entity belongs to the type declared as `name`: the type
/// compiles, the labels of the entity are exactly the labels of the type,
/// and one of its alternatives has the shape of the entity's record.
pub open spec fn belongs(
    registry: RegistryView,
    name: Seq<char>,
    labels: Set<Seq<char>>,
    record: RecordView,
) -> bool {
    match compile(LabelPropertySpecView::Ref(name), registry, Set::empty()) {
        Err(_) => false,
        Ok(compiled) => compiled.accepts(labels, record),
    }
}

/// The check reports nothing exactly of the entities that belong to the
/// type.
pub proof fn lemma_check(
    registry: RegistryView,
    name: Seq<char>,
    labels: Set<Seq<char>>,
    record: RecordView,
)
    ensures
        belongs(registry, name, labels, record) <==> check(registry, name, labels, record).len()
            == 0,
{
}

impl View for FormalGraphType {
    type V = RegistryView;

    closed spec fn view(&self) -> RegistryView {
        as_map(self.entries())
    }
}

impl FormalGraphType {
    /// The declarations, in the order of their names.
    pub closed spec fn entries(&self) -> Seq<(Seq<char>, LabelPropertySpecView)> {
        self.map.assoc().map_values(|e: (Seq<char>, LabelPropertySpec)| (e.0, e.1@))
    }

    /// No name is declared twice.
    pub closed spec fn wf(&self) -> bool {
        self.map.wf()
    }

    proof fn lemma_related(&self)
        requires
            self.wf(),
        ensures
            sorted(self.entries()),
            self.entries().len() == self.map.assoc().len(),
            forall|i: int|
                0 <= i < self.entries().len() ==> (#[trigger] self.map.assoc()[i]).0
                    == self.entries()[i].0,
            forall|i: int|
                0 <= i < self.entries().len() ==> (#[trigger] self.entries()[i]).1
                    == self.map.assoc()[i].1@,
    {
        lemma_lookup_related(self.map.assoc(), self.entries(), Seq::empty());
    }

    /// A schema declares finitely many types.
    pub proof fn lemma_finite(&self)
        ensures
            self@.dom().finite(),
    {
        let entries = self.entries();
        let names = entries.map_values(|e: (Seq<char>, LabelPropertySpecView)| e.0);
        vstd::seq_lib::seq_to_set_is_finite(names);
        assert forall|name: Seq<char>| self@.dom().contains(name) implies names.to_set().contains(
            name,
        ) by {
            let p = position_of(entries, name);
            assert(names[p] == name);
        }
        vstd::set_lib::lemma_len_subset(self@.dom(), names.to_set());
    }

    /// The schema that declares nothing.
    pub fn new() -> (schema: FormalGraphType)
        ensures
            schema.wf(),
            schema@ == RegistryView::empty(),
    {
        let schema = FormalGraphType { map: KeyMap::new() };
        assert(schema.entries() =~= Seq::<(Seq<char>, LabelPropertySpecView)>::empty());
        assert(schema@ =~= RegistryView::empty());
        schema
    }

    /// The schema that also declares `label_property_spec` under `name`.
    pub fn with_type_name(self, name: &str, label_property_spec: LabelPropertySpec) -> (schema:
        FormalGraphType)
        requires
            self.wf(),
        ensures
            schema.wf(),
            schema@ == self@.insert(name@, label_property_spec@),
    {
        let mut schema = self;
        schema.add(name, label_property_spec);
        schema
    }

    /// Declares `label_property_spec` under `name`, in place of what was
    /// declared under it.
    pub fn add(&mut self, name: &str, label_property_spec: LabelPropertySpec)
        requires
            old(self).wf(),
        ensures
            final(self).wf(),
            final(self)@ == old(self)@.insert(name@, label_property_spec@),
    {
        proof {
            self.lemma_related();
            lemma_rank_from_mapped(self.map.assoc(), self.entries(), name@, 0);
            crate::key_map::lemma_rank(self.map.assoc(), name@);
            lemma_put(self.entries(), name@, label_property_spec@);
        }
        self.map.put(Key::new(name), label_property_spec);
        proof {
            let before = old(self).map.assoc();
            let target = put(old(self).entries(), name@, label_property_spec@);
            let at = rank(before, name@);
            if at < before.len() {
                assert(old(self).entries()[at].0 == before[at].0);
            }
            assert(self.entries().len() == target.len());
            assert forall|i: int| 0 <= i < target.len() implies self.entries()[i] == target[i] by {
                let replaced = at < before.len() && before[at].0 == name@;
                if i != at {
                    let o = if replaced || i < at {
                        i
                    } else {
                        i - 1
                    };
                    assert(self.map.assoc()[i] == before[o]);
                    assert(target[i] == old(self).entries()[o]);
                }
            }
            assert(self.entries() =~= target);
            assert forall|other: Seq<char>| #[trigger]
                self@.dom().contains(other) <==> old(self)@.insert(
                    name@,
                    label_property_spec@,
                ).dom().contains(other) by {
                assert(has_key(target, other) <==> (other == name@ || has_key(
                    old(self).entries(),
                    other,
                )));
            }
            assert forall|other: Seq<char>| #[trigger] self@.dom().contains(other) implies self@[other]
                == old(self)@.insert(name@, label_property_spec@)[other] by {
                if other != name@ {
                    assert(lookup(target, other) == lookup(old(self).entries(), other));
                }
            }
            assert(self@ =~= old(self)@.insert(name@, label_property_spec@));
        }
    }

    /// The number of declared types.
    pub fn len(&self) -> (n: usize)
        ensures
            n == self.entries().len(),
    {
        self.map.len()
    }

    /// The name of the declaration at position `index`, counted in the
    /// order of the names.
    pub fn name_at(&self, index: usize) -> (name: &str)
        requires
            index < self.entries().len(),
        ensures
            name@ == self.entries()[index as int].0,
    {
        self.map.key_at(index).str()
    }

    /// The type expression of the declaration at position `index`.
    pub fn spec_at(&self, index: usize) -> (spec: &LabelPropertySpec)
        requires
            index < self.entries().len(),
        ensures
            spec@ == self.entries()[index as int].1,
    {
        self.map.value_at(index)
    }

    /// The first `upto` declarations as they are printed, in the order of
    /// their names, each on a line of its own: the name, a colon, the type
    /// expression.
    pub open spec fn render_upto(&self, upto: int) -> Seq<char>
        decreases upto,
    {
        if upto <= 0 {
            Seq::empty()
        } else {
            self.render_upto(upto - 1) + self.entries()[upto - 1].0 + ": "@ + self.entries()[upto
                - 1].1.render() + "\n"@
        }
    }

    /// The schema as it is printed.
    pub open spec fn render(&self) -> Seq<char> {
        self.render_upto(self.entries().len() as int)
    }

    /// Writes the schema out.
    pub fn to_string(&self) -> (s: String)
        ensures
            s@ == self.render(),
    {
        let mut s = String::new();
        let mut i: usize = 0;
        while i < self.len()
            invariant
                i <= self.entries().len(),
                s@ == self.render_upto(i as int),
            decreases self.entries().len() - i,
        {
            s.append(self.name_at(i));
            s.append(": ");
            s.append(self.spec_at(i).to_string().as_str());
            s.append("\n");
            i += 1;
        }
        s
    }

    /// What the schema declares under `name`.
    pub fn get(&self, name: &str) -> (declared: Option<&LabelPropertySpec>)
        requires
            self.wf(),
        ensures
            match declared {
                Some(spec) => self@.dom().contains(name@) && self@[name@] == spec@,
                None => !self@.dom().contains(name@),
            },
    {
        proof {
            self.lemma_related();
            lemma_lookup_related(self.map.assoc(), self.entries(), name@);
        }
        self.map.get(&Key::new(name))
    }

    /// Checks a node against the type that the schema declares as `name`.
    ///
    /// The verdict is a pass exactly where the node belongs to the type,
    /// and else lists the failures that [`check`] names: a missing type
    /// where the schema declares nothing under the name.
    pub fn conforms_node(&self, name: &TypeName, node: &Node) -> (verdict: Either<
        Vec<PgsError>,
        Vec<Evidence>,
    >)
        requires
            self.wf(),
            node.wf(),
        ensures
            reports(verdict, check(self@, name@, node.label@, node.properties@)),
            passed(verdict) <==> belongs(self@, name@, node.label@, node.properties@),
            verdict is Left <==> !belongs(self@, name@, node.label@, node.properties@),
    {
        match LabelPropertySpec::Ref(name.clone()).semantics(self) {
            Ok(base_type) => base_type.conforms(node.labels(), node.content()),
            Err(e) => {
                let failures = vec![PgsError::from_semantics(&e)];
                assert(views(failures@) =~= seq![e@.lift()]);
                Either::Left(failures)
            },
        }
    }

    /// Checks an edge against the type that the schema declares as `name`.
    ///
    /// The verdict is a pass exactly where the edge belongs to the type,
    /// and else lists the failures that [`check`] names.
    pub fn conforms_edge(&self, name: &TypeName, edge: &Edge) -> (verdict: Either<
        Vec<PgsError>,
        Vec<Evidence>,
    >)
        requires
            self.wf(),
            edge.wf(),
        ensures
            reports(verdict, check(self@, name@, edge.label@, edge.properties@)),
            passed(verdict) <==> belongs(self@, name@, edge.label@, edge.properties@),
            verdict is Left <==> !belongs(self@, name@, edge.label@, edge.properties@),
    {
        match LabelPropertySpec::Ref(name.clone()).semantics(self) {
            Ok(base_type) => base_type.conforms(edge.labels(), edge.content()),
            Err(e) => {
                let failures = vec![PgsError::from_semantics(&e)];
                assert(views(failures@) =~= seq![e@.lift()]);
                Either::Left(failures)
            },
        }
    }
}

} // verus!
