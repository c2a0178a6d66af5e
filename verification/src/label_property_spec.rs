//! The expressions by which a schema describes a type: labels, references
//! to named types, and their combinations.

use crate::formal_base_type::{FormalBaseType, FormalBaseTypeView};
use crate::formal_graph_type::{FormalGraphType, RegistryView};
use crate::label_set::LabelSet;
use crate::names::{Name, TypeName};
use crate::property_value_spec::{PropertyValueSpec, PropertyValueSpecView};
use crate::semantics_error::{SemanticsError, SemanticsErrorView};
use vstd::prelude::*;
use vstd::string::*;

verus! {

/// A type expression.
#[derive(Debug)]
pub enum LabelPropertySpec {
    /// No label and no property.
    Empty,
    /// The entities that carry this label.
    Label(Name),
    /// The type that the schema declares under this name.
    Ref(TypeName),
    /// The type, or nothing at all.
    Optional(Box<LabelPropertySpec>),
    /// Both types at once.
    And(Box<LabelPropertySpec>, Box<LabelPropertySpec>),
    /// One type or the other.
    Or(Box<LabelPropertySpec>, Box<LabelPropertySpec>),
    /// The type, open to properties that it does not declare.
    Open(Box<LabelPropertySpec>),
    /// The type together with a property shape.
    Content(Box<LabelPropertySpec>, PropertyValueSpec),
}

/// What a [`LabelPropertySpec`] stands for.
pub ghost enum LabelPropertySpecView {
    Empty,
    Label(Seq<char>),
    Ref(Seq<char>),
    Optional(Box<LabelPropertySpecView>),
    And(Box<LabelPropertySpecView>, Box<LabelPropertySpecView>),
    Or(Box<LabelPropertySpecView>, Box<LabelPropertySpecView>),
    Open(Box<LabelPropertySpecView>),
    Content(Box<LabelPropertySpecView>, PropertyValueSpecView),
}

impl View for LabelPropertySpec {
    type V = LabelPropertySpecView;

    open spec fn view(&self) -> LabelPropertySpecView
        decreases self,
    {
        match self {
            LabelPropertySpec::Empty => LabelPropertySpecView::Empty,
            LabelPropertySpec::Label(label) => LabelPropertySpecView::Label(label@),
            LabelPropertySpec::Ref(name) => LabelPropertySpecView::Ref(name@),
            LabelPropertySpec::Optional(a) => LabelPropertySpecView::Optional(
                Box::new((**a).view()),
            ),
            LabelPropertySpec::And(a, b) => LabelPropertySpecView::And(
                Box::new((**a).view()),
                Box::new((**b).view()),
            ),
            LabelPropertySpec::Or(a, b) => LabelPropertySpecView::Or(
                Box::new((**a).view()),
                Box::new((**b).view()),
            ),
            LabelPropertySpec::Open(a) => LabelPropertySpecView::Open(Box::new((**a).view())),
            LabelPropertySpec::Content(a, shape) => LabelPropertySpecView::Content(
                Box::new((**a).view()),
                shape@,
            ),
        }
    }
}

impl LabelPropertySpecView {
    /// The expression as it is printed: a label behind a colon, a reference
    /// by its name, an optional expression with a question mark behind it,
    /// "and" as `&`, "or" as `|`, and a property shape behind what it is
    /// joined to.
    pub open spec fn render(self) -> Seq<char>
        decreases self,
    {
        match self {
            LabelPropertySpecView::Empty => "()"@,
            LabelPropertySpecView::Label(label) => ":"@ + label,
            LabelPropertySpecView::Ref(name) => name,
            LabelPropertySpecView::Optional(a) => a.render() + "?"@,
            LabelPropertySpecView::And(a, b) => "("@ + a.render() + " & "@ + b.render() + ")"@,
            LabelPropertySpecView::Or(a, b) => "("@ + a.render() + " | "@ + b.render() + ")"@,
            LabelPropertySpecView::Open(a) => "OPEN "@ + a.render(),
            LabelPropertySpecView::Content(a, shape) => a.render() + " "@ + shape.render(),
        }
    }
}

/// The result of compiling two expressions and joining what they mean,
/// where the failure of the first comes before that of the second.
pub open spec fn join_compiled(
    first: Result<FormalBaseTypeView, SemanticsErrorView>,
    second: Result<FormalBaseTypeView, SemanticsErrorView>,
    conjunction: bool,
) -> Result<FormalBaseTypeView, SemanticsErrorView> {
    match first {
        Err(e) => Err(e),
        Ok(a) => match second {
            Err(e) => Err(e),
            Ok(b) => Ok(
                if conjunction {
                    a.combine(b)
                } else {
                    a.union(b)
                },
            ),
        },
    }
}

/// The meaning of a type expression under a schema.
///
/// A label means the entities with that label and no properties. A
/// reference means what the schema declares under the name; it fails where
/// the schema declares nothing under it, and where the name is among
/// `visiting`, the names whose declarations are being compiled: the
/// declaration then refers back to itself. "Optional" is the disjunction
/// with the unit type, "and" the conjunction, "or" the disjunction, "open"
/// lets undeclared keys through, and a property shape is joined to its
/// expression by conjunction. The first failure met, from left to right,
/// is the failure of the whole.
pub open spec fn compile(
    spec: LabelPropertySpecView,
    registry: RegistryView,
    visiting: Set<Seq<char>>,
) -> Result<FormalBaseTypeView, SemanticsErrorView>
    decreases registry.dom().difference(visiting).len(), spec,
    when registry.dom().finite()
    via compile_decreases
{
    match spec {
        LabelPropertySpecView::Empty => Ok(FormalBaseTypeView::type_0()),
        LabelPropertySpecView::Label(label) => Ok(FormalBaseTypeView::of_label(label)),
        LabelPropertySpecView::Ref(name) => {
            if !registry.dom().contains(name) {
                Err(SemanticsErrorView::MissingType(name))
            } else if visiting.contains(name) {
                Err(SemanticsErrorView::CyclicType(name))
            } else {
                compile(registry[name], registry, visiting.insert(name))
            }
        },
        LabelPropertySpecView::Optional(a) => join_compiled(
            compile(*a, registry, visiting),
            Ok(FormalBaseTypeView::type_0()),
            false,
        ),
        LabelPropertySpecView::And(a, b) => join_compiled(
            compile(*a, registry, visiting),
            compile(*b, registry, visiting),
            true,
        ),
        LabelPropertySpecView::Or(a, b) => join_compiled(
            compile(*a, registry, visiting),
            compile(*b, registry, visiting),
            false,
        ),
        LabelPropertySpecView::Open(a) => match compile(*a, registry, visiting) {
            Err(e) => Err(e),
            Ok(t) => Ok(FormalBaseTypeView { open: true, ..t }),
        },
        LabelPropertySpecView::Content(a, shape) => join_compiled(
            compile(*a, registry, visiting),
            Ok(shape.meaning()),
            true,
        ),
    }
}

#[via_fn]
proof fn compile_decreases(
    spec: LabelPropertySpecView,
    registry: RegistryView,
    visiting: Set<Seq<char>>,
) {
    match spec {
        LabelPropertySpecView::Ref(name) => {
            if registry.dom().contains(name) && !visiting.contains(name) {
                lemma_fewer_left(registry.dom(), visiting, name);
            }
        },
        _ => {},
    }
}

/// Visiting one more name of a finite set leaves fewer names to visit.
pub proof fn lemma_fewer_left(all: Set<Seq<char>>, visiting: Set<Seq<char>>, name: Seq<char>)
    requires
        all.finite(),
        all.contains(name),
        !visiting.contains(name),
    ensures
        all.difference(visiting.insert(name)).len() < all.difference(visiting).len(),
{
    let left = all.difference(visiting);
    assert(left.contains(name));
    assert(all.difference(visiting.insert(name)) =~= left.remove(name));
}

/// Whether `compiled` is `expected`: the type that it stands for, or the
/// failure.
pub open spec fn compiled_as(
    compiled: Result<FormalBaseType, SemanticsError>,
    expected: Result<FormalBaseTypeView, SemanticsErrorView>,
) -> bool {
    match (compiled, expected) {
        (Ok(t), Ok(v)) => t.wf() && t@ == v,
        (Err(e), Err(v)) => e@ == v,
        _ => false,
    }
}

impl LabelPropertySpec {
    /// The expression without label and property.
    pub fn new() -> (spec: LabelPropertySpec)
        ensures
            spec@ == LabelPropertySpecView::Empty,
    {
        LabelPropertySpec::Empty
    }

    pub fn label(label: Name) -> (spec: LabelPropertySpec)
        ensures
            spec@ == LabelPropertySpecView::Label(label@),
    {
        LabelPropertySpec::Label(label)
    }

    pub fn optional(label_property_spec: LabelPropertySpec) -> (spec: LabelPropertySpec)
        ensures
            spec@ == LabelPropertySpecView::Optional(Box::new(label_property_spec@)),
    {
        LabelPropertySpec::Optional(Box::new(label_property_spec))
    }

    pub fn and(
        label_property_spec: LabelPropertySpec,
        label_property_spec1: LabelPropertySpec,
    ) -> (spec: LabelPropertySpec)
        ensures
            spec@ == LabelPropertySpecView::And(
                Box::new(label_property_spec@),
                Box::new(label_property_spec1@),
            ),
    {
        LabelPropertySpec::And(Box::new(label_property_spec), Box::new(label_property_spec1))
    }

    pub fn or(
        label_property_spec: LabelPropertySpec,
        label_property_spec1: LabelPropertySpec,
    ) -> (spec: LabelPropertySpec)
        ensures
            spec@ == LabelPropertySpecView::Or(
                Box::new(label_property_spec@),
                Box::new(label_property_spec1@),
            ),
    {
        LabelPropertySpec::Or(Box::new(label_property_spec), Box::new(label_property_spec1))
    }

    pub fn open(label_property_spec: LabelPropertySpec) -> (spec: LabelPropertySpec)
        ensures
            spec@ == LabelPropertySpecView::Open(Box::new(label_property_spec@)),
    {
        LabelPropertySpec::Open(Box::new(label_property_spec))
    }

    pub fn ref_(name: TypeName) -> (spec: LabelPropertySpec)
        ensures
            spec@ == LabelPropertySpecView::Ref(name@),
    {
        LabelPropertySpec::Ref(name)
    }

    pub fn content(
        label_property_spec: LabelPropertySpec,
        property_value_spec: PropertyValueSpec,
    ) -> (spec: LabelPropertySpec)
        ensures
            spec@ == LabelPropertySpecView::Content(
                Box::new(label_property_spec@),
                property_value_spec@,
            ),
    {
        LabelPropertySpec::Content(Box::new(label_property_spec), property_value_spec)
    }

    /// Writes the expression out.
    pub fn to_string(&self) -> (s: String)
        ensures
            s@ == self@.render(),
        decreases self,
    {
        match self {
            LabelPropertySpec::Empty => String::from_str("()"),
            LabelPropertySpec::Label(label) => {
                let mut s = String::from_str(":");
                s.append(label.as_str());
                s
            },
            LabelPropertySpec::Ref(name) => name.clone(),
            LabelPropertySpec::Optional(a) => {
                let mut s = a.to_string();
                s.append("?");
                s
            },
            LabelPropertySpec::And(a, b) => {
                let mut s = String::from_str("(");
                s.append(a.to_string().as_str());
                s.append(" & ");
                s.append(b.to_string().as_str());
                s.append(")");
                s
            },
            LabelPropertySpec::Or(a, b) => {
                let mut s = String::from_str("(");
                s.append(a.to_string().as_str());
                s.append(" | ");
                s.append(b.to_string().as_str());
                s.append(")");
                s
            },
            LabelPropertySpec::Open(a) => {
                let mut s = String::from_str("OPEN ");
                s.append(a.to_string().as_str());
                s
            },
            LabelPropertySpec::Content(a, shape) => {
                let mut s = a.to_string();
                s.append(" ");
                s.append(shape.to_string().as_str());
                s
            },
        }
    }

    /// Compiles the expression under the schema `graph_type`.
    ///
    /// The result is the type that [`compile`] gives, or the failure that
    /// it gives: a missing type for a name that the schema does not
    /// declare, a cyclic type for a declaration that refers back to itself.
    pub fn semantics(&self, graph_type: &FormalGraphType) -> (compiled: Result<
        FormalBaseType,
        SemanticsError,
    >)
        requires
            graph_type.wf(),
        ensures
            compiled_as(compiled, compile(self@, graph_type@, Set::empty())),
    {
        let visiting = LabelSet::new();
        self.semantics_within(graph_type, &visiting)
    }

    /// Compiles the expression while the declarations of the names in
    /// `visiting` are being compiled.
    pub fn semantics_within(&self, graph_type: &FormalGraphType, visiting: &LabelSet) -> (compiled:
        Result<FormalBaseType, SemanticsError>)
        requires
            graph_type.wf(),
            visiting.wf(),
        ensures
            compiled_as(compiled, compile(self@, graph_type@, visiting@)),
        decreases graph_type@.dom().difference(visiting@).len(), self,
    {
        proof {
            graph_type.lemma_finite();
        }
        match self {
            LabelPropertySpec::Empty => Ok(FormalBaseType::type_0()),
            LabelPropertySpec::Label(label) => Ok(FormalBaseType::from_label(label.clone())),
            LabelPropertySpec::Ref(name) => {
                match graph_type.get(name.as_str()) {
                    None => Err(SemanticsError::MissingType(name.clone())),
                    Some(label_property_spec) => {
                        if visiting.contains(name.as_str()) {
                            Err(SemanticsError::CyclicType(name.clone()))
                        } else {
                            let deeper = visiting.clone().with_label(name.as_str());
                            proof {
                                lemma_fewer_left(graph_type@.dom(), visiting@, name@);
                            }
                            label_property_spec.semantics_within(graph_type, &deeper)
                        }
                    },
                }
            },
            LabelPropertySpec::Optional(label_property_spec) => {
                match label_property_spec.semantics_within(graph_type, visiting) {
                    Err(e) => Err(e),
                    Ok(base_type) => Ok(base_type.union(&FormalBaseType::type_0())),
                }
            },
            LabelPropertySpec::And(label_property_spec, label_property_spec1) => {
                match label_property_spec.semantics_within(graph_type, visiting) {
                    Err(e) => Err(e),
                    Ok(base_type) => match label_property_spec1.semantics_within(
                        graph_type,
                        visiting,
                    ) {
                        Err(e) => Err(e),
                        Ok(base_type1) => Ok(base_type.combine(&base_type1)),
                    },
                }
            },
            LabelPropertySpec::Or(label_property_spec, label_property_spec1) => {
                match label_property_spec.semantics_within(graph_type, visiting) {
                    Err(e) => Err(e),
                    Ok(base_type) => match label_property_spec1.semantics_within(
                        graph_type,
                        visiting,
                    ) {
                        Err(e) => Err(e),
                        Ok(base_type1) => Ok(base_type.union(&base_type1)),
                    },
                }
            },
            LabelPropertySpec::Open(label_property_spec) => {
                match label_property_spec.semantics_within(graph_type, visiting) {
                    Err(e) => Err(e),
                    Ok(base_type) => Ok(base_type.with_open()),
                }
            },
            LabelPropertySpec::Content(label_property_spec, property_value_spec) => {
                match label_property_spec.semantics_within(graph_type, visiting) {
                    Err(e) => Err(e),
                    Ok(base_type) => match property_value_spec.semantics() {
                        Err(e) => Err(e),
                        Ok(property_value_semantics) => Ok(
                            base_type.combine(&property_value_semantics),
                        ),
                    },
                }
            },
        }
    }
}

impl Clone for LabelPropertySpec {
    fn clone(&self) -> (r: LabelPropertySpec)
        ensures
            r@ == self@,
        decreases self,
    {
        match self {
            LabelPropertySpec::Empty => LabelPropertySpec::Empty,
            LabelPropertySpec::Label(label) => LabelPropertySpec::Label(label.clone()),
            LabelPropertySpec::Ref(name) => LabelPropertySpec::Ref(name.clone()),
            LabelPropertySpec::Optional(a) => LabelPropertySpec::Optional(
                Box::new((**a).clone()),
            ),
            LabelPropertySpec::And(a, b) => LabelPropertySpec::And(
                Box::new((**a).clone()),
                Box::new((**b).clone()),
            ),
            LabelPropertySpec::Or(a, b) => LabelPropertySpec::Or(
                Box::new((**a).clone()),
                Box::new((**b).clone()),
            ),
            LabelPropertySpec::Open(a) => LabelPropertySpec::Open(Box::new((**a).clone())),
            LabelPropertySpec::Content(a, shape) => LabelPropertySpec::Content(
                Box::new((**a).clone()),
                shape.clone(),
            ),
        }
    }
}

} // verus!
