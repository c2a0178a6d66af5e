//! Formal base types: what a schema type means once it is compiled, a set
//! of labels and a set of alternative record types.

use crate::distinct::merged;
use crate::evidence::Evidence;
use crate::label_set::{names_of, render_labels, LabelSet};
use crate::names::Name;
use crate::pgs_error::{lift_all, PgsError, PgsErrorView};
use crate::record::{render_record, Record, RecordView};
use crate::record_type::{record_accepts, record_failures, RecordType, RecordTypeView};
use crate::record_type_set::{alternatives_wf, crossed, render_alternatives, RecordTypeSet};
use crate::verdict::{pass, passed, reports, views};
use either::Either;
use vstd::prelude::*;
use vstd::std_specs::cmp::PartialEqSpecImpl;
use vstd::string::*;

verus! {

/// The compiled meaning of a schema type.
///
/// An entity belongs to the type where its labels are exactly the labels of
/// the type and its record has the shape of one of the alternatives. The
/// alternatives are checked openly where `open` is set: the record may then
/// hold keys that the alternative does not declare.
#[derive(Debug)]
pub struct FormalBaseType {
    labels: LabelSet,
    content: RecordTypeSet,
    open: bool,
}

/// What a [`FormalBaseType`] stands for.
pub ghost struct FormalBaseTypeView {
    /// The labels of the type.
    pub labels: Set<Seq<char>>,
    /// The alternatives, none twice, in the order in which they are tried.
    pub content: Seq<RecordTypeView>,
    /// Whether undeclared keys are let through.
    pub open: bool,
}

/// What the alternatives before `upto` report of `record`, one after the
/// other.
pub open spec fn reasons_upto(
    content: Seq<RecordTypeView>,
    record: RecordView,
    open: bool,
    upto: int,
) -> Seq<PgsErrorView>
    decreases upto,
{
    if upto <= 0 {
        Seq::empty()
    } else {
        reasons_upto(content, record, open, upto - 1) + lift_all(
            record_failures(content[upto - 1], record, open),
        )
    }
}

impl FormalBaseTypeView {
    /// The labels are finitely many, no alternative occurs twice, and each
    /// alternative is in order.
    pub open spec fn wf(self) -> bool {
        &&& self.labels.finite()
        &&& alternatives_wf(self.content)
    }

    /// The unit of the algebra: no label, and the one alternative that
    /// declares nothing.
    pub open spec fn type_0() -> FormalBaseTypeView {
        FormalBaseTypeView {
            labels: Set::empty(),
            content: seq![RecordTypeView::empty()],
            open: false,
        }
    }

    /// The type of the entities that carry `label` and nothing else.
    pub open spec fn of_label(label: Seq<char>) -> FormalBaseTypeView {
        FormalBaseTypeView {
            labels: Set::empty().insert(label),
            content: seq![RecordTypeView::empty()],
            open: false,
        }
    }

    /// The disjunction of two types: the labels of both, and the
    /// alternatives of both as they are. It is open where one of the two
    /// is.
    pub open spec fn union(self, other: FormalBaseTypeView) -> FormalBaseTypeView {
        FormalBaseTypeView {
            labels: self.labels.union(other.labels),
            content: merged(self.content, other.content),
            open: self.open || other.open,
        }
    }

    /// The conjunction of two types: the labels of both, and for each pair
    /// of alternatives, one of each type, their conjunction. It is open
    /// where one of the two is.
    pub open spec fn combine(self, other: FormalBaseTypeView) -> FormalBaseTypeView {
        FormalBaseTypeView {
            labels: self.labels.union(other.labels),
            content: crossed(self.content, other.content),
            open: self.open || other.open,
        }
    }

    /// Some alternative has the shape of `record`.
    pub open spec fn shapes(self, record: RecordView) -> bool {
        exists|i: int|
            0 <= i < self.content.len() && record_accepts(
                #[trigger] self.content[i],
                record,
                self.open,
            )
    }

    /// Whether an entity with these labels and this record belongs to the
    /// type.
    pub open spec fn accepts(self, labels: Set<Seq<char>>, record: RecordView) -> bool {
        labels == self.labels && self.shapes(record)
    }

    /// What the check of an entity against the type reports.
    ///
    /// Labels that are not exactly those of the type are reported alone.
    /// Where the labels agree and no alternative has the shape of the
    /// record, the report names the record and the alternatives, and then
    /// lists what each alternative reports, in their order.
    pub open spec fn failures(self, labels: Set<Seq<char>>, record: RecordView) -> Seq<
        PgsErrorView,
    > {
        if labels != self.labels {
            seq![
                PgsErrorView::LabelsDifferent {
                    record_labels: render_labels(names_of(labels)),
                    type_labels: render_labels(names_of(self.labels)),
                },
            ]
        } else if self.shapes(record) {
            Seq::empty()
        } else {
            seq![
                PgsErrorView::RecordContentFails {
                    record: render_record(record),
                    type_content: render_alternatives(self.content),
                },
            ] + reasons_upto(self.content, record, self.open, self.content.len() as int)
        }
    }

    /// Two types mean the same where they have the same labels, the same
    /// alternatives in whatever order, and the same openness.
    pub open spec fn same_as(self, other: FormalBaseTypeView) -> bool {
        &&& self.labels == other.labels
        &&& self.content.to_set() == other.content.to_set()
        &&& self.open == other.open
    }
}

impl View for FormalBaseType {
    type V = FormalBaseTypeView;

    closed spec fn view(&self) -> FormalBaseTypeView {
        FormalBaseTypeView { labels: self.labels@, content: self.content@, open: self.open }
    }
}

/// The cross product of two sets of alternatives.
pub fn combine_set_records(set1: &RecordTypeSet, set2: &RecordTypeSet) -> (combined: RecordTypeSet)
    requires
        set1.wf(),
        set2.wf(),
    ensures
        combined.wf(),
        combined@ == crossed(set1@, set2@),
{
    set1.cross(set2)
}

impl FormalBaseType {
    /// The labels and the alternatives are in order.
    pub closed spec fn wf(&self) -> bool {
        self.labels.wf() && self.content.wf()
    }

    /// A type in order stands for a view in order.
    pub proof fn lemma_wf(&self)
        requires
            self.wf(),
        ensures
            self@.wf(),
    {
        vstd::seq_lib::seq_to_set_is_finite(self.labels.names());
    }

    /// The type without labels and without alternatives, to which nothing
    /// belongs.
    pub fn new() -> (base: FormalBaseType)
        ensures
            base.wf(),
            base@ == (FormalBaseTypeView {
                labels: Set::empty(),
                content: Seq::empty(),
                open: false,
            }),
    {
        FormalBaseType { labels: LabelSet::new(), content: RecordTypeSet::new(), open: false }
    }

    /// The type with `labels` in place of its labels.
    pub fn with_labels(self, labels: LabelSet) -> (base: FormalBaseType)
        requires
            self.wf(),
            labels.wf(),
        ensures
            base.wf(),
            base@ == (FormalBaseTypeView { labels: labels@, ..self@ }),
    {
        FormalBaseType { labels, content: self.content, open: self.open }
    }

    /// The type with `content` in place of its alternatives.
    pub fn with_content(self, content: RecordTypeSet) -> (base: FormalBaseType)
        requires
            self.wf(),
            content.wf(),
        ensures
            base.wf(),
            base@ == (FormalBaseTypeView { content: content@, ..self@ }),
    {
        FormalBaseType { labels: self.labels, content, open: self.open }
    }

    /// The type with `label` among its labels.
    pub fn with_label(self, label: &str) -> (base: FormalBaseType)
        requires
            self.wf(),
        ensures
            base.wf(),
            base@ == (FormalBaseTypeView { labels: self@.labels.insert(label@), ..self@ }),
    {
        let mut base = self;
        base.labels.insert(label);
        base
    }

    /// The type with `record_type` among its alternatives.
    pub fn with_record_type(self, record_type: RecordType) -> (base: FormalBaseType)
        requires
            self.wf(),
            record_type.wf(),
        ensures
            base.wf(),
            base@ == (FormalBaseTypeView {
                content: merged(self@.content, seq![record_type@]),
                ..self@
            }),
    {
        let mut base = self;
        base.content.insert(record_type);
        base
    }

    /// The type with its alternatives checked openly.
    pub fn with_open(self) -> (base: FormalBaseType)
        requires
            self.wf(),
        ensures
            base.wf(),
            base@ == (FormalBaseTypeView { open: true, ..self@ }),
    {
        FormalBaseType { labels: self.labels, content: self.content, open: true }
    }

    /// The type of the entities that carry `label` and no properties.
    pub fn from_label(label: Name) -> (base: FormalBaseType)
        ensures
            base.wf(),
            base@ == FormalBaseTypeView::of_label(label@),
    {
        let mut labels = LabelSet::new();
        labels.insert(label.as_str());
        let mut content = RecordTypeSet::new();
        content.insert(RecordType::empty());
        proof {
            crate::distinct::lemma_merged_one(Seq::<RecordTypeView>::empty(), RecordTypeView::empty());
            assert(Seq::<RecordTypeView>::empty().push(RecordTypeView::empty()) =~= seq![
                RecordTypeView::empty(),
            ]);
        }
        FormalBaseType { labels, content, open: false }
    }

    /// Adds `label` to the labels.
    pub fn add_label(&mut self, label: Name)
        requires
            old(self).wf(),
        ensures
            final(self).wf(),
            final(self)@ == (FormalBaseTypeView {
                labels: old(self)@.labels.insert(label@),
                ..old(self)@
            }),
    {
        self.labels.insert(label.as_str());
    }

    /// Adds `record_type` to the alternatives.
    pub fn add_content(&mut self, record_type: RecordType)
        requires
            old(self).wf(),
            record_type.wf(),
        ensures
            final(self).wf(),
            final(self)@ == (FormalBaseTypeView {
                content: merged(old(self)@.content, seq![record_type@]),
                ..old(self)@
            }),
    {
        self.content.insert(record_type);
    }

    /// The disjunction of two types.
    pub fn union(&self, other: &FormalBaseType) -> (base: FormalBaseType)
        requires
            self.wf(),
            other.wf(),
        ensures
            base.wf(),
            base@ == self@.union(other@),
    {
        let labels = self.labels.union(&other.labels);
        let mut content = self.content.clone();
        content.extend(&other.content);
        FormalBaseType { labels, content, open: self.open || other.open }
    }

    /// The conjunction of two types.
    pub fn combine(&self, other: &FormalBaseType) -> (base: FormalBaseType)
        requires
            self.wf(),
            other.wf(),
        ensures
            base.wf(),
            base@ == self@.combine(other@),
    {
        let labels = self.labels.union(&other.labels);
        let content = combine_set_records(&self.content, &other.content);
        FormalBaseType { labels, content, open: self.open || other.open }
    }

    /// The unit of the algebra.
    pub fn type_0() -> (base: FormalBaseType)
        ensures
            base.wf(),
            base@ == FormalBaseTypeView::type_0(),
    {
        let mut content = RecordTypeSet::new();
        content.insert(RecordType::empty());
        proof {
            crate::distinct::lemma_merged_one(Seq::<RecordTypeView>::empty(), RecordTypeView::empty());
            assert(Seq::<RecordTypeView>::empty().push(RecordTypeView::empty()) =~= seq![
                RecordTypeView::empty(),
            ]);
        }
        FormalBaseType { labels: LabelSet::new(), content, open: false }
    }

    /// The labels of the type.
    pub fn labels(&self) -> (labels: &LabelSet)
        ensures
            labels@ == self@.labels,
            self.wf() ==> labels.wf(),
    {
        &self.labels
    }

    /// The alternatives of the type.
    pub fn content(&self) -> (content: &RecordTypeSet)
        ensures
            content@ == self@.content,
            self.wf() ==> content.wf(),
    {
        &self.content
    }

    /// Whether the alternatives are checked openly.
    pub fn is_open(&self) -> (open: bool)
        ensures
            open == self@.open,
    {
        self.open
    }

    /// Checks an entity, given by its labels and its record, against the
    /// type.
    ///
    /// The verdict is a pass exactly where the labels are the labels of the
    /// type and some alternative has the shape of the record, and else
    /// lists the failures that [`FormalBaseTypeView::failures`] names.
    pub fn conforms(&self, labels: &LabelSet, content: &Record) -> (verdict: Either<
        Vec<PgsError>,
        Vec<Evidence>,
    >)
        requires
            self.wf(),
            labels.wf(),
        ensures
            reports(verdict, self@.failures(labels@, content@)),
            passed(verdict) <==> self@.accepts(labels@, content@),
            verdict is Left <==> !self@.accepts(labels@, content@),
            labels@ != self@.labels ==> verdict is Left,
    {
        if !labels.same(&self.labels) {
            let failures = vec![
                PgsError::LabelsDifferent {
                    record_labels: labels.to_string(),
                    type_labels: self.labels.to_string(),
                },
            ];
            proof {
                labels.lemma_names();
                self.labels.lemma_names();
                assert(views(failures@) =~= self@.failures(labels@, content@));
            }
            return Either::Left(failures);
        }
        let mut failures = vec![
            PgsError::RecordContentFails {
                record: content.to_string(),
                type_content: self.content.to_string(),
            },
        ];
        let ghost head = views(failures@);
        let mut i: usize = 0;
        proof {
            assert(head =~= seq![
                PgsErrorView::RecordContentFails {
                    record: render_record(content@),
                    type_content: render_alternatives(self@.content),
                },
            ]);
            assert(views(failures@) =~= head + reasons_upto(
                self@.content,
                content@,
                self@.open,
                0,
            ));
        }
        while i < self.content.len()
            invariant
                i <= self@.content.len(),
                self.wf(),
                labels@ == self@.labels,
                head.len() == 1,
                views(failures@) == head + reasons_upto(
                    self@.content,
                    content@,
                    self@.open,
                    i as int,
                ),
                forall|j: int|
                    0 <= j < i ==> !record_accepts(
                        #[trigger] self@.content[j],
                        content@,
                        self@.open,
                    ),
            decreases self@.content.len() - i,
        {
            match self.content.get(i).conforms(content, self.open) {
                Either::Right(_) => {
                    return pass();
                },
                Either::Left(reasons) => {
                    let ghost before = failures@;
                    let mut lifted = PgsError::from_all(&reasons);
                    let ghost added = lifted@;
                    failures.append(&mut lifted);
                    proof {
                        assert(views(failures@) =~= views(before) + views(added));
                        assert(views(reasons@) == record_failures(
                            self@.content[i as int],
                            content@,
                            self@.open,
                        ));
                        assert(views(failures@) =~= head + reasons_upto(
                            self@.content,
                            content@,
                            self@.open,
                            i + 1,
                        ));
                    }
                },
            }
            i += 1;
        }
        Either::Left(failures)
    }

    /// Decides whether two types mean the same.
    pub fn same(&self, other: &FormalBaseType) -> (r: bool)
        ensures
            r == self@.same_as(other@),
    {
        self.labels.same(&other.labels) && self.content.same(&other.content) && self.open
            == other.open
    }
}

impl PartialEq for FormalBaseType {
    fn eq(&self, other: &FormalBaseType) -> (r: bool) {
        self.same(other)
    }
}

impl PartialEqSpecImpl for FormalBaseType {
    open spec fn obeys_eq_spec() -> bool {
        true
    }

    open spec fn eq_spec(&self, other: &FormalBaseType) -> bool {
        self@.same_as(other@)
    }
}

} // verus!
