//! The report of a validation run.

use crate::evidence::Evidence;
use crate::pgs_error::{PgsError, PgsErrorView};
use crate::text::{append_part, join};
use crate::verdict::views;
use either::Either;
use vstd::prelude::*;
use vstd::string::*;

verus! {

/// The outcome for one association of a node with a type.
#[derive(Debug)]
pub struct ResultAssociation {
    /// The name of the node.
    pub node_id: String,
    /// The name of the type that the node was checked against.
    pub declared_type: String,
    /// Whether the node belongs to the type.
    pub conforms: bool,
    /// The failures, or the evidence.
    pub details: Either<Vec<PgsError>, Vec<Evidence>>,
}

/// The outcomes of a validation run, one for each association.
#[derive(Debug)]
pub struct ValidationResult {
    /// Whether every node belongs to its type.
    pub is_valid: bool,
    /// The outcomes, in the order of the associations.
    pub associations: Vec<ResultAssociation>,
}

/// The failures in words, one after the other.
pub open spec fn messages(failures: Seq<PgsErrorView>) -> Seq<Seq<char>> {
    failures.map_values(|e: PgsErrorView| e.message())
}

/// A witness for each of `count` successes.
pub open spec fn witnesses(count: nat) -> Seq<Seq<char>> {
    Seq::new(count, |i: int| "Evidence"@)
}

/// The details of an outcome as they are printed: the side, and in
/// brackets the failures in words or a word for each piece of evidence.
pub open spec fn render_details(details: Either<Vec<PgsError>, Vec<Evidence>>) -> Seq<char> {
    match details {
        Either::Left(failures) => "Left(["@ + join(messages(views(failures@)), "; "@) + "])"@,
        Either::Right(evidence) => "Right(["@ + join(witnesses(evidence@.len()), ", "@) + "])"@,
    }
}

/// `true` or `false`.
pub open spec fn render_bool(b: bool) -> Seq<char> {
    if b {
        "true"@
    } else {
        "false"@
    }
}

fn bool_text(b: bool) -> (s: &'static str)
    ensures
        s@ == render_bool(b),
{
    if b {
        "true"
    } else {
        "false"
    }
}

fn details_text(details: &Either<Vec<PgsError>, Vec<Evidence>>) -> (s: String)
    ensures
        s@ == render_details(*details),
{
    match details {
        Either::Left(failures) => {
            let ghost parts = messages(views(failures@));
            let mut body = String::new();
            let mut i: usize = 0;
            assert(parts.take(0) =~= Seq::<Seq<char>>::empty());
            while i < failures.len()
                invariant
                    i <= failures@.len(),
                    parts == messages(views(failures@)),
                    body@ == join(parts.take(i as int), "; "@),
                decreases failures@.len() - i,
            {
                let message = failures[i].to_string();
                append_part(&mut body, message.as_str(), "; ", Ghost(parts), i);
                i += 1;
            }
            assert(parts.take(i as int) =~= parts);
            let mut s = String::from_str("Left([");
            s.append(body.as_str());
            s.append("])");
            s
        },
        Either::Right(evidence) => {
            let ghost parts = witnesses(evidence@.len());
            let mut body = String::new();
            let mut i: usize = 0;
            assert(parts.take(0) =~= Seq::<Seq<char>>::empty());
            while i < evidence.len()
                invariant
                    i <= evidence@.len(),
                    parts == witnesses(evidence@.len()),
                    body@ == join(parts.take(i as int), ", "@),
                decreases evidence@.len() - i,
            {
                append_part(&mut body, "Evidence", ", ", Ghost(parts), i);
                i += 1;
            }
            assert(parts.take(i as int) =~= parts);
            let mut s = String::from_str("Right([");
            s.append(body.as_str());
            s.append("])");
            s
        },
    }
}

impl ResultAssociation {
    /// The outcome as it is printed.
    pub open spec fn render(&self) -> Seq<char> {
        "ResultAssociation(node_id: "@ + self.node_id@ + ", type_name: "@ + self.declared_type@
            + ", conforms: "@ + render_bool(self.conforms) + ", details: "@ + render_details(
            self.details,
        ) + ")"@
    }

    /// Writes the outcome out.
    pub fn to_string(&self) -> (s: String)
        ensures
            s@ == self.render(),
    {
        let mut s = String::from_str("ResultAssociation(node_id: ");
        s.append(self.node_id.as_str());
        s.append(", type_name: ");
        s.append(self.declared_type.as_str());
        s.append(", conforms: ");
        s.append(bool_text(self.conforms));
        s.append(", details: ");
        s.append(details_text(&self.details).as_str());
        s.append(")");
        s
    }
}

/// The outcomes as they are printed, one after the other.
pub open spec fn render_outcomes(associations: Seq<ResultAssociation>) -> Seq<Seq<char>> {
    associations.map_values(|a: ResultAssociation| a.render())
}

/// Every one of the first `upto` outcomes is positive.
pub open spec fn all_conform(associations: Seq<ResultAssociation>, upto: int) -> bool {
    forall|i: int| 0 <= i < upto ==> (#[trigger] associations[i]).conforms
}

impl ValidationResult {
    /// The report says "valid" exactly where every outcome is positive.
    pub open spec fn wf(&self) -> bool {
        self.is_valid == all_conform(self.associations@, self.associations@.len() as int)
    }

    /// The report of a run without associations.
    pub fn new() -> (report: ValidationResult)
        ensures
            report.wf(),
            report.is_valid,
            report.associations@ == Seq::<ResultAssociation>::empty(),
    {
        ValidationResult { is_valid: true, associations: Vec::new() }
    }

    /// Adds an outcome to the report.
    pub fn add_association(&mut self, association: ResultAssociation)
        requires
            old(self).wf(),
        ensures
            final(self).wf(),
            final(self).associations@ == old(self).associations@.push(association),
            final(self).is_valid == (old(self).is_valid && association.conforms),
    {
        self.is_valid = self.is_valid && association.conforms;
        self.associations.push(association);
        proof {
            let all = self.associations@;
            if self.is_valid {
                assert forall|i: int| 0 <= i < all.len() implies (#[trigger] all[i]).conforms by {
                    if i < all.len() - 1 {
                        assert(all[i] == old(self).associations@[i]);
                    }
                }
            } else if old(self).is_valid {
                assert(!all[all.len() - 1].conforms);
            } else {
                let k = choose|k: int|
                    0 <= k < old(self).associations@.len() && !(
                    #[trigger] old(self).associations@[k]).conforms;
                assert(all[k] == old(self).associations@[k]);
            }
        }
    }

    /// The report as it is printed.
    pub open spec fn render(&self) -> Seq<char> {
        "ValidationResult(is_valid: "@ + render_bool(self.is_valid) + ", associations: ["@ + join(
            render_outcomes(self.associations@),
            ", "@,
        ) + "])"@
    }

    /// Writes the report out.
    pub fn to_string(&self) -> (s: String)
        ensures
            s@ == self.render(),
    {
        let ghost parts = render_outcomes(self.associations@);
        let mut body = String::new();
        let mut i: usize = 0;
        assert(parts.take(0) =~= Seq::<Seq<char>>::empty());
        while i < self.associations.len()
            invariant
                i <= self.associations@.len(),
                parts == render_outcomes(self.associations@),
                body@ == join(parts.take(i as int), ", "@),
            decreases self.associations@.len() - i,
        {
            let outcome = self.associations[i].to_string();
            append_part(&mut body, outcome.as_str(), ", ", Ghost(parts), i);
            i += 1;
        }
        assert(parts.take(i as int) =~= parts);
        let mut s = String::from_str("ValidationResult(is_valid: ");
        s.append(bool_text(self.is_valid));
        s.append(", associations: [");
        s.append(body.as_str());
        s.append("])");
        s
    }

    /// Whether the report holds no outcome.
    pub fn is_empty(&self) -> (r: bool)
        ensures
            r == (self.associations@.len() == 0),
    {
        self.associations.is_empty()
    }
}

} // verus!
