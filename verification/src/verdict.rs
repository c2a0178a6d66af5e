//! The two-sided result of a check: failures on the left, evidence on the
//! right.

use crate::evidence::Evidence;
use either::Either;
use vstd::prelude::*;

verus! {

/// The enum `either::Either`, with its two variants `Left` and `Right` as
/// the crate declares them.
#[verifier::external_type_specification]
#[verifier::reject_recursive_types(L)]
#[verifier::reject_recursive_types(R)]
pub struct ExEither<L, R>(Either<L, R>);

/// `Either::is_left`: whether the value is the `Left` variant.
pub assume_specification<L, R>[ Either::<L, R>::is_left ](e: &Either<L, R>) -> (b: bool)
    ensures
        b == (e is Left),
;

/// `Either::is_right`: whether the value is the `Right` variant.
pub assume_specification<L, R>[ Either::<L, R>::is_right ](e: &Either<L, R>) -> (b: bool)
    ensures
        b == (e is Right),
;

/// A check that succeeded says so with an empty list of evidence.
pub open spec fn passed<E>(verdict: Either<Vec<E>, Vec<Evidence>>) -> bool {
    match verdict {
        Either::Left(_) => false,
        Either::Right(evidence) => evidence@.len() == 0,
    }
}

/// The failures that a verdict reports: none where the check succeeded.
pub open spec fn failures_of<E>(verdict: Either<Vec<E>, Vec<Evidence>>) -> Seq<E> {
    match verdict {
        Either::Left(failures) => failures@,
        Either::Right(_) => Seq::empty(),
    }
}

/// The views of a list of failures, in order.
pub open spec fn views<E: View>(failures: Seq<E>) -> Seq<E::V> {
    failures.map_values(|e: E| e@)
}

/// Whether `verdict` is the verdict of a check that found `failures`: a
/// pass where there are none, and else the failures themselves, in order.
pub open spec fn reports<E: View>(
    verdict: Either<Vec<E>, Vec<Evidence>>,
    failures: Seq<E::V>,
) -> bool {
    if failures.len() == 0 {
        passed(verdict)
    } else {
        verdict is Left && views(failures_of(verdict)) == failures
    }
}

/// The verdict of a check that found nothing wrong.
pub fn pass<E>() -> (verdict: Either<Vec<E>, Vec<Evidence>>)
    ensures
        passed(verdict),
{
    Either::Right(Vec::new())
}

} // verus!
