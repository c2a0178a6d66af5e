//! Sequences that stand for sets: no element twice, in the order in which
//! the elements came.

use vstd::prelude::*;

verus! {

/// `base` followed by those of `more` that are new, each once.
pub open spec fn merged<A>(base: Seq<A>, more: Seq<A>) -> Seq<A>
    decreases more.len(),
{
    if more.len() == 0 {
        base
    } else if base.contains(more[0]) {
        merged(base, more.drop_first())
    } else {
        merged(base.push(more[0]), more.drop_first())
    }
}

/// Adding one new element keeps a sequence free of duplicates.
pub proof fn lemma_push_new<A>(base: Seq<A>, element: A)
    requires
        base.no_duplicates(),
        !base.contains(element),
    ensures
        base.push(element).no_duplicates(),
{
    let next = base.push(element);
    assert forall|i: int, j: int| 0 <= i < next.len() && 0 <= j < next.len() && i != j implies next[i]
        != next[j] by {
        if i < base.len() {
            assert(base.contains(base[i]));
        }
        if j < base.len() {
            assert(base.contains(base[j]));
        }
    }
}

/// Merging keeps a sequence free of duplicates, and holds what either
/// sequence holds.
pub proof fn lemma_merged<A>(base: Seq<A>, more: Seq<A>)
    requires
        base.no_duplicates(),
    ensures
        merged(base, more).no_duplicates(),
        forall|element: A| #[trigger]
            merged(base, more).contains(element) <==> base.contains(element) || more.contains(
                element,
            ),
    decreases more.len(),
{
    if more.len() > 0 {
        let rest = more.drop_first();
        let next = if base.contains(more[0]) {
            base
        } else {
            base.push(more[0])
        };
        if !base.contains(more[0]) {
            lemma_push_new(base, more[0]);
        }
        lemma_merged(next, rest);
        assert forall|element: A| #[trigger]
            merged(base, more).contains(element) <==> base.contains(element) || more.contains(
                element,
            ) by {
            if more.contains(element) {
                let p = choose|p: int| 0 <= p < more.len() && more[p] == element;
                if p > 0 {
                    assert(rest[p - 1] == element);
                } else {
                    assert(next.contains(element)) by {
                        if !base.contains(more[0]) {
                            assert(next[base.len() as int] == element);
                        }
                    }
                }
            }
            if rest.contains(element) {
                let p = choose|p: int| 0 <= p < rest.len() && rest[p] == element;
                assert(more[p + 1] == element);
            }
            if base.contains(element) {
                let p = choose|p: int| 0 <= p < base.len() && base[p] == element;
                assert(next[p] == element);
            }
            if next.contains(element) && !base.contains(element) {
                let p = choose|p: int| 0 <= p < next.len() && next[p] == element;
                assert(p == base.len());
                assert(more[0] == element);
            }
        }
    }
}

/// Merging goes through `more` from the left: its last element is merged
/// in last.
pub proof fn lemma_merged_push<A>(base: Seq<A>, more: Seq<A>, element: A)
    ensures
        merged(base, more.push(element)) == merged(merged(base, more), seq![element]),
    decreases more.len(),
{
    if more.len() == 0 {
        assert(more.push(element) =~= seq![element]);
    } else {
        let longer = more.push(element);
        assert(longer.drop_first() =~= more.drop_first().push(element));
        assert(longer[0] == more[0]);
        if base.contains(more[0]) {
            lemma_merged_push(base, more.drop_first(), element);
        } else {
            lemma_merged_push(base.push(more[0]), more.drop_first(), element);
        }
    }
}

/// Merging in what is all new, and itself free of duplicates, appends it.
pub proof fn lemma_merged_distinct<A>(base: Seq<A>, more: Seq<A>)
    requires
        (base + more).no_duplicates(),
    ensures
        merged(base, more) == base + more,
    decreases more.len(),
{
    let all = base + more;
    if more.len() == 0 {
        assert(all =~= base);
    } else {
        let rest = more.drop_first();
        if base.contains(more[0]) {
            let p = choose|p: int| 0 <= p < base.len() && base[p] == more[0];
            assert(all[p] == all[base.len() as int]);
        }
        assert(base.push(more[0]) + rest =~= all);
        lemma_merged_distinct(base.push(more[0]), rest);
    }
}

/// Merging one element in adds it at the end, unless it is there.
pub proof fn lemma_merged_one<A>(base: Seq<A>, element: A)
    ensures
        merged(base, seq![element]) == if base.contains(element) {
            base
        } else {
            base.push(element)
        },
{
    reveal_with_fuel(merged, 3);
    assert(seq![element].drop_first() =~= Seq::<A>::empty());
}

} // verus!
