//! Facts about lists that the filters share: what filtering keeps and what
//! a limit cuts.

use vstd::prelude::*;

verus! {

/// The first `count` items, or all of them where there are fewer.
pub open spec fn limited<T>(items: Seq<T>, count: nat) -> Seq<T> {
    if count < items.len() {
        items.take(count as int)
    } else {
        items
    }
}

/// One more item either joins the filtered list at its end or leaves it as it was.
pub proof fn lemma_filter_next<T>(items: Seq<T>, keep: spec_fn(T) -> bool, i: int)
    requires
        0 <= i < items.len(),
    ensures
        items.take(i + 1).filter(keep) == if keep(items[i]) {
            items.take(i).filter(keep).push(items[i])
        } else {
            items.take(i).filter(keep)
        },
{
    reveal(Seq::filter);
    assert(items.take(i + 1).drop_last() =~= items.take(i));
    assert(items.take(i + 1).last() == items[i]);
}

/// Every item of a filtered list was in the list and passes the filter.
pub proof fn lemma_filter_members<T>(items: Seq<T>, keep: spec_fn(T) -> bool)
    ensures
        forall|i: int|
            0 <= i < items.filter(keep).len() ==> keep(#[trigger] items.filter(keep)[i])
                && items.contains(items.filter(keep)[i]),
    decreases items.len(),
{
    reveal(Seq::filter);
    if items.len() > 0 {
        lemma_filter_members(items.drop_last(), keep);
        assert forall|i: int| 0 <= i < items.filter(keep).len() implies keep(
            #[trigger] items.filter(keep)[i],
        ) && items.contains(items.filter(keep)[i]) by {
            let rest = items.drop_last().filter(keep);
            if i < rest.len() {
                assert(items.filter(keep)[i] == rest[i]);
                assert(items.drop_last().contains(rest[i]));
                let front = items.drop_last();
                let j = choose|j: int| 0 <= j < front.len() && front[j] == rest[i];
                assert(items[j] == rest[i]);
            } else {
                assert(items.filter(keep)[i] == items.last());
                assert(items[items.len() - 1] == items.last());
            }
        }
    }
}

/// Limiting twice to the same count is limiting once.
pub proof fn lemma_limit_idempotent<T>(items: Seq<T>, count: nat)
    ensures
        limited(limited(items, count), count) == limited(items, count),
{
}

/// A limited list is no longer than the count, and is the start of the list.
pub proof fn lemma_limited_is_prefix<T>(items: Seq<T>, count: nat)
    ensures
        limited(items, count).len() <= count,
        limited(items, count).len() <= items.len(),
        limited(items, count) == items.take(limited(items, count).len() as int),
{
    assert(items.take(items.len() as int) =~= items);
}

} // verus!
