//! All-or-nothing collection: the first failure in order, or every item.

use vstd::prelude::*;
use crate::entry::Entry;
use crate::error::FetchError;

verus! {

/// `at` is the place of the first failure among the outcomes.
pub open spec fn fails_first_at<T>(outcomes: Seq<Result<T, FetchError>>, at: int) -> bool {
    &&& 0 <= at < outcomes.len()
    &&& outcomes[at] is Err
    &&& forall|before: int| 0 <= before < at ==> (#[trigger] outcomes[before]) is Ok
}

/// What the outcomes come to: the first failure among them, or, where there
/// is none, every item in the order of the outcomes.
pub open spec fn gathered<T>(outcomes: Seq<Result<T, FetchError>>) -> Result<Seq<T>, FetchError> {
    if exists|at: int| fails_first_at(outcomes, at) {
        Err(outcomes[choose|at: int| fails_first_at(outcomes, at)]->Err_0)
    } else {
        Ok(outcomes.map_values(|outcome: Result<T, FetchError>| outcome->Ok_0))
    }
}

/// `outcome` is `expected`: the same failure, or the same items in the same order.
pub open spec fn holds<T>(outcome: Result<Vec<T>, FetchError>, expected: Result<
    Seq<T>,
    FetchError,
>) -> bool {
    match expected {
        Ok(items) => outcome matches Ok(collected) && collected@ == items,
        Err(failure) => outcome == Err::<Vec<T>, FetchError>(failure),
    }
}

/// The first failure is the result, whatever stands behind it.
pub proof fn lemma_first_failure_decides<T>(outcomes: Seq<Result<T, FetchError>>, at: int)
    requires
        fails_first_at(outcomes, at),
    ensures
        gathered(outcomes) == Err::<Seq<T>, FetchError>(outcomes[at]->Err_0),
        gathered(outcomes.take(at + 1)) == gathered(outcomes),
{
    let chosen = choose|at: int| fails_first_at(outcomes, at);
    assert(chosen == at) by {
        if chosen < at {
            assert(outcomes[chosen] is Ok);
        } else if at < chosen {
            assert(outcomes[at] is Ok);
        }
    }
    let head = outcomes.take(at + 1);
    assert(fails_first_at(head, at)) by {
        assert forall|before: int| 0 <= before < at implies (#[trigger] head[before]) is Ok by {
            assert(outcomes[before] is Ok);
        }
    }
    let chosen_head = choose|at: int| fails_first_at(head, at);
    assert(chosen_head == at) by {
        if chosen_head < at {
            assert(head[chosen_head] is Ok);
        }
    }
}

/// Where nothing fails, every item is in the result, at its place.
pub proof fn lemma_no_failure_keeps_all<T>(outcomes: Seq<Result<T, FetchError>>)
    requires
        forall|at: int| 0 <= at < outcomes.len() ==> (#[trigger] outcomes[at]) is Ok,
    ensures
        gathered(outcomes) matches Ok(items) && items.len() == outcomes.len() && forall|at: int|
            0 <= at < outcomes.len() ==> outcomes[at] == Ok::<T, FetchError>(#[trigger] items[at]),
{
    assert forall|at: int| !fails_first_at(outcomes, at) by {
        if 0 <= at < outcomes.len() {
            assert(outcomes[at] is Ok);
        }
    }
}

/// One failure anywhere leaves no items.
pub proof fn lemma_any_failure_fails<T>(outcomes: Seq<Result<T, FetchError>>, at: int)
    requires
        0 <= at < outcomes.len(),
        outcomes[at] is Err,
    ensures
        gathered(outcomes) is Err,
        exists|first: int| first <= at && #[trigger] fails_first_at(outcomes, first),
    decreases at,
{
    if exists|before: int| 0 <= before < at && (#[trigger] outcomes[before]) is Err {
        let before = choose|before: int| 0 <= before < at && (#[trigger] outcomes[before]) is Err;
        lemma_any_failure_fails(outcomes, before);
    } else {
        assert(fails_first_at(outcomes, at));
    }
}

/// Walks the entries in order, asks `each` for the item of every entry, and
/// stops at the first failure.
pub(crate) fn gather<C, T, F: Fn(Entry<C>) -> Result<T, FetchError>>(
    entries: Vec<Entry<C>>,
    each: F,
    Ghost(item_of): Ghost<spec_fn(Entry<C>) -> Result<T, FetchError>>,
) -> (outcome: Result<Vec<T>, FetchError>)
    requires
        forall|entry: Entry<C>| #[trigger] each.requires((entry,)),
        forall|entry: Entry<C>, item: Result<T, FetchError>| #[trigger]
            each.ensures((entry,), item) ==> item == item_of(entry),
    ensures
        holds(outcome, gathered(entries@.map_values(item_of))),
{
    let ghost outcomes = entries@.map_values(item_of);
    let mut items: Vec<T> = Vec::new();
    for entry in walk: entries
        invariant
            walk.seq() == entries@,
            outcomes == entries@.map_values(item_of),
            items@.len() == walk.index(),
            forall|at: int|
                0 <= at < walk.index() ==> (#[trigger] outcomes[at]) == Ok::<T, FetchError>(
                    items@[at],
                ),
            forall|entry: Entry<C>| #[trigger] each.requires((entry,)),
            forall|entry: Entry<C>, item: Result<T, FetchError>| #[trigger]
                each.ensures((entry,), item) ==> item == item_of(entry),
    {
        let ghost at = walk.index();
        match each(entry) {
            Ok(item) => {
                items.push(item);
            },
            Err(failure) => {
                proof {
                    assert(outcomes[at] == Err::<T, FetchError>(failure));
                    assert(fails_first_at(outcomes, at));
                    lemma_first_failure_decides(outcomes, at);
                }
                return Err(failure);
            },
        }
    }
    proof {
        lemma_no_failure_keeps_all(outcomes);
        assert(items@ =~= gathered(outcomes)->Ok_0);
    }
    Ok(items)
}

} // verus!
