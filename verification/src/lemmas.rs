//! What holds of the mint-event filter on every input.

use crate::error::Error;
use crate::event::EventView;
use crate::filter::{mint_filter, mint_only};
use vstd::prelude::*;

verus! {

/// `positions` lays `part` out inside `whole`: it names, for each element of
/// `part`, a position of `whole` that holds the same element, and the
/// positions ascend strictly, so that no position is used twice and the order
/// of `whole` is kept.
pub open spec fn places(positions: Seq<int>, part: Seq<EventView>, whole: Seq<EventView>) -> bool {
    &&& positions.len() == part.len()
    &&& forall|j: int|
        0 <= j < positions.len() ==> 0 <= #[trigger] positions[j] < whole.len() && part[j]
            == whole[positions[j]]
    &&& forall|j: int, k: int|
        0 <= j < k < positions.len() ==> #[trigger] positions[j] < #[trigger] positions[k]
}

/// `part` can be had from `whole` by leaving elements out.
pub open spec fn is_subsequence(part: Seq<EventView>, whole: Seq<EventView>) -> bool {
    exists|positions: Seq<int>| places(positions, part, whole)
}

/// The positions of a sequence that hold a mint event.
pub open spec fn mint_indices(events: Seq<EventView>) -> Set<int> {
    Set::new(|i: int| 0 <= i < events.len() && events[i].is_mint())
}

/// The filter keeps the mint events and nothing else: there are positions,
/// in ascending order, at which the input holds the output's events one by
/// one, and these positions are exactly those of the input's mint events. So
/// the output has as many events as the input has mint events, and never more
/// events than the input.
pub proof fn lemma_mint_only_exact(events: Seq<EventView>) -> (positions: Seq<int>)
    ensures
        places(positions, mint_only(events), events),
        forall|i: int|
            0 <= i < events.len() ==> (events[i].is_mint() <==> positions.contains(i)),
        mint_indices(events).finite(),
        mint_only(events).len() == mint_indices(events).len(),
        mint_only(events).len() <= events.len(),
    decreases events.len(),
{
    reveal(Seq::filter);
    if events.len() == 0 {
        assert(mint_indices(events) =~= Set::empty());
        Seq::empty()
    } else {
        let rest = events.drop_last();
        let last = events.len() - 1;
        let before = lemma_mint_only_exact(rest);
        if events.last().is_mint() {
            let positions = before.push(last);
            assert(mint_indices(events) =~= mint_indices(rest).insert(last));
            assert forall|i: int| 0 <= i < events.len() implies (events[i].is_mint()
                <==> positions.contains(i)) by {
                if i == last {
                    assert(positions[before.len() as int] == i);
                } else if before.contains(i) {
                    let j = choose|j: int| 0 <= j < before.len() && before[j] == i;
                    assert(positions[j] == i);
                } else if positions.contains(i) {
                    let j = choose|j: int| 0 <= j < positions.len() && positions[j] == i;
                    assert(before[j] == i);
                }
            }
            positions
        } else {
            assert(mint_indices(events) =~= mint_indices(rest));
            assert forall|i: int| 0 <= i < events.len() implies (events[i].is_mint()
                <==> before.contains(i)) by {
                if before.contains(i) {
                    let j = choose|j: int| 0 <= j < before.len() && before[j] == i;
                    assert(before[j] < rest.len());
                }
            }
            before
        }
    }
}

/// The output of the filter is a subsequence of its input: nothing is
/// inserted, nothing is repeated, and the order is kept.
pub proof fn lemma_mint_only_is_subsequence(events: Seq<EventView>)
    ensures
        is_subsequence(mint_only(events), events),
{
    let positions = lemma_mint_only_exact(events);
    assert(places(positions, mint_only(events), events));
}

/// Every event that the filter keeps is a mint event.
pub proof fn lemma_mint_only_all_mint(events: Seq<EventView>)
    ensures
        forall|j: int|
            0 <= j < mint_only(events).len() ==> (#[trigger] mint_only(events)[j]).is_mint(),
{
    let kept = mint_only(events);
    let positions = lemma_mint_only_exact(events);
    assert forall|j: int| 0 <= j < kept.len() implies (#[trigger] kept[j]).is_mint() by {
        assert(positions.contains(positions[j]));
        assert(kept[j] == events[positions[j]]);
    }
}

/// A sequence of mint events passes the filter unchanged.
pub proof fn lemma_mint_only_of_mint_events(events: Seq<EventView>)
    requires
        forall|i: int| 0 <= i < events.len() ==> (#[trigger] events[i]).is_mint(),
    ensures
        mint_only(events) == events,
    decreases events.len(),
{
    reveal(Seq::filter);
    if events.len() > 0 {
        lemma_mint_only_of_mint_events(events.drop_last());
        assert(events.drop_last().push(events.last()) =~= events);
    }
}

/// Filtering is idempotent: the mint events of the mint events of a sequence
/// are the mint events of that sequence.
pub proof fn lemma_mint_only_idempotent(events: Seq<EventView>)
    ensures
        mint_only(mint_only(events)) == mint_only(events),
{
    lemma_mint_only_all_mint(events);
    lemma_mint_only_of_mint_events(mint_only(events));
}

/// Filtering what the filter gave changes nothing: where a block filters to
/// some events, a block whose begin-block result holds those events filters
/// to them again.
pub proof fn lemma_refilter_is_identity(block: Option<Seq<EventView>>)
    ensures
        mint_filter(block) matches Ok(kept) ==> mint_filter(Some(kept)) == Ok::<
            Seq<EventView>,
            Error,
        >(kept),
{
    if let Some(events) = block {
        lemma_mint_only_idempotent(events);
    }
}

/// A begin-block result without mint events, and so one without any events,
/// filters to the empty sequence, and that is a success.
pub proof fn lemma_no_mint_gives_empty(events: Seq<EventView>)
    requires
        forall|i: int| 0 <= i < events.len() ==> !(#[trigger] events[i]).is_mint(),
    ensures
        mint_only(events) == Seq::<EventView>::empty(),
        mint_filter(Some(events)) == Ok::<Seq<EventView>, Error>(Seq::empty()),
{
    let positions = lemma_mint_only_exact(events);
    if positions.len() > 0 {
        assert(positions.contains(positions[0]));
    }
    assert(mint_only(events) =~= Seq::empty());
}

} // verus!
