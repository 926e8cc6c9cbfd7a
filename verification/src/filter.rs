//! The mint-event filter.

use crate::block::{event_views, BeginBlockResult, Block, FilteredResult};
use crate::error::Error;
use crate::event::{Event, EventView};
use vstd::prelude::*;

verus! {

/// The mint events of a sequence, in the order in which they stand in it.
pub open spec fn mint_only(events: Seq<EventView>) -> Seq<EventView> {
    events.filter(|e: EventView| e.is_mint())
}

/// What filtering a block yields: the mint events of its begin-block result,
/// or an error where the block has no such result.
pub open spec fn mint_filter(block: Option<Seq<EventView>>) -> Result<Seq<EventView>, Error> {
    match block {
        Some(events) => Ok(mint_only(events)),
        None => Err(Error::MissingPhaseResult),
    }
}

/// The mint events among the given event values, in order. Unlike
/// [`mint_only`] this speaks of the values themselves, not of their content:
/// an event that is kept is the event that came in.
pub open spec fn mint_events_of(events: Seq<Event>) -> Seq<Event> {
    events.filter(|e: Event| e@.is_mint())
}

/// Selecting the mint events and then looking at their content gives what
/// selecting by content gives.
pub proof fn lemma_mint_events_of_views(events: Seq<Event>)
    ensures
        event_views(mint_events_of(events)) == mint_only(event_views(events)),
        mint_events_of(events).len() <= events.len(),
    decreases events.len(),
{
    reveal(Seq::filter);
    if events.len() > 0 {
        let rest = events.drop_last();
        let last = events.last();
        lemma_mint_events_of_views(rest);
        assert(event_views(events).drop_last() =~= event_views(rest));
    }
}

/// Keeps the mint events of `events`, in order, and drops the others. The
/// events that are kept are moved into the result as they are.
pub fn retain_mint(events: Vec<Event>) -> (kept: Vec<Event>)
    ensures
        kept@ == mint_events_of(events@),
        event_views(kept@) == mint_only(event_views(events@)),
        kept@.len() <= events@.len(),
{
    let mut kept: Vec<Event> = Vec::new();
    for event in it: events.into_iter()
        invariant
            it.seq() == events@,
            kept@ == mint_events_of(events@.take(it.index())),
    {
        proof {
            let seen = events@.take(it.index());
            assert(events@.take(it.index() + 1) =~= seen.push(event));
            seen.lemma_filter_push(event, |e: Event| e@.is_mint());
        }
        if event.is_mint() {
            kept.push(event);
        }
    }
    proof {
        assert(events@.take(events@.len() as int) =~= events@);
        lemma_mint_events_of_views(events@);
    }
    kept
}

/// Extracts the mint events of a block's begin-block result.
///
/// The result holds exactly the events of the begin-block result whose type
/// tag is the mint tag, in their original order and with their attributes
/// untouched; it never holds more events than the begin-block result. A
/// result without events is a success. A block without a begin-block result
/// is an error, and the only one.
pub fn filter_mint_events(block: Block) -> (result: Result<FilteredResult, Error>)
    ensures
        match mint_filter(block@) {
            Ok(kept) => result matches Ok(filtered) && filtered@ == kept,
            Err(error) => result == Err::<FilteredResult, Error>(error),
        },
        block.result_begin_block matches Some(begin) ==> {
            &&& result matches Ok(filtered)
            &&& filtered.events@ == mint_events_of(begin.events@)
            &&& filtered.events@.len() <= begin.events@.len()
        },
        block.result_begin_block is None ==> result == Err::<FilteredResult, Error>(
            Error::MissingPhaseResult,
        ),
{
    match block.result_begin_block {
        Some(begin) => Ok(BeginBlockResult { events: retain_mint(begin.events) }),
        None => Err(Error::MissingPhaseResult),
    }
}

} // verus!
