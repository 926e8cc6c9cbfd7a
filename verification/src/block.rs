//! A block as the filter sees it: an optional begin-block result that holds
//! an ordered list of events.

use crate::event::{Event, EventView};
use vstd::prelude::*;

verus! {

/// The events of a sequence, each taken by its mathematical content.
pub open spec fn event_views(events: Seq<Event>) -> Seq<EventView> {
    events.map_values(|e: Event| e@)
}

/// The outcome of the start-of-block phase of chain execution: the events it
/// emitted, in the order in which they were emitted.
#[derive(Debug, Clone, PartialEq, Eq)]
pub struct BeginBlockResult {
    pub events: Vec<Event>,
}

impl View for BeginBlockResult {
    type V = Seq<EventView>;

    open spec fn view(&self) -> Seq<EventView> {
        event_views(self.events@)
    }
}

/// What the filter hands back. It has the shape of a begin-block result and
/// holds mint events only.
pub type FilteredResult = BeginBlockResult;

/// The unit of input. Only the begin-block result is of interest here; a
/// block's height and hash play no part.
#[derive(Debug, Clone, PartialEq, Eq)]
pub struct Block {
    pub result_begin_block: Option<BeginBlockResult>,
}

impl View for Block {
    type V = Option<Seq<EventView>>;

    open spec fn view(&self) -> Option<Seq<EventView>> {
        match self.result_begin_block {
            Some(begin) => Some(begin@),
            None => None,
        }
    }
}

} // verus!
