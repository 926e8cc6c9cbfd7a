//! Events emitted by chain execution, and what makes one a mint event.

use crate::text::str_eq;
use vstd::prelude::*;

verus! {

/// The type tag that marks an event as a token-minting action.
///
/// The comparison against it is exact: case matters and nothing is trimmed.
pub const MINT_EVENT_TYPE: &'static str = "mint";

/// One key/value pair carried by an event.
#[derive(Debug, Clone, PartialEq, Eq)]
pub struct EventAttribute {
    pub key: String,
    pub value: String,
}

/// The mathematical content of an [`EventAttribute`].
pub struct EventAttributeView {
    pub key: Seq<char>,
    pub value: Seq<char>,
}

impl View for EventAttribute {
    type V = EventAttributeView;

    open spec fn view(&self) -> EventAttributeView {
        EventAttributeView { key: self.key@, value: self.value@ }
    }
}

/// A typed record emitted by chain execution.
///
/// The type tag is always present; the empty string is a valid tag. The
/// attributes are a payload that the filter never inspects.
#[derive(Debug, Clone, PartialEq, Eq)]
pub struct Event {
    pub event_type: String,
    pub attributes: Vec<EventAttribute>,
}

/// The mathematical content of an [`Event`].
pub struct EventView {
    pub event_type: Seq<char>,
    pub attributes: Seq<EventAttributeView>,
}

impl EventView {
    /// An event is a mint event when its type tag is exactly the mint tag.
    pub open spec fn is_mint(self) -> bool {
        self.event_type == MINT_EVENT_TYPE@
    }
}

impl View for Event {
    type V = EventView;

    open spec fn view(&self) -> EventView {
        EventView {
            event_type: self.event_type@,
            attributes: self.attributes@.map_values(|a: EventAttribute| a@),
        }
    }
}

impl Event {
    /// Whether this event's type tag is exactly the mint tag.
    pub fn is_mint(&self) -> (mint: bool)
        ensures
            mint == self@.is_mint(),
    {
        str_eq(self.event_type.as_str(), MINT_EVENT_TYPE)
    }
}

} // verus!
