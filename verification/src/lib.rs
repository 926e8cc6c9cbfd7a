//! Selection of mint events from the begin-block phase of a Cosmos block.
//!
//! A block's begin-block result carries an ordered list of typed events. The
//! filter keeps the events whose type tag is exactly `mint`, in their original
//! order, and reports a block that recorded no begin-block phase as an error.

pub mod block;
pub mod error;
pub mod event;
pub mod filter;
pub mod lemmas;
pub mod text;

pub use block::{BeginBlockResult, Block, FilteredResult};
pub use error::Error;
pub use event::{Event, EventAttribute, MINT_EVENT_TYPE};
pub use filter::{filter_mint_events, retain_mint};
