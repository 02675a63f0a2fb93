//! A small calendar core: a fixed-width slot grid over the day, timed events
//! with overlap classification, recurring events materialized over a bounded
//! window, and indexing of dated journal file names.

pub mod config;
pub mod events;
pub mod ical;
pub mod indexer;
pub mod time;
pub mod util;
