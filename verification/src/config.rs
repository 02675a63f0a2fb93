//! Resolved configuration for the journal directories.
//!
//! The values arrive already validated from the surrounding application;
//! this crate only consumes them.

use vstd::prelude::*;

verus! {

/// Where each kind of journal log lives, relative to the notes root.
/// A `None` field means the caller falls back to its default directory.
#[derive(Debug, Clone)]
pub struct Config {
    pub daily_logs_dir: Option<String>,
    pub weekly_logs_dir: Option<String>,
    pub monthly_logs_dir: Option<String>,
}

} // verus!
