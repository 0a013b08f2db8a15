//! The settings of the databases browser.

use vstd::prelude::*;

verus! {

/// The settings.
pub struct Config {
    /// The region where a tab names none.
    pub region: Option<String>,
    /// The seconds between two loads; 0 for no load but by key.
    pub refresh_interval_secs: u64,
    pub tabs: Vec<Tab>,
}

/// A tab in the settings.
pub struct Tab {
    pub name: String,
    /// `instances` or `clusters`.
    pub kind: String,
    pub region: Option<String>,
}

} // verus!
