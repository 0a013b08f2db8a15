//! The settings of the queues browser.

use vstd::prelude::*;

verus! {

/// The settings.
pub struct Config {
    /// The region where a tab names none.
    pub region: Option<String>,
    /// The seconds between two loads; 0 for no load but by key.
    pub refresh_interval_secs: u64,
    pub tabs: Vec<Tab>,
}

/// A tab in the settings.
pub struct Tab {
    pub name: String,
    /// `all` for all queues, `prefix` for those whose name begins with
    /// `prefix`.
    pub kind: String,
    pub prefix: Option<String>,
    pub region: Option<String>,
}

} // verus!
