//! The settings of the services browser.

use vstd::prelude::*;

verus! {

/// The settings.
pub struct Config {
    /// The region where a tab names none.
    pub region: Option<String>,
    /// The seconds between two loads; 0 for no load but by key.
    pub refresh_interval_secs: u64,
    pub tabs: Vec<Tab>,
}

/// A tab in the settings.
pub struct Tab {
    pub name: String,
    /// `clusters` for all clusters, `services` for the services of one.
    pub kind: String,
    /// The cluster, where `kind` is `services`.
    pub cluster: Option<String>,
    pub region: Option<String>,
}

} // verus!
