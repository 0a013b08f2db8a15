//! The settings of the projects browser.

use vstd::prelude::*;

verus! {

/// The settings.
pub struct Config {
    /// The region, if one is named.
    pub region: Option<String>,
    /// The projects that are shown; all of them where none is named.
    pub projects: Vec<String>,
    /// How many builds are read of each project.
    pub recent_builds: usize,
}

/// How many builds are read of each project where the settings do not say.
pub fn default_recent() -> (r: usize)
    ensures
        r == 5,
{
    5
}

impl Default for Config {
    fn default() -> (r: Self)
        ensures
            r.region is None,
            r.projects@ == Seq::<String>::empty(),
            r.recent_builds == 0,
    {
        Config { region: None, projects: Vec::new(), recent_builds: 0 }
    }
}

impl Config {
    /// The settings where there is no file.
    pub fn without_file() -> (r: Self)
        ensures
            r.region is None,
            r.projects@ == Seq::<String>::empty(),
            r.recent_builds == 5,
    {
        Config { region: None, projects: Vec::new(), recent_builds: default_recent() }
    }
}

} // verus!
