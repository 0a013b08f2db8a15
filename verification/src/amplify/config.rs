//! The settings of the apps browser.

use vstd::prelude::*;

use crate::numeral;
use crate::numeral::dec_size;
use crate::text;
use crate::text::{cat5, cat7, owned, str_eq, trim};

verus! {

/// The settings.
pub struct Config {
    /// The region, if one is named.
    pub region: Option<String>,
    /// The seconds between two loads; 0 for no load but by key.
    pub refresh_interval_secs: u64,
    pub tabs: Vec<Tab>,
    /// The ids of apps that are not shown.
    pub hidden_app_ids: Vec<String>,
    /// The ids of apps in the order in which they are shown; others come behind.
    pub app_order: Vec<String>,
}

/// The seconds between two loads where the settings name none.
pub fn default_refresh() -> (r: u64)
    ensures
        r == 0,
{
    0
}

/// A tab in the settings.
pub struct Tab {
    pub name: String,
    /// `apps` for all apps, `app` for one.
    pub kind: String,
    /// The app, where `kind` is `app`.
    pub app_id: Option<String>,
    pub region: Option<String>,
}

/// The kind of a tab that names none.
pub fn default_kind() -> (r: String)
    ensures
        r@ == "apps"@,
{
    owned("apps")
}

/// The app of a tab, or nothing.
pub open spec fn app_of(t: Tab) -> Seq<char> {
    match t.app_id {
        Some(a) => a@,
        None => ""@,
    }
}

/// What is wrong with the tab `t`, which is number `i`.
pub open spec fn tab_error(t: Tab, i: int) -> Option<Seq<char>> {
    let head = "tab #"@ + numeral::decimal(i as nat) + " ("@ + t.name@;
    if t.kind@ == "apps"@ {
        None
    } else if t.kind@ == "app"@ {
        if text::trimmed(app_of(t)).len() == 0 {
            Some(head + "): `app_id` is required for kind `app`"@)
        } else {
            None
        }
    } else {
        Some(head + "): unknown kind `"@ + t.kind@ + "` (use `apps` or `app`)"@)
    }
}

fn tab_error_of(t: &Tab, i: usize) -> (r: Option<String>)
    ensures
        text::opt_view(r) == tab_error(*t, i as int),
{
    let n = dec_size(i);
    if str_eq(t.kind.as_str(), "apps") {
        None
    } else if str_eq(t.kind.as_str(), "app") {
        let app = match &t.app_id {
            Some(a) => a.as_str(),
            None => "",
        };
        if trim(app).is_empty() {
            Some(
                cat5(
                    "tab #",
                    n.as_str(),
                    " (",
                    t.name.as_str(),
                    "): `app_id` is required for kind `app`",
                ),
            )
        } else {
            None
        }
    } else {
        Some(
            cat7(
                "tab #",
                n.as_str(),
                " (",
                t.name.as_str(),
                "): unknown kind `",
                t.kind.as_str(),
                "` (use `apps` or `app`)",
            ),
        )
    }
}

/// The first error among the first `n` tabs.
pub open spec fn first_error(t: Seq<Tab>, n: int) -> Option<Seq<char>>
    decreases n,
{
    if n <= 0 {
        None
    } else {
        match first_error(t, n - 1) {
            Some(e) => Some(e),
            None => tab_error(t[n - 1], n - 1),
        }
    }
}

proof fn lemma_first_error(t: Seq<Tab>, i: int, n: int)
    requires
        0 <= i <= n,
        first_error(t, i) is Some,
    ensures
        first_error(t, n) == first_error(t, i),
    decreases n - i,
{
    if i < n {
        lemma_first_error(t, i, n - 1);
    }
}

/// What is wrong with the settings: there is no tab, or a tab is wrong.
pub open spec fn config_error(c: Config) -> Option<Seq<char>> {
    if c.tabs@.len() == 0 {
        Some("config: at least one [[tabs]] entry required"@)
    } else {
        first_error(c.tabs@, c.tabs@.len() as int)
    }
}

impl Config {
    /// The settings file that is written where there is none.
    pub const EXAMPLE: &'static str = r##"# mnml-aws-amplify config. Edit and re-run.
#
# Optional top-level region (defers to AWS CLI when unset):
# region = "us-east-1"

refresh_interval_secs = 60

# Hide stale / decommissioned apps from the "All apps" list.
# Get an id from `aws amplify list-apps` or the Amplify console URL.
# hidden_app_ids = ["d1oldappxyz", "d1anotheroldapp"]

# ── Tabs ─────────────────────────────────────────────────────────
# Each [[tabs]] entry is one tab. Two kinds:
#   apps — list every Amplify app in the region (broad view)
#   app  — drill into one specific app's branches + deploy jobs
#
# Start with just the "All apps" tab. Add per-app tabs below once
# you know which apps you look at often — get the app_id from the
# Amplify console URL or `aws amplify list-apps`.

[[tabs]]
name = "All apps"
kind = "apps"

# [[tabs]]
# name = "Frontend"
# kind = "app"
# app_id = "d1lhq5v1rnado8"   # example: from the console URL
"##;

    /// Whether the settings can be used, or what is wrong with them.
    pub fn validate(&self) -> (r: Result<(), String>)
        ensures
            match r {
                Ok(_) => config_error(*self) is None,
                Err(e) => config_error(*self) == Some(e@),
            },
    {
        if self.tabs.len() == 0 {
            return Err(owned("config: at least one [[tabs]] entry required"));
        }
        let mut i: usize = 0;
        while i < self.tabs.len()
            invariant
                i <= self.tabs.len(),
                self.tabs.len() > 0,
                first_error(self.tabs@, i as int) is None,
            decreases self.tabs.len() - i,
        {
            if let Some(e) = tab_error_of(&self.tabs[i], i) {
                proof {
                    lemma_first_error(self.tabs@, i + 1, self.tabs.len() as int);
                }
                return Err(e);
            }
            i = i + 1;
        }
        Ok(())
    }
}

} // verus!
