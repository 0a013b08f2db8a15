//! The settings of the user pools browser.

use vstd::prelude::*;

use crate::numeral;
use crate::numeral::dec_size;
use crate::text;
use crate::text::{cat5, cat7, owned, quote, str_eq, text_or_empty, trim};

verus! {

/// The settings.
pub struct Config {
    /// The region where a tab names none; the AWS command line decides where
    /// there is none at all.
    pub region: Option<String>,
    /// The seconds between two loads; 0 for no load but by key.
    pub refresh_interval_secs: u64,
    pub tabs: Vec<Tab>,
}

/// The seconds between two loads where the settings name none.
pub fn default_refresh() -> (r: u64)
    ensures
        r == 60,
{
    60
}

/// A tab in the settings.
pub struct Tab {
    /// What the strip of tabs shows.
    pub name: String,
    /// `pools` for all user pools, `users` for the users of one.
    pub kind: String,
    /// The user pool, where `kind` is `users`.
    pub user_pool_id: Option<String>,
    /// How many users are listed at most.
    pub user_limit: u32,
    /// The region of this tab.
    pub region: Option<String>,
}

/// The kind of a tab that names none.
pub fn default_kind() -> (r: String)
    ensures
        r@ == "pools"@,
{
    owned("pools")
}

/// How many users are listed at most where a tab does not say.
pub fn default_user_limit() -> (r: u32)
    ensures
        r == 60,
{
    60
}

/// The tab names no user pool.
pub open spec fn lacks_pool(t: Tab) -> bool {
    text::trimmed(text::or_empty(t.user_pool_id)).len() == 0
}

/// What is wrong with the tab `t`, which is number `i`.
pub open spec fn tab_error(t: Tab, i: int) -> Option<Seq<char>> {
    let head = "tab #"@ + numeral::decimal(i as nat) + " ("@ + t.name@;
    if t.kind@ == "pools"@ {
        None
    } else if t.kind@ == "users"@ {
        if lacks_pool(t) {
            Some(head + "): kind=\"users\" requires `user_pool_id`"@)
        } else if t.user_limit == 0 || t.user_limit > 600 {
            Some(head + "): user_limit must be in 1..=600 (Cognito caps a page at 60)"@)
        } else {
            None
        }
    } else {
        Some(
            head + "): unknown kind "@ + text::quoted(t.kind@)
                + " (expected \"pools\" or \"users\")"@,
        )
    }
}

fn tab_error_of(t: &Tab, i: usize) -> (r: Option<String>)
    ensures
        text::opt_view(r) == tab_error(*t, i as int),
{
    let n = dec_size(i);
    if str_eq(t.kind.as_str(), "pools") {
        None
    } else if str_eq(t.kind.as_str(), "users") {
        if trim(text_or_empty(&t.user_pool_id)).is_empty() {
            Some(
                cat5(
                    "tab #",
                    n.as_str(),
                    " (",
                    t.name.as_str(),
                    "): kind=\"users\" requires `user_pool_id`",
                ),
            )
        } else if t.user_limit == 0 || t.user_limit > 600 {
            Some(
                cat5(
                    "tab #",
                    n.as_str(),
                    " (",
                    t.name.as_str(),
                    "): user_limit must be in 1..=600 (Cognito caps a page at 60)",
                ),
            )
        } else {
            None
        }
    } else {
        let kind = quote(t.kind.as_str());
        Some(
            cat7(
                "tab #",
                n.as_str(),
                " (",
                t.name.as_str(),
                "): unknown kind ",
                kind.as_str(),
                " (expected \"pools\" or \"users\")",
            ),
        )
    }
}

/// The first error among the first `n` tabs.
pub open spec fn first_error(t: Seq<Tab>, n: int) -> Option<Seq<char>>
    decreases n,
{
    if n <= 0 {
        None
    } else {
        match first_error(t, n - 1) {
            Some(e) => Some(e),
            None => tab_error(t[n - 1], n - 1),
        }
    }
}

proof fn lemma_first_error(t: Seq<Tab>, i: int, n: int)
    requires
        0 <= i <= n,
        first_error(t, i) is Some,
    ensures
        first_error(t, n) == first_error(t, i),
    decreases n - i,
{
    if i < n {
        lemma_first_error(t, i, n - 1);
    }
}

/// What is wrong with the settings: there is no tab, or a tab is wrong.
pub open spec fn config_error(c: Config) -> Option<Seq<char>> {
    if c.tabs@.len() == 0 {
        Some("config: at least one [[tabs]] entry required"@)
    } else {
        first_error(c.tabs@, c.tabs@.len() as int)
    }
}

impl Config {
    /// The settings file that is written where there is none.
    pub const EXAMPLE: &'static str = r##"# mnml-aws-cognito config. Edit and re-run.
#
# Optional top-level region (defers to AWS CLI when unset):
# region = "us-east-1"

refresh_interval_secs = 60

# ── Tabs ─────────────────────────────────────────────────────────
# Kinds:
#   "pools" — every Cognito User Pool in the region (default)
#   "users" — recent users in a specific pool (requires `user_pool_id`)

[[tabs]]
name = "Pools"
kind = "pools"

# Example users tab — uncomment + set the pool ID:
# [[tabs]]
# name = "Recent users"
# kind = "users"
# user_pool_id = "us-east-1_abc123"
# user_limit = 60
"##;

    /// Whether the settings can be used, or what is wrong with them.
    pub fn validate(&self) -> (r: Result<(), String>)
        ensures
            match r {
                Ok(_) => config_error(*self) is None,
                Err(e) => config_error(*self) == Some(e@),
            },
    {
        if self.tabs.len() == 0 {
            return Err(owned("config: at least one [[tabs]] entry required"));
        }
        let mut i: usize = 0;
        while i < self.tabs.len()
            invariant
                i <= self.tabs.len(),
                self.tabs.len() > 0,
                first_error(self.tabs@, i as int) is None,
            decreases self.tabs.len() - i,
        {
            if let Some(e) = tab_error_of(&self.tabs[i], i) {
                proof {
                    lemma_first_error(self.tabs@, i + 1, self.tabs.len() as int);
                }
                return Err(e);
            }
            i = i + 1;
        }
        Ok(())
    }
}

} // verus!
