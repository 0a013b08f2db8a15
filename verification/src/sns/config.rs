//! The settings of the topics browser.

use vstd::prelude::*;

use crate::numeral;
use crate::numeral::dec_size;
use crate::text;
use crate::text::{cat5, cat7, owned, quote, str_eq, trim};

verus! {

/// The settings.
pub struct Config {
    /// The region where a tab names none.
    pub region: Option<String>,
    /// The seconds between two loads; 0 for no load but by key.
    pub refresh_interval_secs: u64,
    pub tabs: Vec<Tab>,
}

/// The seconds between two loads where the settings name none.
pub fn default_refresh() -> (r: u64)
    ensures
        r == 60,
{
    60
}

/// A tab in the settings.
pub struct Tab {
    pub name: String,
    /// `topics` for all topics, `subscriptions` for those to one topic.
    pub kind: String,
    /// The topic, where `kind` is `subscriptions`.
    pub topic_arn: Option<String>,
    /// What the names of the topics begin with, where `kind` is `topics`.
    pub prefix: Option<String>,
    pub region: Option<String>,
}

/// The kind of a tab that names none.
pub fn default_kind() -> (r: String)
    ensures
        r@ == "topics"@,
{
    owned("topics")
}

/// The topic of a tab, or nothing.
pub open spec fn topic_of(t: Tab) -> Seq<char> {
    match t.topic_arn {
        Some(a) => a@,
        None => ""@,
    }
}

/// What is wrong with the tab `t`, which is number `i`.
pub open spec fn tab_error(t: Tab, i: int) -> Option<Seq<char>> {
    let head = "tab #"@ + numeral::decimal(i as nat) + " ("@ + t.name@;
    if t.kind@ == "topics"@ {
        None
    } else if t.kind@ == "subscriptions"@ {
        if text::trimmed(topic_of(t)).len() == 0 {
            Some(head + "): kind=\"subscriptions\" requires `topic_arn`"@)
        } else {
            None
        }
    } else {
        Some(
            head + "): unknown kind "@ + text::quoted(t.kind@)
                + " (expected \"topics\" or \"subscriptions\")"@,
        )
    }
}

fn tab_error_of(t: &Tab, i: usize) -> (r: Option<String>)
    ensures
        text::opt_view(r) == tab_error(*t, i as int),
{
    let n = dec_size(i);
    if str_eq(t.kind.as_str(), "topics") {
        None
    } else if str_eq(t.kind.as_str(), "subscriptions") {
        let topic = match &t.topic_arn {
            Some(a) => a.as_str(),
            None => "",
        };
        if trim(topic).is_empty() {
            Some(
                cat5(
                    "tab #",
                    n.as_str(),
                    " (",
                    t.name.as_str(),
                    "): kind=\"subscriptions\" requires `topic_arn`",
                ),
            )
        } else {
            None
        }
    } else {
        let kind = quote(t.kind.as_str());
        Some(
            cat7(
                "tab #",
                n.as_str(),
                " (",
                t.name.as_str(),
                "): unknown kind ",
                kind.as_str(),
                " (expected \"topics\" or \"subscriptions\")",
            ),
        )
    }
}

/// The first error among the first `n` tabs.
pub open spec fn first_error(t: Seq<Tab>, n: int) -> Option<Seq<char>>
    decreases n,
{
    if n <= 0 {
        None
    } else {
        match first_error(t, n - 1) {
            Some(e) => Some(e),
            None => tab_error(t[n - 1], n - 1),
        }
    }
}

proof fn lemma_first_error(t: Seq<Tab>, i: int, n: int)
    requires
        0 <= i <= n,
        first_error(t, i) is Some,
    ensures
        first_error(t, n) == first_error(t, i),
    decreases n - i,
{
    if i < n {
        lemma_first_error(t, i, n - 1);
    }
}

/// What is wrong with the settings: there is no tab, or a tab is wrong.
pub open spec fn config_error(c: Config) -> Option<Seq<char>> {
    if c.tabs@.len() == 0 {
        Some("config: at least one [[tabs]] entry required"@)
    } else {
        first_error(c.tabs@, c.tabs@.len() as int)
    }
}

impl Config {
    /// The settings file that is written where there is none.
    pub const EXAMPLE: &'static str = r##"# mnml-aws-sns config. Edit and re-run.
#
# Optional top-level region (defers to AWS CLI when unset):
# region = "us-east-1"

refresh_interval_secs = 60

# ── Tabs ─────────────────────────────────────────────────────────
# Kinds:
#   "topics"        — every SNS topic in the region (default)
#   "subscriptions" — subscriptions to a specific topic (requires
#                     `topic_arn`)

[[tabs]]
name = "Topics"
kind = "topics"

# Example: scope by name prefix —
# [[tabs]]
# name = "billing topics"
# kind = "topics"
# prefix = "billing-"

# Example subscriptions tab — uncomment + set the topic ARN:
# [[tabs]]
# name = "orders subs"
# kind = "subscriptions"
# topic_arn = "arn:aws:sns:us-east-1:111111111111:orders-created"
"##;

    /// Whether the settings can be used, or what is wrong with them.
    pub fn validate(&self) -> (r: Result<(), String>)
        ensures
            match r {
                Ok(_) => config_error(*self) is None,
                Err(e) => config_error(*self) == Some(e@),
            },
    {
        if self.tabs.len() == 0 {
            return Err(owned("config: at least one [[tabs]] entry required"));
        }
        let mut i: usize = 0;
        while i < self.tabs.len()
            invariant
                i <= self.tabs.len(),
                self.tabs.len() > 0,
                first_error(self.tabs@, i as int) is None,
            decreases self.tabs.len() - i,
        {
            if let Some(e) = tab_error_of(&self.tabs[i], i) {
                proof {
                    lemma_first_error(self.tabs@, i + 1, self.tabs.len() as int);
                }
                return Err(e);
            }
            i = i + 1;
        }
        Ok(())
    }
}

} // verus!
