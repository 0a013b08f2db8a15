//! The settings of the logs browser.

use vstd::prelude::*;

use crate::numeral;
use crate::numeral::dec_size;
use crate::text;
use crate::text::{cat5, last_piece, owned, trim};

verus! {

/// The settings.
pub struct Config {
    /// The region where a tab names none; the AWS command line decides where
    /// there is none at all.
    pub region: Option<String>,
    /// Not in use: logs are followed live.
    pub refresh_interval_secs: u64,
    pub tabs: Vec<Tab>,
}

/// The seconds between two loads where the settings name none.
pub fn default_refresh() -> (r: u64)
    ensures
        r == 0,
{
    0
}

/// A tab in the settings.
pub struct Tab {
    /// What the strip of tabs shows.
    pub name: String,
    /// The group of logs.
    pub log_group: String,
    /// The one stream of the group that is followed.
    pub log_stream: Option<String>,
    /// The region of this tab.
    pub region: Option<String>,
    /// The pattern that lines have to meet, as CloudWatch knows it.
    pub filter: Option<String>,
}

/// The tab names no group of logs.
pub open spec fn lacks_group(t: Tab) -> bool {
    text::trimmed(t.log_group@).len() == 0
}

/// What is wrong with the tab `t`, which is number `i`.
pub open spec fn tab_error(t: Tab, i: int) -> Option<Seq<char>> {
    if lacks_group(t) {
        Some("tab #"@ + numeral::decimal(i as nat) + " ("@ + t.name@ + "): `log_group` is required"@)
    } else {
        None
    }
}

fn tab_error_of(t: &Tab, i: usize) -> (r: Option<String>)
    ensures
        text::opt_view(r) == tab_error(*t, i as int),
{
    if trim(t.log_group.as_str()).is_empty() {
        Some(
            cat5(
                "tab #",
                dec_size(i).as_str(),
                " (",
                t.name.as_str(),
                "): `log_group` is required",
            ),
        )
    } else {
        None
    }
}

/// The first error among the first `n` tabs.
pub open spec fn first_error(t: Seq<Tab>, n: int) -> Option<Seq<char>>
    decreases n,
{
    if n <= 0 {
        None
    } else {
        match first_error(t, n - 1) {
            Some(e) => Some(e),
            None => tab_error(t[n - 1], n - 1),
        }
    }
}

proof fn lemma_first_error(t: Seq<Tab>, i: int, n: int)
    requires
        0 <= i <= n,
        first_error(t, i) is Some,
    ensures
        first_error(t, n) == first_error(t, i),
    decreases n - i,
{
    if i < n {
        lemma_first_error(t, i, n - 1);
    }
}

/// What is wrong with the settings: there is no tab, or a tab is wrong.
pub open spec fn config_error(c: Config) -> Option<Seq<char>> {
    if c.tabs@.len() == 0 {
        Some("config: at least one [[tabs]] entry required"@)
    } else {
        first_error(c.tabs@, c.tabs@.len() as int)
    }
}

/// The name of the tab for a group of logs: what stands behind the last slash,
/// or all of it where that is nothing.
pub open spec fn group_label(group: Seq<char>) -> Seq<char> {
    if text::after_last(group, '/').len() > 0 {
        text::after_last(group, '/')
    } else {
        group
    }
}

impl Config {
    /// The settings file that is written where there is none.
    pub const EXAMPLE: &'static str = r##"# mnml-aws-cloudwatch-logs config. Edit and re-run.
#
# Optional top-level region (defers to AWS CLI when unset):
# region = "us-east-1"

refresh_interval_secs = 0

# ── Tabs ─────────────────────────────────────────────────────────
# Each [[tabs]] entry is one log group + optional stream filter.
# Switch with 1-9 in the TUI; each tab spawns `aws logs tail --follow`
# on first activation and keeps the child running until close.

[[tabs]]
name = "lambda errors"
log_group = "/aws/lambda/my-function"
# Optional: narrow to one stream
# log_stream = "2026/06/06/[$LATEST]abc123"
# Optional: filter pattern (substring or CloudWatch Logs syntax)
filter = "ERROR"

[[tabs]]
name = "api gateway"
log_group = "/aws/apigateway/my-api"

[[tabs]]
name = "ecs service"
log_group = "/ecs/my-service"
"##;

    /// Whether the settings can be used, or what is wrong with them.
    pub fn validate(&self) -> (r: Result<(), String>)
        ensures
            match r {
                Ok(_) => config_error(*self) is None,
                Err(e) => config_error(*self) == Some(e@),
            },
    {
        if self.tabs.len() == 0 {
            return Err(owned("config: at least one [[tabs]] entry required"));
        }
        let mut i: usize = 0;
        while i < self.tabs.len()
            invariant
                i <= self.tabs.len(),
                self.tabs.len() > 0,
                first_error(self.tabs@, i as int) is None,
            decreases self.tabs.len() - i,
        {
            if let Some(e) = tab_error_of(&self.tabs[i], i) {
                proof {
                    lemma_first_error(self.tabs@, i + 1, self.tabs.len() as int);
                }
                return Err(e);
            }
            i = i + 1;
        }
        Ok(())
    }

    /// The settings for one group of logs, without any file.
    pub fn one_off_tab(
        log_group: String,
        name: Option<String>,
        filter: Option<String>,
        region: Option<String>,
    ) -> (r: Config)
        ensures
            r.refresh_interval_secs == 0,
            r.tabs@.len() == 1,
            r.tabs@[0].name@ == (match name {
                Some(n) => n@,
                None => group_label(log_group@),
            }),
            r.tabs@[0].log_group == log_group,
            r.tabs@[0].log_stream is None,
            r.tabs@[0].filter == filter,
            text::opt_view(r.tabs@[0].region) == text::opt_view(region),
            r.region == region,
    {
        let label = match name {
            Some(n) => n,
            None => {
                let last = last_piece(log_group.as_str(), '/');
                if last.is_empty() {
                    log_group.clone()
                } else {
                    owned(last)
                }
            },
        };
        let again = text::copy_opt(&region);
        Config {
            region,
            refresh_interval_secs: 0,
            tabs: vec![Tab { name: label, log_group, log_stream: None, region: again, filter }],
        }
    }
}

/// The settings for one group of logs can be used, if the group has a name.
pub proof fn law_one_off_settings_are_valid(c: Config, group: String)
    requires
        c.tabs@.len() == 1,
        c.tabs@[0].log_group == group,
    ensures
        config_error(c) is None <==> text::trimmed(group@).len() > 0,
{
    reveal_with_fuel(first_error, 2);
}

} // verus!
