//! The settings of the schedules browser, and the two columns that they fill
//! from a schedule's target input.

use vstd::prelude::*;

use crate::json;
use crate::json::{number_text, parse_json, Json};
use crate::text;
use crate::text::{owned, split};

verus! {

/// The settings.
pub struct Config {
    /// The region to ask; the AWS command line decides where there is none.
    pub region: Option<String>,
    /// The path into a target input whose value is the ENV column.
    pub env_path: String,
    /// The path into a target input whose value is the BRANCH column.
    pub branch_path: String,
}

impl Default for Config {
    fn default() -> (r: Self)
        ensures
            r.region is None,
            r.env_path@ == Seq::<char>::empty(),
            r.branch_path@ == Seq::<char>::empty(),
    {
        Config { region: None, env_path: String::new(), branch_path: String::new() }
    }
}

/// The settings file that is written where there is none.
pub const SCAFFOLD: &'static str = r##"# mnml-aws-eventbridge config.
#
# AWS region to query. Leave unset to let the aws CLI resolve
# (env vars, profile, ~/.aws/config).
# region = "us-east-1"

# ── ENV / BRANCH columns ──────────────────────────────────────
# Two extra columns in the schedules table extract values from
# each schedule's target Input JSON. Configure the dot-path
# to the field in your target-input shape. Unset (or empty) =
# the column shows a dash for every schedule.
#
# Example: if your target input JSON is
#   { "job": { "env": "prod", "branch": "main" } }
# then set:
#   env_path    = "job.env"
#   branch_path = "job.branch"
#
# Deliberately generic — no product-specific defaults. Different
# schedules with different target shapes just show a dash where
# the path misses.
#
# env_path    = ""
# branch_path = ""
"##;

/// The value that is reached from `v` by asking for one member after another.
pub open spec fn reached(v: json::JsonV, parts: Seq<Seq<char>>) -> Option<json::JsonV>
    decreases parts.len(),
{
    if parts.len() == 0 {
        Some(v)
    } else {
        match reached(v, parts.drop_last()) {
            Some(x) => json::member(x, parts.last()),
            None => None,
        }
    }
}

/// The text of a value that is a text, a number or a truth value.
pub open spec fn scalar_text(v: json::JsonV) -> Option<Seq<char>> {
    match v {
        json::JsonV::Text(s) => Some(s),
        json::JsonV::Number(n) => Some(n),
        json::JsonV::Bool(b) => Some(if b {
            "true"@
        } else {
            "false"@
        }),
        _ => None,
    }
}

/// The text that stands in `v` at the end of a path, whose steps are parted by
/// dots. There is none at the end of the empty path, where a step is missing,
/// or where the value is an array, an object or null.
pub open spec fn text_at_path(v: json::JsonV, path: Seq<char>) -> Option<Seq<char>> {
    if path.len() == 0 {
        None
    } else {
        match reached(v, text::split_at_char(path, '.')) {
            Some(x) => scalar_text(x),
            None => None,
        }
    }
}

proof fn lemma_reached_none(v: json::JsonV, parts: Seq<Seq<char>>, i: int)
    requires
        0 <= i <= parts.len(),
        reached(v, parts.take(i)) is None,
    ensures
        reached(v, parts) is None,
    decreases parts.len(),
{
    if i == parts.len() {
        assert(parts.take(i) =~= parts);
    } else {
        assert(parts.drop_last().take(i) =~= parts.take(i));
        lemma_reached_none(v, parts.drop_last(), i);
    }
}

/// Walks a path into a value that has been read already.
pub fn walk_path(v: &Json, dot_path: &str) -> (r: Option<String>)
    ensures
        text::opt_view(r) == text_at_path(v@, dot_path@),
{
    if dot_path.is_empty() {
        return None;
    }
    let parts = split(dot_path, '.');
    let ghost steps = text::split_at_char(dot_path@, '.');
    let mut cur: &Json = v;
    let mut i: usize = 0;
    assert(steps.take(0) =~= Seq::empty());
    while i < parts.len()
        invariant
            i <= parts.len(),
            text::views(parts@) == steps,
            steps == text::split_at_char(dot_path@, '.'),
            dot_path@.len() > 0,
            reached(v@, steps.take(i as int)) == Some(cur@),
        decreases parts.len() - i,
    {
        assert(steps.take(i + 1).drop_last() =~= steps.take(i as int));
        assert(steps.take(i + 1).last() == parts@[i as int]@);
        match cur.get(parts[i].as_str()) {
            Some(x) => {
                cur = x;
            },
            None => {
                proof {
                    lemma_reached_none(v@, steps, i + 1);
                }
                return None;
            },
        }
        i = i + 1;
    }
    assert(steps.take(steps.len() as int) =~= steps);
    match cur {
        Json::Text(s) => Some(s.clone()),
        Json::Number(n) => Some(number_text(n)),
        Json::Bool(b) => Some(owned(if *b { "true" } else { "false" })),
        _ => None,
    }
}

/// The text that stands in a JSON text at the end of a path.
pub fn extract_json_path(input: &str, dot_path: &str) -> (r: Option<String>)
    ensures
        text::opt_view(r) == (match json::json_in_text(input@) {
            Some(v) => text_at_path(v, dot_path@),
            None => None,
        }),
        dot_path@.len() == 0 ==> r is None,
{
    match parse_json(input) {
        Some(v) => walk_path(&v, dot_path),
        None => None,
    }
}

} // verus!
