//! Projects and builds, and the requests by which they are read and started.

use vstd::prelude::*;

use crate::command;
use crate::command::{aws_args, read_aws_reply, with_all, with_option, Ran, Turn, TurnV};
use crate::json;
use crate::json::{Json, JsonV};
use crate::numeral;
use crate::numeral::{dec_size, parse_i64, parse_u32};
use crate::order;
use crate::order::{sort_by, sort_texts};
use crate::text;
use crate::text::{byte_len, cat2, chars_of, list_of, owned, push_str, str_before, str_eq, string_of, trim};

verus! {

/// How many builds are read of a project where no number is given.
pub const DEFAULT_RECENT_LIMIT: usize = 5;

/// How many projects one request can name.
pub const CHUNK: usize = 100;

/// What a project is made of.
pub struct ProjectDetail {
    pub name: String,
    pub arn: String,
    pub source_type: Option<String>,
    pub source_location: Option<String>,
    pub buildspec: Option<String>,
    pub environment_image: Option<String>,
    pub compute_type: Option<String>,
    pub service_role: Option<String>,
    pub log_group: Option<String>,
    pub timeout_minutes: Option<u64>,
}

/// A `ProjectDetail` by its contents.
pub struct ProjectV {
    pub name: Seq<char>,
    pub arn: Seq<char>,
    pub source_type: Option<Seq<char>>,
    pub source_location: Option<Seq<char>>,
    pub buildspec: Option<Seq<char>>,
    pub environment_image: Option<Seq<char>>,
    pub compute_type: Option<Seq<char>>,
    pub service_role: Option<Seq<char>>,
    pub log_group: Option<Seq<char>>,
    pub timeout_minutes: Option<u64>,
}

impl View for ProjectDetail {
    type V = ProjectV;

    open spec fn view(&self) -> ProjectV {
        ProjectV {
            name: self.name@,
            arn: self.arn@,
            source_type: text::opt_view(self.source_type),
            source_location: text::opt_view(self.source_location),
            buildspec: text::opt_view(self.buildspec),
            environment_image: text::opt_view(self.environment_image),
            compute_type: text::opt_view(self.compute_type),
            service_role: text::opt_view(self.service_role),
            log_group: text::opt_view(self.log_group),
            timeout_minutes: self.timeout_minutes,
        }
    }
}

/// The contents of some projects.
pub open spec fn project_views(s: Seq<ProjectDetail>) -> Seq<ProjectV> {
    s.map_values(|p: ProjectDetail| p@)
}

/// The number of the member `k` as a word.
pub open spec fn word_member(v: JsonV, k: Seq<char>) -> Option<u64> {
    match json::count_member(v, k) {
        Some(n) => Some(n as u64),
        None => None,
    }
}

/// The log group that the settings of a project name; else the one that
/// CodeBuild makes for it.
pub open spec fn log_group_in(v: JsonV, name: Seq<char>) -> Seq<char> {
    let named = match json::member(v, "logsConfig"@) {
        Some(l) => json::inner_text(l, "cloudWatchLogs"@, "groupName"@),
        None => None,
    };
    match named {
        Some(g) => g,
        None => "/aws/codebuild/"@ + name,
    }
}

/// The project that a JSON value describes; none where it has no name.
pub open spec fn project_in(v: JsonV) -> Option<ProjectV> {
    match json::text_member(v, "name"@) {
        None => None,
        Some(name) => Some(
            ProjectV {
                name,
                arn: json::text_member_or(v, "arn"@, ""@),
                source_type: json::inner_text(v, "source"@, "type"@),
                source_location: json::inner_text(v, "source"@, "location"@),
                buildspec: json::inner_text(v, "source"@, "buildspec"@),
                environment_image: json::inner_text(v, "environment"@, "image"@),
                compute_type: json::inner_text(v, "environment"@, "computeType"@),
                service_role: json::text_member(v, "serviceRole"@),
                log_group: Some(log_group_in(v, name)),
                timeout_minutes: word_member(v, "timeoutInMinutes"@),
            },
        ),
    }
}

/// The contents of an optional project.
pub open spec fn opt_project(p: Option<ProjectDetail>) -> Option<ProjectV> {
    match p {
        Some(x) => Some(x@),
        None => None,
    }
}

/// Reads the project that a JSON value describes.
pub fn parse_project(v: &Json) -> (r: Option<ProjectDetail>)
    ensures
        opt_project(r) == project_in(v@),
{
    let name = match v.text_at("name") {
        Some(n) => n,
        None => {
            return None;
        },
    };
    let named = match v.get("logsConfig") {
        Some(l) => l.inner_text_at("cloudWatchLogs", "groupName"),
        None => None,
    };
    let group = match named {
        Some(g) => g,
        None => cat2("/aws/codebuild/", name.as_str()),
    };
    Some(
        ProjectDetail {
            name,
            arn: v.text_or("arn", ""),
            source_type: v.inner_text_at("source", "type"),
            source_location: v.inner_text_at("source", "location"),
            buildspec: v.inner_text_at("source", "buildspec"),
            environment_image: v.inner_text_at("environment", "image"),
            compute_type: v.inner_text_at("environment", "computeType"),
            service_role: v.text_at("serviceRole"),
            log_group: Some(group),
            timeout_minutes: v.count_at("timeoutInMinutes"),
        },
    )
}

/// How a build ended, or that it has not ended yet.
#[derive(Clone, Copy, Debug, PartialEq, Eq, Structural)]
pub enum BuildStatus {
    Succeeded,
    Failed,
    InProgress,
    Stopped,
    Fault,
    TimedOut,
    Unknown,
}

/// The status that CodeBuild's word stands for.
pub open spec fn status_of(s: Seq<char>) -> BuildStatus {
    if s == "SUCCEEDED"@ {
        BuildStatus::Succeeded
    } else if s == "FAILED"@ {
        BuildStatus::Failed
    } else if s == "IN_PROGRESS"@ {
        BuildStatus::InProgress
    } else if s == "STOPPED"@ {
        BuildStatus::Stopped
    } else if s == "FAULT"@ {
        BuildStatus::Fault
    } else if s == "TIMED_OUT"@ {
        BuildStatus::TimedOut
    } else {
        BuildStatus::Unknown
    }
}

/// The sign of a status.
pub open spec fn status_glyph(s: BuildStatus) -> Seq<char> {
    match s {
        BuildStatus::Succeeded => "✓"@,
        BuildStatus::Failed => "✗"@,
        BuildStatus::InProgress => "⏵"@,
        BuildStatus::Stopped => "⊘"@,
        BuildStatus::Fault => "‼"@,
        BuildStatus::TimedOut => "⏱"@,
        BuildStatus::Unknown => "?"@,
    }
}

/// The word for a status.
pub open spec fn status_label(s: BuildStatus) -> Seq<char> {
    match s {
        BuildStatus::Succeeded => "succeeded"@,
        BuildStatus::Failed => "failed"@,
        BuildStatus::InProgress => "running"@,
        BuildStatus::Stopped => "stopped"@,
        BuildStatus::Fault => "fault"@,
        BuildStatus::TimedOut => "timeout"@,
        BuildStatus::Unknown => "unknown"@,
    }
}

impl BuildStatus {
    pub fn parse(s: &str) -> (r: BuildStatus)
        ensures
            r == status_of(s@),
    {
        if str_eq(s, "SUCCEEDED") {
            BuildStatus::Succeeded
        } else if str_eq(s, "FAILED") {
            BuildStatus::Failed
        } else if str_eq(s, "IN_PROGRESS") {
            BuildStatus::InProgress
        } else if str_eq(s, "STOPPED") {
            BuildStatus::Stopped
        } else if str_eq(s, "FAULT") {
            BuildStatus::Fault
        } else if str_eq(s, "TIMED_OUT") {
            BuildStatus::TimedOut
        } else {
            BuildStatus::Unknown
        }
    }

    pub fn glyph(self) -> (r: &'static str)
        ensures
            r@ == status_glyph(self),
    {
        match self {
            BuildStatus::Succeeded => "✓",
            BuildStatus::Failed => "✗",
            BuildStatus::InProgress => "⏵",
            BuildStatus::Stopped => "⊘",
            BuildStatus::Fault => "‼",
            BuildStatus::TimedOut => "⏱",
            BuildStatus::Unknown => "?",
        }
    }

    pub fn label(self) -> (r: &'static str)
        ensures
            r@ == status_label(self),
    {
        match self {
            BuildStatus::Succeeded => "succeeded",
            BuildStatus::Failed => "failed",
            BuildStatus::InProgress => "running",
            BuildStatus::Stopped => "stopped",
            BuildStatus::Fault => "fault",
            BuildStatus::TimedOut => "timeout",
            BuildStatus::Unknown => "unknown",
        }
    }
}

/// A build. Times are milliseconds since the epoch.
pub struct CodeBuildRecord {
    pub id: String,
    pub build_number: u64,
    pub status: BuildStatus,
    pub started_at_ms: Option<i64>,
    pub duration_ms: Option<u64>,
    /// The commit that was built, or what the build was asked to build.
    pub source_version: Option<String>,
    pub initiator: Option<String>,
    pub logs_deep_link: Option<String>,
    pub logs_group: Option<String>,
    pub logs_stream: Option<String>,
}

/// A `CodeBuildRecord` by its contents.
pub struct RecordV {
    pub id: Seq<char>,
    pub build_number: u64,
    pub status: BuildStatus,
    pub started_at_ms: Option<i64>,
    pub duration_ms: Option<u64>,
    pub source_version: Option<Seq<char>>,
    pub initiator: Option<Seq<char>>,
    pub logs_deep_link: Option<Seq<char>>,
    pub logs_group: Option<Seq<char>>,
    pub logs_stream: Option<Seq<char>>,
}

impl View for CodeBuildRecord {
    type V = RecordV;

    open spec fn view(&self) -> RecordV {
        RecordV {
            id: self.id@,
            build_number: self.build_number,
            status: self.status,
            started_at_ms: self.started_at_ms,
            duration_ms: self.duration_ms,
            source_version: text::opt_view(self.source_version),
            initiator: text::opt_view(self.initiator),
            logs_deep_link: text::opt_view(self.logs_deep_link),
            logs_group: text::opt_view(self.logs_group),
            logs_stream: text::opt_view(self.logs_stream),
        }
    }
}

/// The contents of some builds.
pub open spec fn record_views(s: Seq<CodeBuildRecord>) -> Seq<RecordV> {
    s.map_values(|b: CodeBuildRecord| b@)
}

/// The days from the first of January 1970 to a day of the Gregorian calendar:
/// whole eras of 400 years, then the years of the era, then the days since the
/// first of March.
pub open spec fn civil_days(y: int, m: int, d: int) -> int {
    let year = if m <= 2 {
        y - 1
    } else {
        y
    };
    let era = year / 400;
    let in_era = year % 400;
    let month = if m > 2 {
        m - 3
    } else {
        m + 9
    };
    era * 146_097 + in_era * 365 + in_era / 4 - in_era / 100 + (153 * month + 2) / 5 + d - 1 - 719_468
}

/// The days of a month.
pub open spec fn days_in_month(y: int, m: int) -> int {
    if m == 2 {
        if y % 4 == 0 && (y % 100 != 0 || y % 400 == 0) {
            29
        } else {
            28
        }
    } else if m == 4 || m == 6 || m == 9 || m == 11 {
        30
    } else {
        31
    }
}

/// Days are counted without a gap: a month begins one day after the last day of
/// the one before it, a year one day after the last of December; and the count
/// is 0 on the first of January 1970.
pub proof fn law_days_follow_each_other(y: int, m: int, d: int)
    requires
        1 <= m <= 12,
    ensures
        civil_days(y, m, d + 1) == civil_days(y, m, d) + 1,
        m < 12 ==> civil_days(y, m + 1, 1) == civil_days(y, m, days_in_month(y, m)) + 1,
        m == 12 ==> civil_days(y + 1, 1, 1) == civil_days(y, 12, 31) + 1,
        civil_days(1970, 1, 1) == 0,
{
    if m == 1 {
    } else if m == 2 {
        lemma_february(y);
    } else if m == 3 || m == 4 || m == 5 {
    } else if m == 6 || m == 7 || m == 8 {
    } else {
    }
}

/// March begins one day after the last day of February.
proof fn lemma_february(y: int)
    ensures
        civil_days(y, 3, 1) == civil_days(y, 2, days_in_month(y, 2)) + 1,
{
    let q = y / 400;
    let r = y % 400;
    assert(y == 400 * q + r && 0 <= r < 400);
    assert(y % 4 == r % 4);
    assert(y % 100 == r % 100);
    if r == 0 {
        assert((y - 1) / 400 == q - 1 && (y - 1) % 400 == 399);
    } else {
        assert((y - 1) / 400 == q && (y - 1) % 400 == r - 1);
        assert(r / 4 == (r - 1) / 4 + (if r % 4 == 0 {
            1int
        } else {
            0
        }));
        assert(r / 100 == (r - 1) / 100 + (if r % 100 == 0 {
            1int
        } else {
            0
        }));
    }
}

fn days_from_civil(y: i64, m: u32, d: u32) -> (r: i64)
    requires
        -1_000_000 <= y <= 1_000_000,
    ensures
        r == civil_days(y as int, m as int, d as int),
{
    let year: i64 = if m <= 2 { y - 1 } else { y };
    let lifted: u64 = (year + 1_000_400) as u64;
    let era: i64 = (lifted / 400) as i64 - 2501;
    let in_era: i64 = (lifted % 400) as i64;
    assert(year == 400 * era + in_era);
    assert(era == year as int / 400 && in_era == year as int % 400);
    let month: u64 = if m > 2 { (m as u64) - 3 } else { (m as u64) + 9 };
    let in_year: i64 = ((153 * month + 2) / 5) as i64 + (d as i64) - 1;
    let leaps: i64 = ((in_era as u64) / 4) as i64 - ((in_era as u64) / 100) as i64;
    era * 146_097 + in_era * 365 + leaps + in_year - 719_468
}

/// Every character is one byte long.
pub open spec fn ascii(s: Seq<char>) -> bool {
    forall|i: int| 0 <= i < s.len() ==> (#[trigger] s[i]) <= '\x7f'
}

fn is_ascii(v: &Vec<char>, from: usize, to: usize) -> (r: bool)
    requires
        from <= to <= v.len(),
    ensures
        r == ascii(v@.subrange(from as int, to as int)),
{
    let ghost s = v@.subrange(from as int, to as int);
    let mut i: usize = from;
    while i < to
        invariant
            from <= i <= to <= v.len(),
            s == v@.subrange(from as int, to as int),
            forall|k: int| 0 <= k < i - from ==> (#[trigger] s[k]) <= '\x7f',
        decreases to - i,
    {
        assert(s[i - from] == v@[i as int]);
        if v[i] > '\x7f' {
            return false;
        }
        i = i + 1;
    }
    true
}

/// The first place from `i` on that holds no digit.
pub open spec fn digits_end(s: Seq<char>, i: int) -> int
    decreases s.len() - i,
{
    if 0 <= i < s.len() && '0' <= s[i] <= '9' {
        digits_end(s, i + 1)
    } else {
        i
    }
}

/// The milliseconds that the digits behind a decimal point stand for: the first
/// three count, and missing ones are 0.
pub open spec fn millis_of(digits: Seq<char>) -> int {
    let first = text::first_chars(digits, 3);
    let n = match numeral::digits_value(first) {
        Some(n) => n as int,
        None => 0,
    };
    if first.len() == 1 {
        n * 100
    } else if first.len() == 2 {
        n * 10
    } else {
        n
    }
}

/// The offset from UTC in minutes at the end of a point in time: `Z`, or a sign,
/// two characters for the hours, one that does not matter, and two for the
/// minutes. What is too short to be an offset counts as none; an offset that
/// cannot be read spoils the whole.
pub open spec fn zone_minutes(rest: Seq<char>) -> Option<int> {
    if rest.len() > 0 && (rest[0] == '+' || rest[0] == '-') && vstd::utf8::encode_utf8(rest).len() > 5 {
        if rest.len() >= 6 && ascii(rest.subrange(0, 6)) {
            match (
                numeral::parsed_signed(rest.subrange(1, 3)),
                numeral::parsed_signed(rest.subrange(4, 6)),
            ) {
                (Some(h), Some(m)) => Some(
                    if rest[0] == '+' {
                        h * 60 + m
                    } else {
                        -(h * 60 + m)
                    },
                ),
                _ => None,
            }
        } else {
            None
        }
    } else {
        Some(0)
    }
}

/// The numbers of a point in time, of which the first nineteen characters are
/// `YYYY-MM-DDTHH:MM:SS`; what stands between the numbers does not matter.
pub struct Moment {
    pub year: int,
    pub month: int,
    pub day: int,
    pub hour: int,
    pub minute: int,
    pub second: int,
}

pub open spec fn moment_in(s: Seq<char>) -> Option<Moment> {
    if s.len() < 19 || !ascii(s.subrange(0, 19)) {
        None
    } else {
        match (
            numeral::parsed_signed(s.subrange(0, 4)),
            numeral::parsed_unsigned(s.subrange(5, 7), u32::MAX as nat),
            numeral::parsed_unsigned(s.subrange(8, 10), u32::MAX as nat),
            numeral::parsed_unsigned(s.subrange(11, 13), u32::MAX as nat),
            numeral::parsed_unsigned(s.subrange(14, 16), u32::MAX as nat),
            numeral::parsed_unsigned(s.subrange(17, 19), u32::MAX as nat),
        ) {
            (Some(year), Some(month), Some(day), Some(hour), Some(minute), Some(second)) => Some(
                Moment {
                    year,
                    month: month as int,
                    day: day as int,
                    hour: hour as int,
                    minute: minute as int,
                    second: second as int,
                },
            ),
            _ => None,
        }
    }
}

/// Where the zone of a point in time begins: behind the seconds and their
/// fraction.
pub open spec fn zone_at(s: Seq<char>) -> int {
    if s.len() > 19 && s[19] == '.' {
        digits_end(s, 20)
    } else {
        19
    }
}

/// The milliseconds of the fraction of a second, where there is one.
pub open spec fn fraction_in(s: Seq<char>) -> int {
    if s.len() > 19 && s[19] == '.' {
        millis_of(s.subrange(20, digits_end(s, 20)))
    } else {
        0
    }
}

/// The milliseconds since the epoch that a moment stands for in UTC.
pub open spec fn moment_ms(t: Moment, fraction: int, zone: int) -> int {
    civil_days(t.year, t.month, t.day) * 86_400_000 + t.hour * 3_600_000 + t.minute * 60_000 + t.second
        * 1_000 + fraction - zone * 60_000
}

/// The milliseconds since the epoch that a text in the form of ISO 8601 stands
/// for, if it can be read.
pub open spec fn iso_ms(text: Seq<char>) -> Option<int> {
    let s = text::trimmed(text);
    match moment_in(s) {
        None => None,
        Some(t) => match zone_minutes(s.skip(zone_at(s))) {
            None => None,
            Some(zone) => Some(moment_ms(t, fraction_in(s), zone)),
        },
    }
}

/// `n` digits stand for less than ten to the `n`.
proof fn lemma_few_digits(s: Seq<char>)
    ensures
        s.len() <= 4 ==> (numeral::digits_value(s) matches Some(n) ==> n <= 9999),
        s.len() <= 3 ==> (numeral::digits_value(s) matches Some(n) ==> n <= 999),
        s.len() <= 2 ==> (numeral::digits_value(s) matches Some(n) ==> n <= 99),
        s.len() <= 1 ==> (numeral::digits_value(s) matches Some(n) ==> n <= 9),
    decreases s.len(),
{
    if s.len() > 0 {
        lemma_few_digits(s.drop_last());
    }
}

/// What can be read from at most four characters is small.
proof fn lemma_small_fields(s: Seq<char>)
    requires
        s.len() <= 4,
    ensures
        numeral::parsed_signed(s) matches Some(n) ==> -9999 <= n <= 9999,
        numeral::parsed_unsigned(s, u32::MAX as nat) matches Some(n) ==> n <= 9999,
        s.len() == 2 ==> (numeral::parsed_signed(s) matches Some(n) ==> -99 <= n <= 99),
        s.len() == 2 ==> (numeral::parsed_unsigned(s, u32::MAX as nat) matches Some(n) ==> n <= 99),
{
    lemma_few_digits(s);
    if s.len() > 0 {
        lemma_few_digits(s.drop_first());
    }
}

fn field(v: &Vec<char>, from: usize, to: usize) -> (r: Option<u32>)
    requires
        from <= to <= v.len(),
        to - from == 2,
    ensures
        match numeral::parsed_unsigned(v@.subrange(from as int, to as int), u32::MAX as nat) {
            Some(n) => r == Some(n as u32) && n <= 99,
            None => r is None,
        },
{
    let t = string_of(v, from, to);
    proof {
        lemma_small_fields(t@);
    }
    parse_u32(t.as_str())
}

fn signed_field(v: &Vec<char>, from: usize, to: usize) -> (r: Option<i64>)
    requires
        from <= to <= v.len(),
        to - from <= 4,
    ensures
        match numeral::parsed_signed(v@.subrange(from as int, to as int)) {
            Some(n) => r == Some(n as i64) && -9999 <= n <= 9999 && (to - from == 2 ==> -99 <= n <= 99),
            None => r is None,
        },
{
    let t = string_of(v, from, to);
    proof {
        lemma_small_fields(t@);
    }
    parse_i64(t.as_str())
}

fn read_fraction(v: &Vec<char>) -> (r: (usize, i64))
    requires
        v.len() >= 19,
    ensures
        r.0 == zone_at(v@),
        19 <= r.0 <= v.len(),
        r.1 == fraction_in(v@),
        0 <= r.1 <= 999,
{
    if v.len() == 19 || v[19] != '.' {
        return (19, 0);
    }
    let mut i: usize = 20;
    while i < v.len() && '0' <= v[i] && v[i] <= '9'
        invariant
            20 <= i <= v.len(),
            digits_end(v@, 20) == digits_end(v@, i as int),
        decreases v.len() - i,
    {
        i = i + 1;
    }
    let n: usize = if i - 20 <= 3 { i - 20 } else { 3 };
    let first = string_of(v, 20, 20 + n);
    let ghost digits = v@.subrange(20, i as int);
    assert(first@ =~= text::first_chars(digits, 3));
    proof {
        lemma_few_digits(first@);
        lemma_digits_only(v@, 20);
        lemma_all_digits(first@);
    }
    let k: i64 = if n == 0 {
        0
    } else {
        match parse_u32(first.as_str()) {
            Some(k) => k as i64,
            None => 0,
        }
    };
    let ms: i64 = if n == 1 {
        k * 100
    } else if n == 2 {
        k * 10
    } else {
        k
    };
    (i, ms)
}

/// What stands between a place and the first one without a digit are digits.
proof fn lemma_digits_only(s: Seq<char>, i: int)
    requires
        0 <= i <= s.len(),
    ensures
        i <= digits_end(s, i) <= s.len(),
        forall|k: int| i <= k < digits_end(s, i) ==> '0' <= #[trigger] s[k] <= '9',
    decreases s.len() - i,
{
    if i < s.len() && '0' <= s[i] <= '9' {
        lemma_digits_only(s, i + 1);
    }
}

/// Digits stand for a number.
proof fn lemma_all_digits(s: Seq<char>)
    requires
        forall|k: int| 0 <= k < s.len() ==> '0' <= #[trigger] s[k] <= '9',
    ensures
        numeral::digits_value(s) is Some,
    decreases s.len(),
{
    if s.len() > 0 {
        assert forall|k: int| 0 <= k < s.drop_last().len() implies '0' <= #[trigger] s.drop_last()[k] <= '9' by {
            assert('0' <= s[k] <= '9');
        }
        lemma_all_digits(s.drop_last());
        assert('0' <= s[s.len() - 1] <= '9');
    }
}

fn read_zone(v: &Vec<char>, at: usize) -> (r: Option<i64>)
    requires
        at <= v.len(),
    ensures
        match zone_minutes(v@.skip(at as int)) {
            Some(z) => r == Some(z as i64) && -10_000 <= z <= 10_000,
            None => r is None,
        },
{
    let ghost rest = v@.skip(at as int);
    if at == v.len() || (v[at] != '+' && v[at] != '-') {
        return Some(0);
    }
    let tail = string_of(v, at, v.len());
    assert(tail@ =~= rest);
    if byte_len(tail.as_str()) <= 5 {
        return Some(0);
    }
    if v.len() - at < 6 {
        return None;
    }
    assert(v@.subrange(at as int, at + 6) =~= rest.subrange(0, 6));
    assert(v@.subrange(at + 1, at + 3) =~= rest.subrange(1, 3));
    assert(v@.subrange(at + 4, at + 6) =~= rest.subrange(4, 6));
    if !is_ascii(v, at, at + 6) {
        return None;
    }
    let h: i64 = match signed_field(v, at + 1, at + 3) {
        Some(h) => h,
        None => {
            return None;
        },
    };
    let m: i64 = match signed_field(v, at + 4, at + 6) {
        Some(m) => m,
        None => {
            return None;
        },
    };
    if v[at] == '+' {
        Some(h * 60 + m)
    } else {
        Some(-(h * 60 + m))
    }
}

/// Reads a point in time in the form of ISO 8601, as milliseconds since the
/// epoch.
pub fn parse_iso_ms(s: &str) -> (r: Option<i64>)
    ensures
        match iso_ms(s@) {
            Some(ms) => r == Some(ms as i64) && -10_000_000_000_000_000 <= ms <= 10_000_000_000_000_000,
            None => r is None,
        },
{
    let v = chars_of(trim(s));
    if v.len() < 19 || !is_ascii(&v, 0, 19) {
        return None;
    }
    let year: i64 = match signed_field(&v, 0, 4) {
        Some(n) => n,
        None => {
            return None;
        },
    };
    match (
        field(&v, 5, 7),
        field(&v, 8, 10),
        field(&v, 11, 13),
        field(&v, 14, 16),
        field(&v, 17, 19),
    ) {
        (Some(month), Some(day), Some(hour), Some(minute), Some(second)) => {
            let (at, fraction) = read_fraction(&v);
            let zone: i64 = match read_zone(&v, at) {
                Some(z) => z,
                None => {
                    return None;
                },
            };
            let days: i64 = days_from_civil(year, month, day);
            proof {
                lemma_days_bound(year as int, month as int, day as int);
            }
            let clock: i64 = (hour as i64) * 3_600_000 + (minute as i64) * 60_000 + (second as i64) * 1_000;
            Some(days * 86_400_000 + clock + fraction - zone * 60_000)
        },
        _ => None,
    }
}

proof fn lemma_days_bound(y: int, m: int, d: int)
    requires
        -9999 <= y <= 9999,
        0 <= m <= 99,
        0 <= d <= 99,
    ensures
        -10_000_000 <= civil_days(y, m, d) <= 10_000_000,
{
}

/// An offset moves a point in time by as many minutes: the same text with `Z` in
/// the place of the offset stands for a time that is later by the offset where
/// it is positive, and earlier where it is negative.
pub proof fn law_offset_moves_time(head: Seq<char>, zone: Seq<char>, minutes: int)
    requires
        head.len() == 19,
        moment_in(head) is Some,
        text::trimmed(head + zone) == head + zone,
        text::trimmed(head + seq!['Z']) == head + seq!['Z'],
        zone.len() > 0,
        zone[0] == '+' || zone[0] == '-',
        zone_minutes(zone) == Some(minutes),
    ensures
        iso_ms(head + zone) is Some,
        iso_ms(head + seq!['Z']) is Some,
        iso_ms(head + zone)->0 == iso_ms(head + seq!['Z'])->0 - minutes * 60_000,
{
    let a = head + zone;
    let b = head + seq!['Z'];
    assert(a.skip(19) =~= zone);
    assert(b.skip(19) =~= seq!['Z']);
    assert(a.subrange(0, 19) =~= head);
    assert(b.subrange(0, 19) =~= head);
    lemma_same_moment(head, a);
    lemma_same_moment(head, b);
}

proof fn lemma_same_moment(head: Seq<char>, s: Seq<char>)
    requires
        head.len() == 19,
        s.len() >= 19,
        head == s.subrange(0, 19),
    ensures
        moment_in(s) == moment_in(head),
{
    assert(head.subrange(0, 19) =~= s.subrange(0, 19));
    assert(head.subrange(0, 4) =~= s.subrange(0, 4));
    assert(head.subrange(5, 7) =~= s.subrange(5, 7));
    assert(head.subrange(8, 10) =~= s.subrange(8, 10));
    assert(head.subrange(11, 13) =~= s.subrange(11, 13));
    assert(head.subrange(14, 16) =~= s.subrange(14, 16));
    assert(head.subrange(17, 19) =~= s.subrange(17, 19));
}

/// A point in time as a word.
pub open spec fn opt_ms(text: Option<Seq<char>>) -> Option<i64> {
    match text {
        Some(t) => match iso_ms(t) {
            Some(ms) => Some(ms as i64),
            None => None,
        },
        None => None,
    }
}

/// How long a build took, where both its start and its end are known and it did
/// not end before it started.
pub open spec fn duration_of(start: Option<Seq<char>>, end: Option<Seq<char>>) -> Option<u64> {
    match (opt_ms(start), opt_ms(end)) {
        (Some(s), Some(e)) => if e >= s {
            Some((e - s) as u64)
        } else {
            None
        },
        _ => None,
    }
}

/// The build that a JSON value describes; none where it has no id.
pub open spec fn record_in(v: JsonV) -> Option<RecordV> {
    match json::text_member(v, "id"@) {
        None => None,
        Some(id) => Some(
            RecordV {
                id,
                build_number: match word_member(v, "buildNumber"@) {
                    Some(n) => n,
                    None => 0,
                },
                status: match json::text_member(v, "buildStatus"@) {
                    Some(s) => status_of(s),
                    None => BuildStatus::Unknown,
                },
                started_at_ms: opt_ms(json::text_member(v, "startTime"@)),
                duration_ms: duration_of(
                    json::text_member(v, "startTime"@),
                    json::text_member(v, "endTime"@),
                ),
                source_version: match json::text_member(v, "resolvedSourceVersion"@) {
                    Some(s) => Some(s),
                    None => json::text_member(v, "sourceVersion"@),
                },
                initiator: json::text_member(v, "initiator"@),
                logs_deep_link: json::inner_text(v, "logs"@, "deepLink"@),
                logs_group: json::inner_text(v, "logs"@, "groupName"@),
                logs_stream: json::inner_text(v, "logs"@, "streamName"@),
            },
        ),
    }
}

/// The contents of an optional build.
pub open spec fn opt_record(b: Option<CodeBuildRecord>) -> Option<RecordV> {
    match b {
        Some(x) => Some(x@),
        None => None,
    }
}

fn read_ms(text: &Option<String>) -> (r: Option<i64>)
    ensures
        r == opt_ms(text::opt_view(*text)),
        r matches Some(ms) ==> -10_000_000_000_000_000 <= ms <= 10_000_000_000_000_000,
{
    match text {
        Some(t) => parse_iso_ms(t.as_str()),
        None => None,
    }
}

/// Reads the build that a JSON value describes.
pub fn parse_build(v: &Json) -> (r: Option<CodeBuildRecord>)
    ensures
        opt_record(r) == record_in(v@),
{
    let id = match v.text_at("id") {
        Some(i) => i,
        None => {
            return None;
        },
    };
    let build_number: u64 = match v.count_at("buildNumber") {
        Some(n) => n,
        None => 0,
    };
    let status = match v.text_at("buildStatus") {
        Some(s) => BuildStatus::parse(s.as_str()),
        None => BuildStatus::Unknown,
    };
    let start: Option<i64> = read_ms(&v.text_at("startTime"));
    let end: Option<i64> = read_ms(&v.text_at("endTime"));
    let duration_ms: Option<u64> = match (start, end) {
        (Some(s), Some(e)) => {
            if e >= s {
                Some((e - s) as u64)
            } else {
                None
            }
        },
        _ => None,
    };
    let source_version = match v.text_at("resolvedSourceVersion") {
        Some(s) => Some(s),
        None => v.text_at("sourceVersion"),
    };
    Some(
        CodeBuildRecord {
            id,
            build_number,
            status,
            started_at_ms: start,
            duration_ms,
            source_version,
            initiator: v.text_at("initiator"),
            logs_deep_link: v.inner_text_at("logs", "deepLink"),
            logs_group: v.inner_text_at("logs", "groupName"),
            logs_stream: v.inner_text_at("logs", "streamName"),
        },
    )
}

/// The texts among some values, in their order.
pub open spec fn texts_in(a: Seq<JsonV>) -> Seq<Seq<char>>
    decreases a.len(),
{
    if a.len() == 0 {
        Seq::empty()
    } else {
        match json::text_in(a.last()) {
            Some(t) => texts_in(a.drop_last()).push(t),
            None => texts_in(a.drop_last()),
        }
    }
}

/// The texts of the array `k`; none where there is no such array.
pub open spec fn texts_member(v: JsonV, k: Seq<char>) -> Seq<Seq<char>> {
    match json::array_member(v, k) {
        Some(a) => texts_in(a),
        None => Seq::empty(),
    }
}

fn texts_at(v: &Json, k: &str) -> (r: Vec<String>)
    ensures
        text::views(r@) == texts_member(v@, k@),
{
    let mut out: Vec<String> = Vec::new();
    assert(text::views(out@) =~= Seq::empty());
    if let Some(a) = v.array_at(k) {
        let ghost all = json::elements_view(a@);
        let mut i: usize = 0;
        assert(all.take(0) =~= Seq::empty());
        while i < a.len()
            invariant
                i <= a.len(),
                all == json::elements_view(a@),
                text::views(out@) == texts_in(all.take(i as int)),
            decreases a.len() - i,
        {
            assert(all.take(i + 1).drop_last() =~= all.take(i as int));
            assert(all.take(i + 1).last() == a@[i as int]@);
            if let Some(t) = a[i].as_text() {
                push_str(&mut out, t);
            }
            i = i + 1;
        }
        assert(all.take(all.len() as int) =~= all);
    }
    out
}

/// A listing of all projects that is under way: the names so far, and the mark
/// of the next page.
pub struct Listing {
    pub names: Vec<String>,
    pub token: Option<String>,
}

/// A `Listing` by its contents.
#[verifier::ext_equal]
pub struct ListingV {
    pub names: Seq<Seq<char>>,
    pub token: Option<Seq<char>>,
}

impl View for Listing {
    type V = ListingV;

    open spec fn view(&self) -> ListingV {
        ListingV { names: text::views(self.names@), token: text::opt_view(self.token) }
    }
}

/// What follows on a page of the list of projects: its names are noted, and the
/// next page is asked for. At the end the names are sorted.
pub open spec fn listing_next(l: ListingV, ran: Ran) -> TurnV<ListingV, Seq<Seq<char>>> {
    match command::aws_reply("codebuild"@, ran) {
        Err(e) => TurnV::End(Err(e)),
        Ok(v) => {
            let names = l.names + texts_member(v, "projects"@);
            match json::text_member(v, "nextToken"@) {
                Some(token) => TurnV::Ask(ListingV { names, token: Some(token) }),
                None => TurnV::End(Ok(order::sorted_texts(names))),
            }
        },
    }
}

/// The contents of a turn of a listing.
pub open spec fn listing_turn(t: Turn<Listing, Vec<String>>) -> TurnV<ListingV, Seq<Seq<char>>> {
    match t {
        Turn::Ask(l) => TurnV::Ask(l@),
        Turn::End(Ok(v)) => TurnV::End(Ok(text::views(v@))),
        Turn::End(Err(e)) => TurnV::End(Err(e@)),
    }
}

/// Begins to list all projects.
pub fn list_projects() -> (r: Listing)
    ensures
        r@ == (ListingV { names: Seq::empty(), token: None }),
{
    let names: Vec<String> = Vec::new();
    assert(text::views(names@) =~= Seq::empty());
    Listing { names, token: None }
}

impl Listing {
    /// The arguments of `aws` for the next page.
    pub fn args(&self, region: Option<&str>) -> (r: Vec<String>)
        ensures
            text::views(r@) == command::aws_command(
                seq!["codebuild"@, "list-projects"@] + command::option_with(
                    "--next-token"@,
                    self@.token,
                ),
                text::opt_str_view(region),
            ),
    {
        let head = list_of(vec!["codebuild", "list-projects"]);
        assert(text::views(head@) =~= seq!["codebuild"@, "list-projects"@]);
        let args = with_option(head, "--next-token", command::as_slice(&self.token));
        aws_args(&args, region)
    }

    /// Takes in a page.
    pub fn next(self, ran: &Ran) -> (r: Turn<Listing, Vec<String>>)
        ensures
            listing_turn(r) == listing_next(self@, *ran),
    {
        let v = match read_aws_reply("codebuild", ran) {
            Ok(v) => v,
            Err(e) => {
                return Turn::End(Err(e));
            },
        };
        let page = texts_at(&v, "projects");
        let names = with_all(self.names, &page);
        match v.text_at("nextToken") {
            Some(token) => Turn::Ask(Listing { names, token: Some(token) }),
            None => Turn::End(Ok(sort_texts(names))),
        }
    }
}

/// The projects among some values, in their order.
pub open spec fn projects_in(a: Seq<JsonV>) -> Seq<ProjectV>
    decreases a.len(),
{
    if a.len() == 0 {
        Seq::empty()
    } else {
        match project_in(a.last()) {
            Some(p) => projects_in(a.drop_last()).push(p),
            None => projects_in(a.drop_last()),
        }
    }
}

/// Projects whose details are being read, `CHUNK` at a time: the names, how many
/// of them have been asked for, and what has come so far.
pub struct Batch {
    pub names: Vec<String>,
    pub at: usize,
    pub out: Vec<ProjectDetail>,
}

/// A `Batch` by its contents.
#[verifier::ext_equal]
pub struct BatchV {
    pub names: Seq<Seq<char>>,
    pub at: int,
    pub out: Seq<ProjectV>,
}

impl View for Batch {
    type V = BatchV;

    open spec fn view(&self) -> BatchV {
        BatchV { names: text::views(self.names@), at: self.at as int, out: project_views(self.out@) }
    }
}

/// Where the chunk that begins at `at` ends.
pub open spec fn chunk_end(at: int, n: int) -> int {
    if at + CHUNK <= n {
        at + CHUNK
    } else {
        n
    }
}

/// Projects in the order of their names.
pub open spec fn by_name(s: Seq<ProjectV>) -> Seq<ProjectV> {
    order::sorted(s, |a: ProjectV, b: ProjectV| text::before(a.name, b.name))
}

/// What follows on a reply about some projects.
pub open spec fn batch_next(b: BatchV, ran: Ran) -> TurnV<BatchV, Seq<ProjectV>> {
    match command::aws_reply("codebuild"@, ran) {
        Err(e) => TurnV::End(Err(e)),
        Ok(v) => match json::array_member(v, "projects"@) {
            None => TurnV::End(Err("no 'projects' array in batch-get-projects"@)),
            Some(a) => {
                let out = b.out + projects_in(a);
                let at = chunk_end(b.at, b.names.len() as int);
                if at < b.names.len() {
                    TurnV::Ask(BatchV { names: b.names, at, out })
                } else {
                    TurnV::End(Ok(by_name(out)))
                }
            },
        },
    }
}

/// The contents of a turn of a batch.
pub open spec fn batch_turn(t: Turn<Batch, Vec<ProjectDetail>>) -> TurnV<BatchV, Seq<ProjectV>> {
    match t {
        Turn::Ask(b) => TurnV::Ask(b@),
        Turn::End(Ok(v)) => TurnV::End(Ok(project_views(v@))),
        Turn::End(Err(e)) => TurnV::End(Err(e@)),
    }
}

/// Begins to read what some projects are made of. Of no projects nothing is
/// read.
pub fn batch_get_projects(names: Vec<String>) -> (r: Turn<Batch, Vec<ProjectDetail>>)
    ensures
        batch_turn(r) == (if names@.len() == 0 {
            TurnV::<BatchV, Seq<ProjectV>>::End(Ok(Seq::empty()))
        } else {
            TurnV::Ask(BatchV { names: text::views(names@), at: 0, out: Seq::empty() })
        }),
        r matches Turn::Ask(b) ==> b.at < b.names.len(),
{
    let out: Vec<ProjectDetail> = Vec::new();
    assert(project_views(out@) =~= Seq::empty());
    if names.len() == 0 {
        Turn::End(Ok(out))
    } else {
        Turn::Ask(Batch { names, at: 0, out })
    }
}

fn sort_projects(v: Vec<ProjectDetail>) -> (r: Vec<ProjectDetail>)
    ensures
        project_views(r@) == by_name(project_views(v@)),
{
    let ghost less = |a: ProjectDetail, b: ProjectDetail| text::before(a@.name, b@.name);
    let comes_before = |a: &ProjectDetail, b: &ProjectDetail| -> (o: bool)
        ensures
            o == text::before(a@.name, b@.name),
    {
        str_before(a.name.as_str(), b.name.as_str())
    };
    let r = sort_by(v, comes_before, Ghost(less));
    proof {
        order::lemma_sorted_map(
            v@,
            less,
            |p: ProjectDetail| p@,
            |a: ProjectV, b: ProjectV| text::before(a.name, b.name),
        );
    }
    r
}

impl Batch {
    /// The arguments of `aws` for the next chunk.
    pub fn args(&self, region: Option<&str>) -> (r: Vec<String>)
        requires
            self.at <= self.names.len(),
        ensures
            text::views(r@) == command::aws_command(
                seq!["codebuild"@, "batch-get-projects"@, "--names"@] + self@.names.subrange(
                    self@.at,
                    chunk_end(self@.at, self@.names.len() as int),
                ),
                text::opt_str_view(region),
            ),
    {
        let mut args = list_of(vec!["codebuild", "batch-get-projects", "--names"]);
        let ghost head = seq!["codebuild"@, "batch-get-projects"@, "--names"@];
        assert(text::views(args@) =~= head);
        let end: usize = if self.names.len() - self.at >= CHUNK { self.at + CHUNK } else { self.names.len() };
        let ghost names = text::views(self.names@);
        let mut i: usize = self.at;
        assert(names.subrange(i as int, i as int) =~= Seq::empty());
        assert(head + names.subrange(i as int, i as int) =~= head);
        while i < end
            invariant
                self.at <= i <= end <= self.names.len(),
                names == text::views(self.names@),
                text::views(args@) == head + names.subrange(self.at as int, i as int),
            decreases end - i,
        {
            push_str(&mut args, self.names[i].as_str());
            assert(names.subrange(self.at as int, i + 1) =~= names.subrange(self.at as int, i as int).push(
                names[i as int],
            ));
            assert(text::views(args@) =~= head + names.subrange(self.at as int, i + 1));
            i = i + 1;
        }
        aws_args(&args, region)
    }

    /// Takes in the reply about a chunk.
    pub fn next(self, ran: &Ran) -> (r: Turn<Batch, Vec<ProjectDetail>>)
        requires
            self.at <= self.names.len(),
        ensures
            batch_turn(r) == batch_next(self@, *ran),
            r matches Turn::Ask(b) ==> b.at < b.names.len(),
    {
        let v = match read_aws_reply("codebuild", ran) {
            Ok(v) => v,
            Err(e) => {
                return Turn::End(Err(e));
            },
        };
        let a = match v.array_at("projects") {
            Some(a) => a,
            None => {
                return Turn::End(Err(owned("no 'projects' array in batch-get-projects")));
            },
        };
        let ghost all = json::elements_view(a@);
        let ghost start = project_views(self.out@);
        let mut out = self.out;
        let mut i: usize = 0;
        assert(all.take(0) =~= Seq::empty());
        assert(start + projects_in(all.take(0)) =~= start);
        while i < a.len()
            invariant
                i <= a.len(),
                all == json::elements_view(a@),
                project_views(out@) == start + projects_in(all.take(i as int)),
            decreases a.len() - i,
        {
            assert(all.take(i + 1).drop_last() =~= all.take(i as int));
            assert(all.take(i + 1).last() == a@[i as int]@);
            if let Some(p) = parse_project(&a[i]) {
                let ghost before = project_views(out@);
                out.push(p);
                assert(project_views(out@) =~= before.push(p@));
                assert(project_views(out@) =~= start + projects_in(all.take(i + 1)));
            }
            i = i + 1;
        }
        assert(all.take(all.len() as int) =~= all);
        let n: usize = self.names.len();
        let at: usize = if n - self.at >= CHUNK { self.at + CHUNK } else { n };
        if at < n {
            Turn::Ask(Batch { names: self.names, at, out })
        } else {
            Turn::End(Ok(sort_projects(out)))
        }
    }
}

/// The builds among some values, in their order.
pub open spec fn records_in(a: Seq<JsonV>) -> Seq<RecordV>
    decreases a.len(),
{
    if a.len() == 0 {
        Seq::empty()
    } else {
        match record_in(a.last()) {
            Some(b) => records_in(a.drop_last()).push(b),
            None => records_in(a.drop_last()),
        }
    }
}

/// When a build started; one without a start counts as started at the epoch.
pub open spec fn start_key(b: RecordV) -> int {
    match b.started_at_ms {
        Some(ms) => ms as int,
        None => 0,
    }
}

/// Builds with the newest first.
pub open spec fn newest_first(s: Seq<RecordV>) -> Seq<RecordV> {
    order::sorted(s, |a: RecordV, b: RecordV| start_key(a) > start_key(b))
}

/// A reading of the recent builds of a project that is under way: first the ids
/// of the builds, then the builds.
pub enum Recent {
    Ids { project: String, limit: usize },
    Builds { ids: Vec<String> },
}

/// A `Recent` by its contents.
pub enum RecentV {
    Ids { project: Seq<char>, limit: nat },
    Builds { ids: Seq<Seq<char>> },
}

impl View for Recent {
    type V = RecentV;

    open spec fn view(&self) -> RecentV {
        match *self {
            Recent::Ids { project, limit } => RecentV::Ids { project: project@, limit: limit as nat },
            Recent::Builds { ids } => RecentV::Builds { ids: text::views(ids@) },
        }
    }
}

/// What follows on a reply about builds.
pub open spec fn recent_next(q: RecentV, ran: Ran) -> TurnV<RecentV, Seq<RecordV>> {
    match command::aws_reply("codebuild"@, ran) {
        Err(e) => TurnV::End(Err(e)),
        Ok(v) => match q {
            RecentV::Ids { .. } => {
                let ids = texts_member(v, "ids"@);
                if ids.len() == 0 {
                    TurnV::End(Ok(Seq::empty()))
                } else {
                    TurnV::Ask(RecentV::Builds { ids })
                }
            },
            RecentV::Builds { .. } => match json::array_member(v, "builds"@) {
                None => TurnV::End(Err("no 'builds' array in batch-get-builds response"@)),
                Some(a) => TurnV::End(Ok(newest_first(records_in(a)))),
            },
        },
    }
}

/// The contents of a turn of a reading of builds.
pub open spec fn recent_turn(t: Turn<Recent, Vec<CodeBuildRecord>>) -> TurnV<RecentV, Seq<RecordV>> {
    match t {
        Turn::Ask(q) => TurnV::Ask(q@),
        Turn::End(Ok(v)) => TurnV::End(Ok(record_views(v@))),
        Turn::End(Err(e)) => TurnV::End(Err(e@)),
    }
}

/// Begins to read the recent builds of a project: `limit` of them, or a few
/// where `limit` is 0.
pub fn recent_builds(project: &str, limit: usize) -> (r: Recent)
    ensures
        r@ == (RecentV::Ids {
            project: project@,
            limit: if limit == 0 {
                DEFAULT_RECENT_LIMIT as nat
            } else {
                limit as nat
            },
        }),
{
    Recent::Ids {
        project: owned(project),
        limit: if limit == 0 { DEFAULT_RECENT_LIMIT } else { limit },
    }
}

/// The request that a reading of builds makes next.
pub open spec fn recent_request(q: RecentV) -> Seq<Seq<char>> {
    match q {
        RecentV::Ids { project, limit } => seq![
            "codebuild"@,
            "list-builds-for-project"@,
            "--project-name"@,
            project,
            "--max-items"@,
            numeral::decimal(limit),
        ],
        RecentV::Builds { ids } => seq!["codebuild"@, "batch-get-builds"@, "--ids"@] + ids,
    }
}

fn sort_builds(v: Vec<CodeBuildRecord>) -> (r: Vec<CodeBuildRecord>)
    ensures
        record_views(r@) == newest_first(record_views(v@)),
{
    let ghost less = |a: CodeBuildRecord, b: CodeBuildRecord| start_key(a@) > start_key(b@);
    let comes_before = |a: &CodeBuildRecord, b: &CodeBuildRecord| -> (o: bool)
        ensures
            o == (start_key(a@) > start_key(b@)),
    {
        let x: i64 = match a.started_at_ms {
            Some(ms) => ms,
            None => 0,
        };
        let y: i64 = match b.started_at_ms {
            Some(ms) => ms,
            None => 0,
        };
        x > y
    };
    let r = sort_by(v, comes_before, Ghost(less));
    proof {
        order::lemma_sorted_map(
            v@,
            less,
            |b: CodeBuildRecord| b@,
            |a: RecordV, b: RecordV| start_key(a) > start_key(b),
        );
    }
    r
}

impl Recent {
    /// The arguments of `aws` for the next request.
    pub fn args(&self, region: Option<&str>) -> (r: Vec<String>)
        ensures
            text::views(r@) == command::aws_command(recent_request(self@), text::opt_str_view(region)),
    {
        match self {
            Recent::Ids { project, limit } => {
                let n = dec_size(*limit);
                let args = list_of(
                    vec![
                        "codebuild",
                        "list-builds-for-project",
                        "--project-name",
                        project.as_str(),
                        "--max-items",
                        n.as_str(),
                    ],
                );
                assert(text::views(args@) =~= recent_request(self@));
                aws_args(&args, region)
            },
            Recent::Builds { ids } => {
                let head = list_of(vec!["codebuild", "batch-get-builds", "--ids"]);
                assert(text::views(head@) =~= seq!["codebuild"@, "batch-get-builds"@, "--ids"@]);
                let args = with_all(head, ids);
                aws_args(&args, region)
            },
        }
    }

    /// Takes in a reply.
    pub fn next(self, ran: &Ran) -> (r: Turn<Recent, Vec<CodeBuildRecord>>)
        ensures
            recent_turn(r) == recent_next(self@, *ran),
    {
        let v = match read_aws_reply("codebuild", ran) {
            Ok(v) => v,
            Err(e) => {
                return Turn::End(Err(e));
            },
        };
        match self {
            Recent::Ids { project: _, limit: _ } => {
                let ids = texts_at(&v, "ids");
                if ids.len() == 0 {
                    let none: Vec<CodeBuildRecord> = Vec::new();
                    assert(record_views(none@) =~= Seq::empty());
                    Turn::End(Ok(none))
                } else {
                    Turn::Ask(Recent::Builds { ids })
                }
            },
            Recent::Builds { ids: _ } => {
                let a = match v.array_at("builds") {
                    Some(a) => a,
                    None => {
                        return Turn::End(
                            Err(owned("no 'builds' array in batch-get-builds response")),
                        );
                    },
                };
                let ghost all = json::elements_view(a@);
                let mut out: Vec<CodeBuildRecord> = Vec::new();
                let mut i: usize = 0;
                assert(all.take(0) =~= Seq::empty());
                assert(record_views(out@) =~= Seq::empty());
                while i < a.len()
                    invariant
                        i <= a.len(),
                        all == json::elements_view(a@),
                        record_views(out@) == records_in(all.take(i as int)),
                    decreases a.len() - i,
                {
                    assert(all.take(i + 1).drop_last() =~= all.take(i as int));
                    assert(all.take(i + 1).last() == a@[i as int]@);
                    if let Some(b) = parse_build(&a[i]) {
                        let ghost before = record_views(out@);
                        out.push(b);
                        assert(record_views(out@) =~= before.push(b@));
                    }
                    i = i + 1;
                }
                assert(all.take(all.len() as int) =~= all);
                Turn::End(Ok(sort_builds(out)))
            },
        }
    }
}

/// The arguments of `aws` that start a build of a project.
pub fn start_build(project: &str, region: Option<&str>) -> (r: Vec<String>)
    ensures
        text::views(r@) == command::aws_command(
            seq!["codebuild"@, "start-build"@, "--project-name"@, project@],
            text::opt_str_view(region),
        ),
{
    let args = list_of(vec!["codebuild", "start-build", "--project-name", project]);
    assert(text::views(args@) =~= seq!["codebuild"@, "start-build"@, "--project-name"@, project@]);
    aws_args(&args, region)
}

/// The id of the build that was started, or why none was.
pub open spec fn build_started(ran: Ran) -> Result<Seq<char>, Seq<char>> {
    match command::aws_reply("codebuild"@, ran) {
        Err(e) => Err(e),
        Ok(v) => match json::inner_text(v, "build"@, "id"@) {
            Some(id) => Ok(id),
            None => Err("start-build: no build.id in response"@),
        },
    }
}

/// Reads the id of the build that was started.
pub fn started_build(ran: &Ran) -> (r: Result<String, String>)
    ensures
        match r {
            Ok(id) => build_started(*ran) == Ok::<Seq<char>, Seq<char>>(id@),
            Err(e) => build_started(*ran) == Err::<Seq<char>, Seq<char>>(e@),
        },
{
    match read_aws_reply("codebuild", ran) {
        Ok(v) => match v.inner_text_at("build", "id") {
            Some(id) => Ok(id),
            None => Err(owned("start-build: no build.id in response")),
        },
        Err(e) => Err(e),
    }
}

/// A listing run to its end over the replies to its requests.
pub open spec fn listing_run(l: ListingV, replies: Seq<Ran>) -> TurnV<ListingV, Seq<Seq<char>>>
    decreases replies.len(),
{
    if replies.len() == 0 {
        TurnV::Ask(l)
    } else {
        match listing_next(l, replies[0]) {
            TurnV::Ask(more) => listing_run(more, replies.drop_first()),
            TurnV::End(r) => TurnV::End(r),
        }
    }
}

/// The pages that some replies hold.
pub open spec fn pages_names(pages: Seq<JsonV>) -> Seq<Seq<char>>
    decreases pages.len(),
{
    if pages.len() == 0 {
        Seq::empty()
    } else {
        texts_member(pages[0], "projects"@) + pages_names(pages.drop_first())
    }
}

/// No page is lost: where every reply but the last marks a next page, the
/// listing ends with the names of all pages, sorted.
pub proof fn law_listing_reads_all_pages(l: ListingV, replies: Seq<Ran>, pages: Seq<JsonV>)
    requires
        replies.len() == pages.len(),
        pages.len() > 0,
        forall|i: int|
            0 <= i < pages.len() ==> command::aws_reply("codebuild"@, #[trigger] replies[i]) == Ok::<
                JsonV,
                Seq<char>,
            >(pages[i]),
        forall|i: int|
            0 <= i < pages.len() - 1 ==> json::text_member(#[trigger] pages[i], "nextToken"@) is Some,
        json::text_member(pages.last(), "nextToken"@) is None,
    ensures
        listing_run(l, replies) == TurnV::<ListingV, Seq<Seq<char>>>::End(
            Ok(order::sorted_texts(l.names + pages_names(pages))),
        ),
    decreases replies.len(),
{
    assert(command::aws_reply("codebuild"@, replies[0]) == Ok::<JsonV, Seq<char>>(pages[0]));
    let names = l.names + texts_member(pages[0], "projects"@);
    let rest = pages.drop_first();
    assert(l.names + pages_names(pages) =~= names + pages_names(rest));
    if pages.len() == 1 {
        assert(pages_names(rest) =~= Seq::empty());
        assert(names + pages_names(rest) =~= names);
    } else {
        assert(json::text_member(pages[0], "nextToken"@) is Some);
        let more = ListingV { names, token: json::text_member(pages[0], "nextToken"@) };
        assert forall|i: int| 0 <= i < rest.len() implies command::aws_reply(
            "codebuild"@,
            #[trigger] replies.drop_first()[i],
        ) == Ok::<JsonV, Seq<char>>(rest[i]) by {
            assert(command::aws_reply("codebuild"@, replies[i + 1]) == Ok::<JsonV, Seq<char>>(
                pages[i + 1],
            ));
        }
        assert forall|i: int| 0 <= i < rest.len() - 1 implies json::text_member(
            #[trigger] rest[i],
            "nextToken"@,
        ) is Some by {
            assert(json::text_member(pages[i + 1], "nextToken"@) is Some);
        }
        law_listing_reads_all_pages(more, replies.drop_first(), rest);
    }
}

/// Every name is asked for exactly once: the chunks of a batch follow on each
/// other without a gap, and none is longer than a request can be.
pub proof fn law_chunks_follow_each_other(b: BatchV, ran: Ran)
    requires
        0 <= b.at < b.names.len(),
    ensures
        b.at < chunk_end(b.at, b.names.len() as int) <= b.names.len(),
        chunk_end(b.at, b.names.len() as int) - b.at <= CHUNK,
        batch_next(b, ran) matches TurnV::Ask(n) ==> n.at == chunk_end(b.at, b.names.len() as int) && n.names
            == b.names,
        batch_next(b, ran) matches TurnV::End(Ok(_)) ==> chunk_end(b.at, b.names.len() as int)
            == b.names.len(),
{
}

/// Builds come with the newest first, and none is lost or added.
pub proof fn law_newest_first(s: Seq<RecordV>)
    ensures
        order::in_order(
            newest_first(s),
            |a: RecordV, b: RecordV| start_key(a) > start_key(b),
        ),
        newest_first(s).to_multiset() =~= s.to_multiset(),
{
    let less = |a: RecordV, b: RecordV| start_key(a) > start_key(b);
    assert(order::orders(less));
    order::law_sorted(s, less);
}

proof fn lemma_status_words()
    ensures
        "SUCCEEDED"@.len() == 9 && "FAILED"@.len() == 6 && "IN_PROGRESS"@.len() == 11 && "STOPPED"@.len() == 7
            && "FAULT"@.len() == 5 && "TIMED_OUT"@.len() == 9,
        "SUCCEEDED"@ != "TIMED_OUT"@,
{
    reveal_strlit("SUCCEEDED");
    reveal_strlit("FAILED");
    reveal_strlit("IN_PROGRESS");
    reveal_strlit("STOPPED");
    reveal_strlit("FAULT");
    reveal_strlit("TIMED_OUT");
    assert("SUCCEEDED"@[0] == 'S' && "TIMED_OUT"@[0] == 'T');
}

/// Each word of CodeBuild stands for the status of its name, no status is had by
/// another word, and every other word stands for an unknown one.
pub proof fn law_status_has_its_word(word: &str, r: BuildStatus)
    requires
        call_ensures(BuildStatus::parse, (word,), r),
    ensures
        r == BuildStatus::Succeeded <==> word@ == "SUCCEEDED"@,
        r == BuildStatus::Failed <==> word@ == "FAILED"@,
        r == BuildStatus::InProgress <==> word@ == "IN_PROGRESS"@,
        r == BuildStatus::Stopped <==> word@ == "STOPPED"@,
        r == BuildStatus::Fault <==> word@ == "FAULT"@,
        r == BuildStatus::TimedOut <==> word@ == "TIMED_OUT"@,
        r == BuildStatus::Unknown <==> word@ != "SUCCEEDED"@ && word@ != "FAILED"@ && word@ != "IN_PROGRESS"@
            && word@ != "STOPPED"@ && word@ != "FAULT"@ && word@ != "TIMED_OUT"@,
{
    lemma_status_words();
}

/// A build has succeeded exactly where its reply says so, and a build that somebody
/// stopped, that failed, ran out of time or broke is shown as that.
pub proof fn law_build_ended_as_replied(v: JsonV)
    requires
        record_in(v) is Some,
    ensures
        ({
            let s = record_in(v)->0.status;
            let word = json::text_member(v, "buildStatus"@);
            &&& s == BuildStatus::Succeeded <==> word == Some("SUCCEEDED"@)
            &&& s == BuildStatus::Failed <==> word == Some("FAILED"@)
            &&& s == BuildStatus::InProgress <==> word == Some("IN_PROGRESS"@)
            &&& s == BuildStatus::Stopped <==> word == Some("STOPPED"@)
            &&& s == BuildStatus::Fault <==> word == Some("FAULT"@)
            &&& s == BuildStatus::TimedOut <==> word == Some("TIMED_OUT"@)
        }),
{
    lemma_status_words();
}

/// No two statuses are shown by the same sign or by the same word.
pub proof fn law_statuses_are_told_apart(a: BuildStatus, b: BuildStatus)
    ensures
        status_glyph(a) == status_glyph(b) ==> a == b,
        status_label(a) == status_label(b) ==> a == b,
        status_glyph(BuildStatus::Succeeded) == "✓"@,
        status_label(BuildStatus::Succeeded) == "succeeded"@,
        status_glyph(BuildStatus::Failed) == "✗"@,
        status_label(BuildStatus::Failed) == "failed"@,
        status_glyph(BuildStatus::Stopped) == "⊘"@,
        status_label(BuildStatus::Stopped) == "stopped"@,
        status_glyph(BuildStatus::InProgress) == "⏵"@,
        status_label(BuildStatus::InProgress) == "running"@,
        status_glyph(BuildStatus::Fault) == "‼"@,
        status_label(BuildStatus::Fault) == "fault"@,
        status_glyph(BuildStatus::TimedOut) == "⏱"@,
        status_label(BuildStatus::TimedOut) == "timeout"@,
        status_glyph(BuildStatus::Unknown) == "?"@,
        status_label(BuildStatus::Unknown) == "unknown"@,
{
    reveal_strlit("✓");
    reveal_strlit("✗");
    reveal_strlit("⏵");
    reveal_strlit("⊘");
    reveal_strlit("‼");
    reveal_strlit("⏱");
    reveal_strlit("?");
    reveal_strlit("succeeded");
    reveal_strlit("failed");
    reveal_strlit("running");
    reveal_strlit("stopped");
    reveal_strlit("fault");
    reveal_strlit("timeout");
    reveal_strlit("unknown");
    assert("✓"@[0] == '✓' && "✗"@[0] == '✗' && "⏵"@[0] == '⏵' && "⊘"@[0] == '⊘' && "‼"@[0] == '‼' && "⏱"@[0]
        == '⏱' && "?"@[0] == '?');
    assert("running"@[0] == 'r' && "stopped"@[0] == 's' && "timeout"@[0] == 't' && "unknown"@[0] == 'u');
    assert("succeeded"@.len() == 9 && "failed"@.len() == 6 && "fault"@.len() == 5);
    assert("running"@.len() == 7 && "stopped"@.len() == 7 && "timeout"@.len() == 7 && "unknown"@.len() == 7);
}

} // verus!
