//! Apps, branches and jobs, and the requests by which they are read.

use vstd::prelude::*;

use crate::command;
use crate::command::{aws_args, read_aws_reply, Ran};
use crate::json;
use crate::json::{Json, JsonV};
use crate::numeral;
use crate::numeral::dec_padded;
use crate::offsets;
use crate::offsets::keep_bytes;
use crate::tabs;
use crate::text;
use crate::text::{byte_len, cat2, cat3, cat4, cat6, contains, list_of, owned, take_chars};

verus! {

/// An app.
pub struct AmplifyApp {
    pub app_id: String,
    pub name: String,
    pub default_domain: Option<String>,
    pub repository: Option<String>,
    pub platform: Option<String>,
}

/// A branch of an app.
pub struct AmplifyBranch {
    pub branch_name: String,
    pub stage: Option<String>,
    pub display_name: Option<String>,
    pub url: Option<String>,
    pub active_job_id: Option<String>,
    /// When the branch was last changed, in the form of ISO 8601.
    pub update_time: Option<String>,
}

/// A deployment of a branch.
pub struct AmplifyJob {
    pub job_id: String,
    pub status: String,
    pub current_step: Option<String>,
    pub commit_id: Option<String>,
    pub commit_message: Option<String>,
    pub commit_time: Option<String>,
    pub start_time: Option<String>,
    pub end_time: Option<String>,
}

/// A step of a deployment.
pub struct AmplifyJobStep {
    pub step_name: String,
    pub status: String,
    pub start_time: Option<String>,
    pub end_time: Option<String>,
    /// Where the log of the step can be read.
    pub log_url: Option<String>,
}

/// A deployment with its steps.
pub struct AmplifyJobDetail {
    pub job_id: String,
    pub status: String,
    pub branch_name: String,
    pub commit_id: Option<String>,
    pub commit_message: Option<String>,
    pub steps: Vec<AmplifyJobStep>,
}

/// What a background request can bring.
pub enum AmplifyEvent {
    Apps(Vec<AmplifyApp>),
    Branches(Vec<AmplifyBranch>),
    Jobs { branch_name: String, jobs: Vec<AmplifyJob> },
    JobDetail(AmplifyJobDetail),
    Log { step_name: String, text: String },
    Failed(String),
}

/// An optional string again.
pub fn same_text(o: &Option<String>) -> (r: Option<String>)
    ensures
        r == *o,
{
    match o {
        Some(s) => Some(s.clone()),
        None => None,
    }
}

impl AmplifyJob {
    /// The same job again.
    pub fn copy(&self) -> (r: AmplifyJob)
        ensures
            r == *self,
    {
        AmplifyJob {
            job_id: self.job_id.clone(),
            status: self.status.clone(),
            current_step: same_text(&self.current_step),
            commit_id: same_text(&self.commit_id),
            commit_message: same_text(&self.commit_message),
            commit_time: same_text(&self.commit_time),
            start_time: same_text(&self.start_time),
            end_time: same_text(&self.end_time),
        }
    }
}

/// Some jobs again.
pub fn copy_jobs(v: &Vec<AmplifyJob>) -> (r: Vec<AmplifyJob>)
    ensures
        r@ == v@,
{
    let mut out: Vec<AmplifyJob> = Vec::new();
    let mut i: usize = 0;
    while i < v.len()
        invariant
            i <= v.len(),
            out@ == v@.take(i as int),
        decreases v.len() - i,
    {
        out.push(v[i].copy());
        assert(v@.take(i + 1) =~= v@.take(i as int).push(v@[i as int]));
        i = i + 1;
    }
    assert(v@.take(v@.len() as int) =~= v@);
    out
}

/// The arguments of `aws` for the list of apps.
pub fn list_apps_args(region: Option<&str>) -> (r: Vec<String>)
    ensures
        text::views(r@) == command::aws_command(
            seq!["amplify"@, "list-apps"@, "--max-results"@, "100"@],
            text::opt_str_view(region),
        ),
{
    let args = list_of(vec!["amplify", "list-apps", "--max-results", "100"]);
    assert(text::views(args@) =~= seq!["amplify"@, "list-apps"@, "--max-results"@, "100"@]);
    aws_args(&args, region)
}

/// The arguments of `aws` for the branches of an app.
pub fn list_branches_args(app_id: &str, region: Option<&str>) -> (r: Vec<String>)
    ensures
        text::views(r@) == command::aws_command(
            seq!["amplify"@, "list-branches"@, "--app-id"@, app_id@, "--max-results"@, "50"@],
            text::opt_str_view(region),
        ),
{
    let args = list_of(
        vec!["amplify", "list-branches", "--app-id", app_id, "--max-results", "50"],
    );
    assert(text::views(args@) =~= seq![
        "amplify"@,
        "list-branches"@,
        "--app-id"@,
        app_id@,
        "--max-results"@,
        "50"@,
    ]);
    aws_args(&args, region)
}

/// The arguments of `aws` for the jobs of a branch.
pub fn list_jobs_args(app_id: &str, branch_name: &str, region: Option<&str>) -> (r: Vec<String>)
    ensures
        text::views(r@) == command::aws_command(
            seq![
                "amplify"@,
                "list-jobs"@,
                "--app-id"@,
                app_id@,
                "--branch-name"@,
                branch_name@,
                "--max-results"@,
                "50"@,
            ],
            text::opt_str_view(region),
        ),
{
    let args = list_of(
        vec![
            "amplify",
            "list-jobs",
            "--app-id",
            app_id,
            "--branch-name",
            branch_name,
            "--max-results",
            "50",
        ],
    );
    assert(text::views(args@) =~= seq![
        "amplify"@,
        "list-jobs"@,
        "--app-id"@,
        app_id@,
        "--branch-name"@,
        branch_name@,
        "--max-results"@,
        "50"@,
    ]);
    aws_args(&args, region)
}

/// The arguments of `aws` for one job with its steps.
pub fn get_job_args(app_id: &str, branch_name: &str, job_id: &str, region: Option<&str>) -> (r: Vec<String>)
    ensures
        text::views(r@) == command::aws_command(
            seq![
                "amplify"@,
                "get-job"@,
                "--app-id"@,
                app_id@,
                "--branch-name"@,
                branch_name@,
                "--job-id"@,
                job_id@,
            ],
            text::opt_str_view(region),
        ),
{
    let args = list_of(
        vec![
            "amplify",
            "get-job",
            "--app-id",
            app_id,
            "--branch-name",
            branch_name,
            "--job-id",
            job_id,
        ],
    );
    assert(text::views(args@) =~= seq![
        "amplify"@,
        "get-job"@,
        "--app-id"@,
        app_id@,
        "--branch-name"@,
        branch_name@,
        "--job-id"@,
        job_id@,
    ]);
    aws_args(&args, region)
}

/// What a request gives: the JSON value that was printed, null where nothing
/// was printed, or an error.
pub open spec fn reply(ran: Ran) -> Result<JsonV, Seq<char>> {
    match ran {
        Ran::Done(out) => if out@.len() == 0 {
            Ok(JsonV::Null)
        } else {
            command::aws_reply("amplify"@, ran)
        },
        _ => command::aws_reply("amplify"@, ran),
    }
}

/// Reads what a request printed.
pub fn read_reply(ran: &Ran) -> (r: Result<Json, String>)
    ensures
        json::result_view(r) == reply(*ran),
{
    if let Ran::Done(out) = ran {
        if out.as_str().is_empty() {
            return Ok(Json::Null);
        }
    }
    read_aws_reply("amplify", ran)
}

/// The error of a reply that holds something else than was asked for.
pub fn unread_reply(request: &str) -> (r: String)
    ensures
        r@ == "parse amplify "@ + request@ + " response"@,
{
    cat3("parse amplify ", request, " response")
}

/// How many bytes of a log are shown.
pub const MAX_LOG: usize = 204_800;

/// The remark below a log that was cut.
pub open spec fn cut_remark() -> Seq<char> {
    "\n\n… (truncated at 204800 bytes)"@
}

/// A log as it is shown: one that is too long is cut, with a remark.
pub open spec fn shown_log(body: Seq<char>) -> Seq<char> {
    if vstd::utf8::encode_utf8(body).len() > MAX_LOG {
        offsets::within_bytes(body, MAX_LOG as int) + cut_remark()
    } else {
        body
    }
}

/// Cuts a log that is too long.
pub fn trim_log(body: String) -> (r: String)
    ensures
        r@ == shown_log(body@),
{
    if byte_len(body.as_str()) > MAX_LOG {
        cat2(keep_bytes(body.as_str(), MAX_LOG), "\n\n… (truncated at 204800 bytes)")
    } else {
        body
    }
}

/// However long a log is, no more than its share is shown, besides the remark
/// that it was cut.
pub proof fn law_shown_log_is_small(body: Seq<char>)
    ensures
        vstd::utf8::encode_utf8(shown_log(body)).len() <= MAX_LOG + vstd::utf8::encode_utf8(
            cut_remark(),
        ).len(),
{
    offsets::lemma_within_bytes_fits(body, MAX_LOG as int);
    offsets::lemma_encode_concat(offsets::within_bytes(body, MAX_LOG as int), cut_remark());
}

/// The page of an app in the console.
pub open spec fn app_url(app_id: Seq<char>, region: Option<Seq<char>>) -> Seq<char> {
    "https://"@ + tabs::region_in_url(region) + ".console.aws.amazon.com/amplify/apps/"@ + app_id
}

pub fn console_url_app(app_id: &str, region: Option<&str>) -> (r: String)
    ensures
        r@ == app_url(app_id@, text::opt_str_view(region)),
{
    let r = match region {
        Some(r) => r,
        None => "us-east-1",
    };
    cat4("https://", r, ".console.aws.amazon.com/amplify/apps/", app_id)
}

/// The page of a branch in the console.
pub open spec fn branch_url(app_id: Seq<char>, branch: Seq<char>, region: Option<Seq<char>>) -> Seq<char> {
    app_url(app_id, region) + "/branches/"@ + branch
}

pub fn console_url_branch(app_id: &str, branch: &str, region: Option<&str>) -> (r: String)
    ensures
        r@ == branch_url(app_id@, branch@, text::opt_str_view(region)),
{
    let app = console_url_app(app_id, region);
    cat3(app.as_str(), "/branches/", branch)
}

/// Why the jobs of a branch could not be read, in a word or two: AWS throttles,
/// denies, or does not know the branch. Anything else is given by the beginning
/// of its first line.
pub open spec fn short_reason(error: Seq<char>) -> Seq<char> {
    if text::has_part(error, "Throttling"@) || text::has_part(error, "TooManyRequests"@)
        || text::has_part(error, "Rate exceeded"@) {
        "throttled"@
    } else if text::has_part(error, "AccessDenied"@) || text::has_part(error, "not authorized"@) {
        "no access"@
    } else if text::has_part(error, "NotFound"@) {
        "not found"@
    } else {
        "err: "@ + text::first_chars(first_line(error), 40)
    }
}

/// The first line of a text.
pub open spec fn first_line(s: Seq<char>) -> Seq<char> {
    if text::text_lines(s).len() > 0 {
        text::text_lines(s)[0]
    } else {
        Seq::empty()
    }
}

/// The first line of a text.
pub fn first_line_of(s: &str) -> (r: String)
    ensures
        r@ == first_line(s@),
{
    let ls = text::lines(s);
    if ls.len() > 0 {
        assert(text::views(ls@)[0] == ls@[0]@);
        ls[0].clone()
    } else {
        String::new()
    }
}

pub fn short_error_reason(error: &str) -> (r: String)
    ensures
        r@ == short_reason(error@),
{
    if contains(error, "Throttling") || contains(error, "TooManyRequests") || contains(
        error,
        "Rate exceeded",
    ) {
        owned("throttled")
    } else if contains(error, "AccessDenied") || contains(error, "not authorized") {
        owned("no access")
    } else if contains(error, "NotFound") {
        owned("not found")
    } else {
        let line = first_line_of(error);
        cat2("err: ", take_chars(line.as_str(), 40).as_str())
    }
}

/// The quotient that drops what is left over, towards 0.
pub open spec fn quotient(a: int, b: int) -> int {
    if a >= 0 {
        a / b
    } else {
        -((-a) / b)
    }
}

fn quot(a: i64, b: i64) -> (r: i64)
    requires
        a > i64::MIN,
        b > 0,
    ensures
        r == quotient(a as int, b as int),
        a >= 0 ==> 0 <= r <= a,
        a < 0 ==> a <= r <= 0,
{
    if a >= 0 {
        let q: u64 = (a as u64) / (b as u64);
        proof {
            lemma_quotient_bound(a as int, b as int);
        }
        q as i64
    } else {
        let q: u64 = ((-a) as u64) / (b as u64);
        proof {
            lemma_quotient_bound(-(a as int), b as int);
        }
        -(q as i64)
    }
}

proof fn lemma_quotient_bound(a: int, b: int)
    requires
        a >= 0,
        b > 0,
    ensures
        0 <= a / b <= a,
{
    assert(0 <= a / b <= a) by (nonlinear_arith)
        requires
            a >= 0,
            b > 0,
    ;
}

/// The number of a day in the Julian calendar's count, by days since the epoch.
pub open spec fn julian_day(days: int) -> int {
    2_440_588 + days
}

/// A day of the Gregorian calendar: year, month and day.
pub struct Date {
    pub year: int,
    pub month: int,
    pub day: int,
}

/// The day of the Gregorian calendar with a number in the Julian count.
pub open spec fn date_of(jd: int) -> Date {
    let l0 = jd + 68_569;
    let n = quotient(4 * l0, 146_097);
    let l1 = l0 - quotient(146_097 * n + 3, 4);
    let i = quotient(4000 * (l1 + 1), 1_461_001);
    let l2 = l1 - quotient(1461 * i, 4) + 31;
    let j = quotient(80 * l2, 2447);
    let l3 = quotient(j, 11);
    Date {
        year: 100 * (n - 49) + i + l3,
        month: j + 2 - 12 * l3,
        day: l2 - quotient(2447 * j, 80),
    }
}

/// `n` in decimal with zeros in front of it, the sign counted.
pub open spec fn padded_number(n: int, w: int) -> Seq<char> {
    if n >= 0 {
        numeral::decimal_padded(n as nat, w)
    } else {
        "-"@ + numeral::decimal_padded((-n) as nat, w - 1)
    }
}

fn pad_number(n: i64, w: usize) -> (r: String)
    requires
        n > i64::MIN,
        w > 0,
    ensures
        r@ == padded_number(n as int, w as int),
{
    if n >= 0 {
        dec_padded(n as u64, w)
    } else {
        cat2("-", dec_padded((-n) as u64, w - 1).as_str())
    }
}

/// The first moment of the day, in the form of ISO 8601, that seconds since the
/// epoch fall on.
pub open spec fn day_text(epoch: int) -> Seq<char> {
    let d = date_of(julian_day(quotient(epoch, 86_400)));
    padded_number(d.year, 4) + "-"@ + padded_number(d.month, 2) + "-"@ + padded_number(d.day, 2)
        + "T00:00:00Z"@
}

pub fn epoch_to_iso(epoch: i64) -> (r: String)
    ensures
        r@ == day_text(epoch as int),
{
    let days: i64 = if epoch == i64::MIN {
        -106_751_991_167_300
    } else {
        quot(epoch, 86_400)
    };
    assert(-106_751_991_167_300 <= days <= 106_751_991_167_300);
    let l0: i64 = 2_440_588 + days + 68_569;
    let n: i64 = quot(4 * l0, 146_097);
    assert(-3_000_000_000 <= n <= 3_000_000_000);
    let l1: i64 = l0 - quot(146_097 * n + 3, 4);
    assert(-40_000 <= l1 <= 40_000);
    let i: i64 = quot(4000 * (l1 + 1), 1_461_001);
    assert(-200 <= i <= 200);
    let l2: i64 = l1 - quot(1461 * i, 4) + 31;
    assert(-1000 <= l2 <= 1000);
    let j: i64 = quot(80 * l2, 2447);
    let d: i64 = l2 - quot(2447 * j, 80);
    let l3: i64 = quot(j, 11);
    let m: i64 = j + 2 - 12 * l3;
    let y: i64 = 100 * (n - 49) + i + l3;
    let a = pad_number(y, 4);
    let b = pad_number(m, 2);
    let c = pad_number(d, 2);
    cat6(a.as_str(), "-", b.as_str(), "-", c.as_str(), "T00:00:00Z")
}

/// When a branch was last changed, as a reply has it.
pub enum UpdateTime {
    /// In seconds since the epoch.
    Epoch(i64),
    Text(String),
    /// In a form that is not known.
    Other,
}

/// When a branch was last changed, as a text: seconds since the epoch become the
/// day that they fall on.
pub open spec fn update_words(t: Option<UpdateTime>) -> Option<Seq<char>> {
    match t {
        Some(UpdateTime::Epoch(n)) => Some(day_text(n as int)),
        Some(UpdateTime::Text(s)) => Some(s@),
        _ => None,
    }
}

pub fn update_text(t: Option<UpdateTime>) -> (r: Option<String>)
    ensures
        text::opt_view(r) == update_words(t),
{
    match t {
        Some(UpdateTime::Epoch(n)) => Some(epoch_to_iso(n)),
        Some(UpdateTime::Text(s)) => Some(s),
        _ => None,
    }
}

/// What is reported of the log of a step, once it has been fetched.
pub fn fetched_log(step_name: String, result: Result<String, String>) -> (r: AmplifyEvent)
    ensures
        match result {
            Ok(body) => r matches AmplifyEvent::Log { step_name: n, text: t } && n@ == step_name@ && t@
                == shown_log(body@),
            Err(e) => r matches AmplifyEvent::Failed(m) && m@ == "log fetch "@ + step_name@ + ": "@ + e@,
        },
{
    match result {
        Ok(body) => AmplifyEvent::Log { step_name, text: trim_log(body) },
        Err(e) => AmplifyEvent::Failed(cat4("log fetch ", step_name.as_str(), ": ", e.as_str())),
    }
}

} // verus!
