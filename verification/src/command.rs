//! The command lines that are run, and what comes back from them.

use vstd::prelude::*;

use crate::json;
use crate::json::{read_json, Json};
use crate::text;
use crate::text::{cat2, cat3, cat4, copy_all, list_of, owned, push_str, trim};

verus! {

/// How running a command ended.
pub enum Ran {
    /// It could not be started; with the reason.
    NotStarted(String),
    /// It ended with a failure; with what it wrote to standard error.
    Failed(String),
    /// It ended well; with what it wrote to standard output.
    Done(String),
}

/// What a background request has brought so far.
pub enum Poll<T> {
    /// Nothing yet.
    Empty,
    /// It ended without bringing anything.
    Closed,
    /// Its result.
    Ready(Result<T, String>),
}

/// Another program that is to be started, and what the status says then.
pub struct Launch {
    pub program: String,
    pub args: Vec<String>,
    /// The status once it runs.
    pub done: String,
    /// The status if it cannot be started, in front of the reason.
    pub failed: String,
}

/// A `Launch` by its contents.
#[verifier::ext_equal]
pub struct LaunchV {
    pub program: Seq<char>,
    pub args: Seq<Seq<char>>,
    pub done: Seq<char>,
    pub failed: Seq<char>,
}

impl View for Launch {
    type V = LaunchV;

    open spec fn view(&self) -> LaunchV {
        LaunchV {
            program: self.program@,
            args: text::views(self.args@),
            done: self.done@,
            failed: self.failed@,
        }
    }
}

/// The contents of an optional `Launch`.
pub open spec fn opt_launch(l: Option<Launch>) -> Option<LaunchV> {
    match l {
        Some(x) => Some(x@),
        None => None,
    }
}

/// The status after a program was started, or was not.
pub open spec fn launch_status(l: LaunchV, result: Result<(), String>) -> Seq<char> {
    match result {
        Ok(_) => l.done,
        Err(e) => l.failed + e@,
    }
}

pub fn launched_status(l: &Launch, result: &Result<(), String>) -> (r: String)
    ensures
        r@ == launch_status(l@, *result),
{
    match result {
        Ok(_) => l.done.clone(),
        Err(e) => cat2(l.failed.as_str(), e.as_str()),
    }
}

/// The start of the logs browser on one log group.
pub open spec fn tail_launch(
    group: Seq<char>,
    name: Seq<char>,
    region: Option<Seq<char>>,
    done: Seq<char>,
) -> LaunchV {
    LaunchV {
        program: "mnml-aws-cloudwatch-logs"@,
        args: seq!["--log-group"@, group, "--log-group-name"@, name] + region_option(region),
        done,
        failed: "spawn failed (install mnml-aws-cloudwatch-logs ≥ v0.2.0): "@,
    }
}

pub fn tail_launch_of(group: &str, name: &str, region: Option<&str>, done: String) -> (r: Launch)
    ensures
        r@ == tail_launch(group@, name@, text::opt_str_view(region), done@),
{
    let args = list_of(vec!["--log-group", group, "--log-group-name", name]);
    assert(text::views(args@) =~= seq!["--log-group"@, group@, "--log-group-name"@, name@]);
    Launch {
        program: owned("mnml-aws-cloudwatch-logs"),
        args: with_region(args, region),
        done,
        failed: owned("spawn failed (install mnml-aws-cloudwatch-logs ≥ v0.2.0): "),
    }
}

/// The option that names the region, where one is named.
pub open spec fn region_option(region: Option<Seq<char>>) -> Seq<Seq<char>> {
    option_with("--region"@, region)
}

/// An option and its value, where there is a value.
pub open spec fn option_with(name: Seq<char>, value: Option<Seq<char>>) -> Seq<Seq<char>> {
    match value {
        Some(v) => seq![name, v],
        None => Seq::empty(),
    }
}

/// `args` with an option and its value behind them, where there is a value.
pub fn with_option(args: Vec<String>, name: &str, value: Option<&str>) -> (r: Vec<String>)
    ensures
        text::views(r@) == text::views(args@) + option_with(name@, text::opt_str_view(value)),
{
    let mut out = args;
    if let Some(v) = value {
        push_str(&mut out, name);
        push_str(&mut out, v);
    }
    assert(text::views(out@) =~= text::views(args@) + option_with(name@, text::opt_str_view(value)));
    out
}

/// `args` with the region behind them, where one is named.
pub fn with_region(args: Vec<String>, region: Option<&str>) -> (r: Vec<String>)
    ensures
        text::views(r@) == text::views(args@) + region_option(text::opt_str_view(region)),
{
    with_option(args, "--region", region)
}

/// `a` with the arguments `b` behind it.
pub fn with_all(a: Vec<String>, b: &Vec<String>) -> (r: Vec<String>)
    ensures
        text::views(r@) == text::views(a@) + text::views(b@),
{
    let mut out = a;
    let mut more = copy_all(b);
    out.append(&mut more);
    assert(text::views(out@) =~= text::views(a@) + text::views(b@));
    out
}

/// The arguments of `aws` for a request: the region in front, and the wish for
/// JSON behind.
pub open spec fn aws_command(args: Seq<Seq<char>>, region: Option<Seq<char>>) -> Seq<Seq<char>> {
    region_option(region) + args + seq!["--output"@, "json"@]
}

pub fn aws_args(args: &Vec<String>, region: Option<&str>) -> (r: Vec<String>)
    ensures
        text::views(r@) == aws_command(text::views(args@), text::opt_str_view(region)),
{
    let none: Vec<String> = Vec::new();
    let mut out = with_all(with_region(none, region), args);
    push_str(&mut out, "--output");
    push_str(&mut out, "json");
    assert(text::views(none@) =~= Seq::empty());
    assert(text::views(out@) =~= aws_command(text::views(args@), text::opt_str_view(region)));
    out
}

/// What a request to `aws` gives: the JSON value that was printed, or an error.
/// `service` is the first argument.
pub open spec fn aws_reply(service: Seq<char>, ran: Ran) -> Result<json::JsonV, Seq<char>> {
    match ran {
        Ran::NotStarted(e) => Err("spawn aws: "@ + e@ + " — is the AWS CLI on PATH?"@),
        Ran::Failed(e) => Err("aws "@ + service + " → "@ + text::trimmed(e@)),
        Ran::Done(out) => match json::json_from_str(out@) {
            Ok(v) => Ok(v),
            Err(e) => Err("parse json: "@ + e),
        },
    }
}

/// Reads what a request to `aws` printed.
pub fn read_aws_reply(service: &str, ran: &Ran) -> (r: Result<Json, String>)
    ensures
        json::result_view(r) == aws_reply(service@, *ran),
{
    match ran {
        Ran::NotStarted(e) => Err(cat3("spawn aws: ", e.as_str(), " — is the AWS CLI on PATH?")),
        Ran::Failed(e) => Err(cat4("aws ", service, " → ", trim(e.as_str()))),
        Ran::Done(out) => match read_json(out.as_str()) {
            Ok(v) => Ok(v),
            Err(e) => Err(cat2("parse json: ", e.as_str())),
        },
    }
}

/// What follows on a reply: another request, or the end.
pub enum Turn<S, T> {
    Ask(S),
    End(Result<T, String>),
}

/// A `Turn` by its contents.
pub enum TurnV<S, T> {
    Ask(S),
    End(Result<T, Seq<char>>),
}

/// An optional string as an optional slice.
pub fn as_slice(o: &Option<String>) -> (r: Option<&str>)
    ensures
        text::opt_str_view(r) == text::opt_view(*o),
{
    match o {
        Some(s) => Some(s.as_str()),
        None => None,
    }
}

/// A command line names the region where there is one, and always asks for JSON.
pub proof fn law_command_line(args: Seq<Seq<char>>, r: Seq<char>)
    ensures
        aws_command(args, Some(r)) == seq!["--region"@, r] + args + seq!["--output"@, "json"@],
        aws_command(args, None) == args + seq!["--output"@, "json"@],
        region_option(Some(r)) == seq!["--region"@, r],
        region_option(None) == Seq::<Seq<char>>::empty(),
{
    assert(Seq::<Seq<char>>::empty() + args =~= args);
}

/// A run succeeds exactly where the program ran to its end and printed JSON; the
/// value is the one that was printed, and an error tells what went wrong.
pub proof fn law_reply_of_a_run(service: Seq<char>, ran: Ran)
    ensures
        aws_reply(service, ran) is Ok <==> ran is Done && json::json_from_str(ran->Done_0@) is Ok,
        ran is Done && json::json_from_str(ran->Done_0@) is Ok ==> aws_reply(service, ran)->Ok_0 == json::json_from_str(
            ran->Done_0@,
        )->Ok_0,
        ran is Failed ==> aws_reply(service, ran)->Err_0 == "aws "@ + service + " → "@ + text::trimmed(ran->Failed_0@),
        ran is NotStarted ==> aws_reply(service, ran)->Err_0 == "spawn aws: "@ + ran->NotStarted_0@
            + " — is the AWS CLI on PATH?"@,
        ran is Done && json::json_from_str(ran->Done_0@) is Err ==> aws_reply(service, ran)->Err_0 == "parse json: "@
            + json::json_from_str(ran->Done_0@)->Err_0,
{
}

/// The browser of logs is started for a group and under a name, in the region where
/// there is one.
pub proof fn law_logs_are_followed_elsewhere(group: &str, name: &str, region: Option<&str>, done: String, r: Launch)
    requires
        call_ensures(tail_launch_of, (group, name, region, done), r),
    ensures
        r.program@ == "mnml-aws-cloudwatch-logs"@,
        r.args@.len() == (if region is Some {
            6int
        } else {
            4int
        }),
        r.args@[0]@ == "--log-group"@ && r.args@[1]@ == group@,
        r.args@[2]@ == "--log-group-name"@ && r.args@[3]@ == name@,
        region is Some ==> r.args@[4]@ == "--region"@ && r.args@[5]@ == region->0@,
        r.done@ == done@,
{
    let v = text::views(r.args@);
    assert(v.len() == r.args@.len());
    assert forall|i: int| 0 <= i < v.len() implies #[trigger] r.args@[i]@ == v[i] by {}
}

/// A program that was started gives its message, one that was not the error.
pub proof fn law_status_of_a_start(l: LaunchV, e: String)
    ensures
        launch_status(l, Ok(())) == l.done,
        launch_status(l, Err(e)) == l.failed + e@,
{
}

} // verus!
