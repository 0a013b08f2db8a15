//! Schedules, and the command lines and payloads by which they are listed,
//! read and changed.

use vstd::prelude::*;

use crate::command;
use crate::command::{with_all, with_option, with_region, Ran};
use crate::json;
use crate::json::{parse_json, remove_member, set_member, Json};
use crate::numeral;
use crate::text;
use crate::text::{cat2, cat3, cat4, join, list_of, owned, str_eq, trim};

verus! {

/// A schedule as the list of schedules gives it.
pub struct ScheduleSummary {
    pub name: String,
    pub group_name: String,
    pub arn: String,
    pub state: String,
    pub target: Option<TargetSummary>,
}

/// The target of a schedule as the list of schedules gives it.
pub struct TargetSummary {
    pub arn: String,
}

/// A schedule with everything that is shown and edited. `raw` is the whole
/// reply, from which an update starts.
pub struct ScheduleDetail {
    pub name: String,
    pub group_name: String,
    pub description: String,
    pub state: String,
    pub schedule_expression: String,
    pub schedule_expression_timezone: String,
    pub flexible_time_window: Json,
    pub target: ScheduleTarget,
    pub raw: Json,
}

/// What a schedule starts.
pub struct ScheduleTarget {
    pub arn: String,
    pub role_arn: String,
    pub input: Option<String>,
}

/// A `ScheduleDetail` by its contents.
pub struct DetailV {
    pub name: Seq<char>,
    pub group_name: Seq<char>,
    pub description: Seq<char>,
    pub state: Seq<char>,
    pub schedule_expression: Seq<char>,
    pub schedule_expression_timezone: Seq<char>,
    pub flexible_time_window: json::JsonV,
    pub target: TargetV,
    pub raw: json::JsonV,
}

/// A `ScheduleTarget` by its contents.
pub struct TargetV {
    pub arn: Seq<char>,
    pub role_arn: Seq<char>,
    pub input: Option<Seq<char>>,
}

impl View for ScheduleTarget {
    type V = TargetV;

    open spec fn view(&self) -> TargetV {
        TargetV { arn: self.arn@, role_arn: self.role_arn@, input: text::opt_view(self.input) }
    }
}

impl View for ScheduleDetail {
    type V = DetailV;

    open spec fn view(&self) -> DetailV {
        DetailV {
            name: self.name@,
            group_name: self.group_name@,
            description: self.description@,
            state: self.state@,
            schedule_expression: self.schedule_expression@,
            schedule_expression_timezone: self.schedule_expression_timezone@,
            flexible_time_window: self.flexible_time_window@,
            target: self.target@,
            raw: self.raw@,
        }
    }
}

impl ScheduleTarget {
    /// The same target again.
    pub fn copy(&self) -> (r: ScheduleTarget)
        ensures
            r@ == self@,
    {
        ScheduleTarget {
            arn: self.arn.clone(),
            role_arn: self.role_arn.clone(),
            input: match &self.input {
                Some(s) => Some(s.clone()),
                None => None,
            },
        }
    }
}

impl ScheduleDetail {
    /// The same schedule again.
    pub fn copy(&self) -> (r: ScheduleDetail)
        ensures
            r@ == self@,
    {
        ScheduleDetail {
            name: self.name.clone(),
            group_name: self.group_name.clone(),
            description: self.description.clone(),
            state: self.state.clone(),
            schedule_expression: self.schedule_expression.clone(),
            schedule_expression_timezone: self.schedule_expression_timezone.clone(),
            flexible_time_window: self.flexible_time_window.copy(),
            target: self.target.copy(),
            raw: self.raw.copy(),
        }
    }
}

/// The arguments of `aws` for a request to the scheduler.
pub open spec fn scheduler_command(args: Seq<Seq<char>>, region: Option<Seq<char>>) -> Seq<Seq<char>> {
    seq!["scheduler"@] + args + command::region_option(region) + seq!["--output"@, "json"@]
}

pub fn scheduler_args(args: &Vec<String>, region: Option<&str>) -> (r: Vec<String>)
    ensures
        text::views(r@) == scheduler_command(text::views(args@), text::opt_str_view(region)),
{
    let head = list_of(vec!["scheduler"]);
    let tail = list_of(vec!["--output", "json"]);
    assert(text::views(head@) =~= seq!["scheduler"@]);
    assert(text::views(tail@) =~= seq!["--output"@, "json"@]);
    with_all(with_region(with_all(head, args), region), &tail)
}

/// What a request to the scheduler gives: the JSON value that was printed,
/// null where nothing was printed, or an error that names the request.
pub open spec fn reply(args: Seq<Seq<char>>, ran: Ran) -> Result<json::JsonV, Seq<char>> {
    let request = text::joined(args, " "@);
    match ran {
        Ran::NotStarted(_) => Err("spawn aws scheduler "@ + request),
        Ran::Failed(stderr) => Err("aws scheduler "@ + request + ": "@ + stderr@),
        Ran::Done(stdout) => if text::trimmed(stdout@).len() == 0 {
            Ok(json::JsonV::Null)
        } else {
            match json::json_in_text(stdout@) {
                Some(v) => Ok(v),
                None => Err("parse aws scheduler "@ + request),
            }
        },
    }
}

/// Reads what a request to the scheduler printed.
pub fn read_reply(args: &Vec<String>, ran: &Ran) -> (r: Result<Json, String>)
    ensures
        json::result_view(r) == reply(text::views(args@), *ran),
        r matches Ok(v) ==> json::settled(v@),
{
    let request = join(args, " ");
    match ran {
        Ran::NotStarted(_) => Err(cat2("spawn aws scheduler ", request.as_str())),
        Ran::Failed(stderr) => Err(
            cat4("aws scheduler ", request.as_str(), ": ", stderr.as_str()),
        ),
        Ran::Done(stdout) => {
            if trim(stdout.as_str()).is_empty() {
                return Ok(Json::Null);
            }
            match parse_json(stdout.as_str()) {
                Some(v) => Ok(v),
                None => Err(cat2("parse aws scheduler ", request.as_str())),
            }
        },
    }
}

/// The request for a page of the list of schedules.
pub open spec fn list_request(next_token: Option<Seq<char>>) -> Seq<Seq<char>> {
    seq!["list-schedules"@, "--max-results"@, "100"@] + command::option_with("--next-token"@, next_token)
}

pub fn list_schedules_args(next_token: Option<&str>) -> (r: Vec<String>)
    ensures
        text::views(r@) == list_request(text::opt_str_view(next_token)),
{
    let head = list_of(vec!["list-schedules", "--max-results", "100"]);
    assert(text::views(head@) =~= seq!["list-schedules"@, "--max-results"@, "100"@]);
    with_option(head, "--next-token", next_token)
}

/// The token for the page behind this one. There is none on the last page.
pub fn next_token(page: &Json) -> (r: Option<String>)
    ensures
        text::opt_view(r) == json::text_member(page@, "NextToken"@),
{
    page.text_at("NextToken")
}

/// The request for one schedule.
pub open spec fn get_request(name: Seq<char>, group_name: Seq<char>) -> Seq<Seq<char>> {
    seq!["get-schedule"@, "--name"@, name, "--group-name"@, group_name]
}

pub fn get_schedule_args(name: &str, group_name: &str) -> (r: Vec<String>)
    ensures
        text::views(r@) == get_request(name@, group_name@),
{
    let r = list_of(vec!["get-schedule", "--name", name, "--group-name", group_name]);
    assert(text::views(r@) =~= get_request(name@, group_name@));
    r
}

/// The schedule that a reply describes. Members that are missing have their
/// usual values; `target` is what the reply's target was read as, if it has
/// one.
pub open spec fn detail_in(v: json::JsonV, target: TargetV) -> DetailV {
    DetailV {
        name: json::text_member_or(v, "Name"@, ""@),
        group_name: json::text_member_or(v, "GroupName"@, "default"@),
        description: json::text_member_or(v, "Description"@, ""@),
        state: json::text_member_or(v, "State"@, "ENABLED"@),
        schedule_expression: json::text_member_or(v, "ScheduleExpression"@, ""@),
        schedule_expression_timezone: json::text_member_or(v, "ScheduleExpressionTimezone"@, ""@),
        flexible_time_window: match json::member(v, "FlexibleTimeWindow"@) {
            Some(w) => w,
            None => json::JsonV::Object(seq![("Mode"@, json::JsonV::Text("OFF"@))]),
        },
        target,
        raw: v,
    }
}

/// Reads a schedule from a reply. `target` is the reply's target, or the error
/// that reading it gave; `None` where the reply has no target.
pub fn get_schedule(v: Json, target: Option<Result<ScheduleTarget, String>>) -> (r: Result<
    ScheduleDetail,
    String,
>)
    ensures
        match (target, r) {
            (Some(Ok(t)), Ok(d)) => d@ == detail_in(v@, t@),
            (Some(Err(e)), Err(m)) => m@ == e@,
            (None, Err(m)) => m@ == "get-schedule: missing Target"@,
            _ => false,
        },
{
    let target = match target {
        Some(Ok(t)) => t,
        Some(Err(e)) => {
            return Err(e);
        },
        None => {
            return Err(owned("get-schedule: missing Target"));
        },
    };
    let window = match v.get("FlexibleTimeWindow") {
        Some(w) => w.copy(),
        None => {
            let mut m: Vec<(String, Json)> = Vec::new();
            m.push((owned("Mode"), Json::Text(owned("OFF"))));
            proof {
                json::lemma_object_view(m);
                assert(json::members_view(m@) =~= seq![("Mode"@, json::JsonV::Text("OFF"@))]);
            }
            Json::Object(m)
        },
    };
    Ok(
        ScheduleDetail {
            name: v.text_or("Name", ""),
            group_name: v.text_or("GroupName", "default"),
            description: v.text_or("Description", ""),
            state: v.text_or("State", "ENABLED"),
            schedule_expression: v.text_or("ScheduleExpression", ""),
            schedule_expression_timezone: v.text_or("ScheduleExpressionTimezone", ""),
            flexible_time_window: window,
            target,
            raw: v,
        },
    )
}

/// An object without the members that only the service itself sets.
pub open spec fn stripped(m: Seq<(Seq<char>, json::JsonV)>) -> Seq<(Seq<char>, json::JsonV)> {
    json::without_member(
        json::without_member(json::without_member(m, "Arn"@), "CreationDate"@),
        "LastModificationDate"@,
    )
}

fn strip_read_only(m: &mut Vec<(String, Json)>)
    ensures
        json::members_view(final(m)@) == stripped(json::members_view(old(m)@)),
{
    remove_member(m, "Arn");
    remove_member(m, "CreationDate");
    remove_member(m, "LastModificationDate");
}

/// An object with a new schedule expression, and with a new input in its
/// target where the target is an object.
pub open spec fn edited(
    m: Seq<(Seq<char>, json::JsonV)>,
    expression: Seq<char>,
    input: Seq<char>,
) -> Seq<(Seq<char>, json::JsonV)> {
    let m1 = json::with_member(m, "ScheduleExpression"@, json::JsonV::Text(expression));
    match json::member(json::JsonV::Object(m1), "Target"@) {
        Some(json::JsonV::Object(t)) => json::with_member(
            m1,
            "Target"@,
            json::JsonV::Object(json::with_member(t, "Input"@, json::JsonV::Text(input))),
        ),
        _ => m1,
    }
}

/// What is sent to change a schedule's expression and input.
pub open spec fn update_payload(raw: json::JsonV, expression: Seq<char>, input: Seq<char>) -> json::JsonV {
    match raw {
        json::JsonV::Object(m) => json::JsonV::Object(stripped(edited(m, expression, input))),
        _ => raw,
    }
}

pub fn update_schedule(detail: &ScheduleDetail, new_expression: &str, new_target_input: &str) -> (r: Json)
    ensures
        r@ == update_payload(detail.raw@, new_expression@, new_target_input@),
{
    match detail.raw.copy() {
        Json::Object(members) => {
            let mut m = members;
            proof {
                json::lemma_object_view(m);
            }
            set_member(&mut m, "ScheduleExpression", Json::Text(owned(new_expression)));
            let obj = Json::Object(m);
            proof {
                json::lemma_object_view(m);
            }
            let mut new_target: Option<Json> = None;
            if let Some(Json::Object(t)) = obj.get("Target") {
                let copied = Json::Object(copy_members(t));
                if let Json::Object(tm) = copied {
                    let mut tm = tm;
                    proof {
                        json::lemma_object_view(*t);
                        json::lemma_object_view(tm);
                    }
                    set_member(&mut tm, "Input", Json::Text(owned(new_target_input)));
                    proof {
                        json::lemma_object_view(tm);
                    }
                    new_target = Some(Json::Object(tm));
                }
            }
            if let Json::Object(members) = obj {
                let mut m = members;
                if let Some(t) = new_target {
                    set_member(&mut m, "Target", t);
                }
                strip_read_only(&mut m);
                proof {
                    json::lemma_object_view(m);
                }
                Json::Object(m)
            } else {
                obj
            }
        },
        other => other,
    }
}

fn copy_members(m: &Vec<(String, Json)>) -> (r: Vec<(String, Json)>)
    ensures
        json::members_view(r@) == json::members_view(m@),
{
    let mut out: Vec<(String, Json)> = Vec::new();
    let mut i: usize = 0;
    while i < m.len()
        invariant
            i <= m.len(),
            out.len() == i,
            forall|j: int| 0 <= j < i ==> (#[trigger] out@[j]).0@ == m@[j].0@ && out@[j].1@ == m@[j].1@,
        decreases m.len() - i,
    {
        out.push((m[i].0.clone(), m[i].1.copy()));
        i = i + 1;
    }
    assert(json::members_view(out@) =~= json::members_view(m@));
    out
}

/// The other one of the two states.
pub open spec fn other_state(state: Seq<char>) -> Seq<char> {
    if state == "ENABLED"@ {
        "DISABLED"@
    } else {
        "ENABLED"@
    }
}

/// What is sent to turn a schedule on or off.
pub open spec fn toggle_payload(raw: json::JsonV, state: Seq<char>) -> json::JsonV {
    match raw {
        json::JsonV::Object(m) => json::JsonV::Object(
            stripped(json::with_member(m, "State"@, json::JsonV::Text(other_state(state)))),
        ),
        _ => raw,
    }
}

/// The payload that turns a schedule on or off, and the state that it sets.
pub fn toggle_state(detail: &ScheduleDetail) -> (r: (Json, String))
    ensures
        r.0@ == toggle_payload(detail.raw@, detail.state@),
        r.1@ == other_state(detail.state@),
{
    let next = if str_eq(detail.state.as_str(), "ENABLED") { "DISABLED" } else { "ENABLED" };
    let payload = match detail.raw.copy() {
        Json::Object(members) => {
            let mut m = members;
            proof {
                json::lemma_object_view(m);
            }
            set_member(&mut m, "State", Json::Text(owned(next)));
            strip_read_only(&mut m);
            proof {
                json::lemma_object_view(m);
            }
            Json::Object(m)
        },
        other => other,
    };
    (payload, owned(next))
}

/// The name of the file that a payload is handed over in.
pub fn update_file_name(pid: u32) -> (r: String)
    ensures
        r@ == "mnml-scheduler-"@ + numeral::decimal(pid as nat) + ".json"@,
{
    cat3("mnml-scheduler-", numeral::dec(pid as u64).as_str(), ".json")
}

/// The arguments of `aws` that send the payload in the file `path`.
pub open spec fn update_command(path: Seq<char>, region: Option<Seq<char>>) -> Seq<Seq<char>> {
    seq!["scheduler"@, "update-schedule"@, "--cli-input-json"@, "file://"@ + path]
        + command::region_option(region) + seq!["--output"@, "json"@]
}

pub fn update_args(path: &str, region: Option<&str>) -> (r: Vec<String>)
    ensures
        text::views(r@) == update_command(path@, text::opt_str_view(region)),
{
    let file = cat2("file://", path);
    let head = list_of(vec!["scheduler", "update-schedule", "--cli-input-json", file.as_str()]);
    let tail = list_of(vec!["--output", "json"]);
    assert(text::views(head@) =~= seq![
        "scheduler"@,
        "update-schedule"@,
        "--cli-input-json"@,
        "file://"@ + path@,
    ]);
    assert(text::views(tail@) =~= seq!["--output"@, "json"@]);
    with_all(with_region(head, region), &tail)
}

/// Whether an update was taken, or why not.
pub fn update_result(ran: &Ran) -> (r: Result<(), String>)
    ensures
        match (*ran, r) {
            (Ran::NotStarted(_), Err(m)) => m@ == "spawn aws scheduler update-schedule"@,
            (Ran::Failed(stderr), Err(m)) => m@ == "update-schedule: "@ + stderr@,
            (Ran::Done(_), Ok(())) => true,
            _ => false,
        },
{
    match ran {
        Ran::NotStarted(_) => Err(owned("spawn aws scheduler update-schedule")),
        Ran::Failed(stderr) => Err(cat2("update-schedule: ", stderr.as_str())),
        Ran::Done(_) => Ok(()),
    }
}

/// To turn a schedule on or off twice leaves it in the state in which it was.
pub proof fn law_toggle_twice(state: Seq<char>)
    requires
        state == "ENABLED"@ || state == "DISABLED"@,
    ensures
        other_state(other_state(state)) == state,
{
    reveal_strlit("ENABLED");
    reveal_strlit("DISABLED");
    assert("ENABLED"@.len() == 7 && "DISABLED"@.len() == 8);
}

/// Members that only the service itself sets.
pub open spec fn read_only(k: Seq<char>) -> bool {
    k == "Arn"@ || k == "CreationDate"@ || k == "LastModificationDate"@
}

proof fn lemma_stripped(m: Seq<(Seq<char>, json::JsonV)>, k: Seq<char>)
    ensures
        !read_only(k) ==> json::member(json::JsonV::Object(stripped(m)), k) == json::member(
            json::JsonV::Object(m),
            k,
        ),
        read_only(k) ==> json::member(json::JsonV::Object(stripped(m)), k) is None,
{
    let m1 = json::without_member(m, "Arn"@);
    let m2 = json::without_member(m1, "CreationDate"@);
    json::law_without_member(m, "Arn"@, k);
    json::law_without_member(m1, "CreationDate"@, k);
    json::law_without_member(m2, "LastModificationDate"@, k);
    lemma_read_only_differ();
}

proof fn lemma_read_only_differ()
    ensures
        "Arn"@ != "CreationDate"@,
        "Arn"@ != "LastModificationDate"@,
        "CreationDate"@ != "LastModificationDate"@,
        "ScheduleExpression"@ != "Target"@,
        !read_only("ScheduleExpression"@),
        !read_only("Target"@),
        !read_only("State"@),
{
    reveal_strlit("Arn");
    reveal_strlit("CreationDate");
    reveal_strlit("LastModificationDate");
    reveal_strlit("ScheduleExpression");
    reveal_strlit("Target");
    reveal_strlit("State");
    assert("Arn"@.len() == 3 && "CreationDate"@.len() == 12 && "LastModificationDate"@.len() == 20);
    assert("ScheduleExpression"@.len() == 18 && "Target"@.len() == 6 && "State"@.len() == 5);
}

/// An update sets the expression and, where the schedule has a target object,
/// its input; it keeps every other member that it does not know, in the
/// schedule and in the target.
pub proof fn law_update_keeps_the_rest(
    m: Seq<(Seq<char>, json::JsonV)>,
    expression: Seq<char>,
    input: Seq<char>,
    k: Seq<char>,
)
    ensures
        ({
            let payload = update_payload(json::JsonV::Object(m), expression, input);
            &&& json::member(payload, "ScheduleExpression"@) == Some(json::JsonV::Text(expression))
            &&& !read_only(k) && k != "ScheduleExpression"@ && k != "Target"@ ==> json::member(payload, k)
                == json::member(json::JsonV::Object(m), k)
            &&& json::member(json::JsonV::Object(m), "Target"@) matches Some(json::JsonV::Object(t))
                ==> {
                &&& json::member(payload, "Target"@) matches Some(t2)
                &&& json::member(t2, "Input"@) == Some(json::JsonV::Text(input))
                &&& k != "Input"@ ==> json::member(t2, k) == json::member(json::JsonV::Object(t), k)
            }
            &&& !(json::member(json::JsonV::Object(m), "Target"@) matches Some(json::JsonV::Object(_)))
                ==> json::member(payload, "Target"@) == json::member(json::JsonV::Object(m), "Target"@)
        }),
{
    let x = json::JsonV::Text(expression);
    let m1 = json::with_member(m, "ScheduleExpression"@, x);
    let m2 = edited(m, expression, input);
    lemma_read_only_differ();
    json::law_with_member(m, "ScheduleExpression"@, x, k);
    json::law_with_member(m, "ScheduleExpression"@, x, "Target"@);
    lemma_stripped(m2, k);
    lemma_stripped(m2, "ScheduleExpression"@);
    lemma_stripped(m2, "Target"@);
    if let Some(json::JsonV::Object(t)) = json::member(json::JsonV::Object(m1), "Target"@) {
        let t1 = json::JsonV::Object(json::with_member(t, "Input"@, json::JsonV::Text(input)));
        json::law_with_member(m1, "Target"@, t1, k);
        json::law_with_member(m1, "Target"@, t1, "ScheduleExpression"@);
        json::law_with_member(t, "Input"@, json::JsonV::Text(input), k);
    }
}

/// Turning a schedule on or off changes its state and keeps every other
/// member.
pub proof fn law_toggle_keeps_the_rest(m: Seq<(Seq<char>, json::JsonV)>, state: Seq<char>, k: Seq<char>)
    ensures
        ({
            let payload = toggle_payload(json::JsonV::Object(m), state);
            &&& json::member(payload, "State"@) == Some(json::JsonV::Text(other_state(state)))
            &&& !read_only(k) && k != "State"@ ==> json::member(payload, k) == json::member(
                json::JsonV::Object(m),
                k,
            )
        }),
{
    let x = json::JsonV::Text(other_state(state));
    lemma_read_only_differ();
    json::law_with_member(m, "State"@, x, k);
    lemma_stripped(json::with_member(m, "State"@, x), k);
    lemma_stripped(json::with_member(m, "State"@, x), "State"@);
}

/// What is sent holds none of the members that only the service sets.
pub proof fn law_payload_is_stripped(m: Seq<(Seq<char>, json::JsonV)>, k: Seq<char>)
    requires
        read_only(k),
    ensures
        json::member(json::JsonV::Object(stripped(m)), k) is None,
        json::member(json::as_value(json::JsonV::Object(stripped(m))), k) is None,
{
    lemma_stripped(m, k);
    json::law_nothing_is_added(stripped(m), k);
}

proof fn lemma_stripped_names(m: Seq<(Seq<char>, json::JsonV)>)
    requires
        json::distinct_members(m),
    ensures
        json::distinct_members(stripped(m)),
{
    let m1 = json::without_member(m, "Arn"@);
    let m2 = json::without_member(m1, "CreationDate"@);
    json::lemma_names_stay_distinct(m, "Arn"@, json::JsonV::Null);
    json::lemma_names_stay_distinct(m1, "CreationDate"@, json::JsonV::Null);
    json::lemma_names_stay_distinct(m2, "LastModificationDate"@, json::JsonV::Null);
}

/// A schedule that was read and is sent with an update has its new expression
/// and, in a target object, its new input. Every other member, in the schedule
/// and in the target, is sent as it was read.
pub proof fn law_sent_update_keeps_the_rest(
    m: Seq<(Seq<char>, json::JsonV)>,
    expression: Seq<char>,
    input: Seq<char>,
    k: Seq<char>,
)
    requires
        json::settled(json::JsonV::Object(m)),
    ensures
        ({
            let sent = json::as_value(update_payload(json::JsonV::Object(m), expression, input));
            &&& json::member(sent, "ScheduleExpression"@) == Some(json::JsonV::Text(expression))
            &&& !read_only(k) && k != "ScheduleExpression"@ && k != "Target"@ ==> json::member(sent, k)
                == json::member(json::JsonV::Object(m), k)
            &&& json::member(json::JsonV::Object(m), "Target"@) matches Some(json::JsonV::Object(t))
                ==> {
                &&& json::member(sent, "Target"@) matches Some(t2)
                &&& json::member(t2, "Input"@) == Some(json::JsonV::Text(input))
                &&& k != "Input"@ ==> json::member(t2, k) == json::member(json::JsonV::Object(t), k)
            }
            &&& !(json::member(json::JsonV::Object(m), "Target"@) matches Some(json::JsonV::Object(_)))
                ==> json::member(sent, "Target"@) == json::member(json::JsonV::Object(m), "Target"@)
        }),
{
    let x = json::JsonV::Text(expression);
    let y = json::JsonV::Text(input);
    let m1 = json::with_member(m, "ScheduleExpression"@, x);
    let m2 = edited(m, expression, input);
    lemma_read_only_differ();
    law_update_keeps_the_rest(m, expression, input, k);
    json::law_settled_member(m, k);
    json::law_settled_member(m, "Target"@);
    json::law_with_member(m, "ScheduleExpression"@, x, "Target"@);
    json::lemma_names_stay_distinct(m, "ScheduleExpression"@, x);
    if let Some(json::JsonV::Object(t)) = json::member(json::JsonV::Object(m1), "Target"@) {
        let u = json::with_member(t, "Input"@, y);
        json::law_settled_member(t, k);
        json::lemma_names_stay_distinct(t, "Input"@, y);
        json::lemma_names_stay_distinct(m1, "Target"@, json::JsonV::Object(u));
        json::law_with_member(t, "Input"@, y, k);
        json::law_with_member(m1, "Target"@, json::JsonV::Object(u), k);
        lemma_stripped(m2, "Target"@);
        json::law_written_value_is_kept(y, Seq::empty(), 0, u, k);
        json::law_written_value_is_kept(y, Seq::empty(), 0, u, "Input"@);
    }
    lemma_stripped_names(m2);
    let p = stripped(m2);
    json::law_written_value_is_kept(x, Seq::empty(), 0, p, k);
    json::law_written_value_is_kept(x, Seq::empty(), 0, p, "ScheduleExpression"@);
    json::law_written_value_is_kept(x, Seq::empty(), 0, p, "Target"@);
}

/// A schedule that was read and is sent to be turned on or off has its new
/// state. Every other member is sent as it was read.
pub proof fn law_sent_toggle_keeps_the_rest(
    m: Seq<(Seq<char>, json::JsonV)>,
    state: Seq<char>,
    k: Seq<char>,
)
    requires
        json::settled(json::JsonV::Object(m)),
    ensures
        ({
            let sent = json::as_value(toggle_payload(json::JsonV::Object(m), state));
            &&& json::member(sent, "State"@) == Some(json::JsonV::Text(other_state(state)))
            &&& !read_only(k) && k != "State"@ ==> json::member(sent, k) == json::member(
                json::JsonV::Object(m),
                k,
            )
        }),
{
    let x = json::JsonV::Text(other_state(state));
    let m1 = json::with_member(m, "State"@, x);
    law_toggle_keeps_the_rest(m, state, k);
    json::law_settled_member(m, k);
    json::lemma_names_stay_distinct(m, "State"@, x);
    lemma_stripped_names(m1);
    json::law_written_value_is_kept(x, Seq::empty(), 0, stripped(m1), k);
    json::law_written_value_is_kept(x, Seq::empty(), 0, stripped(m1), "State"@);
}

} // verus!
