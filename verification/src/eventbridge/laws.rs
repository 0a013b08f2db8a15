//! What holds of the schedules browser: what the keys do, what becomes of the replies,
//! what is sent to change a schedule, how text is edited, and what is drawn.

use vstd::prelude::*;

use crate::command::{Poll, Ran};
use crate::eventbridge::app;
use crate::eventbridge::app::{App, AppV, Mode, Request, RequestV};
use crate::eventbridge::config;
use crate::eventbridge::edit;
use crate::eventbridge::edit::{Edit, EditFocus};
use crate::eventbridge::keys;
use crate::eventbridge::schedule_expr;
use crate::eventbridge::schedules;
use crate::eventbridge::schedules::{DetailV, ScheduleDetail, ScheduleSummary, ScheduleTarget};
use crate::eventbridge::ui;
use crate::json;
use crate::json::{Json, JsonV};
use crate::keys::{Key, Mouse};
use crate::numeral;
use crate::screen;
use crate::screen::{Color, Line};
use crate::text;

verus! {

/// Quitting, refreshing, and nothing else.
pub proof fn law_quitting_and_refreshing(
    a: &mut App,
    b: &mut App,
    ctrl: bool,
    r: Option<Request>,
    s: Option<Request>,
)
    requires
        old(a).mode == Mode::Browse,
        old(b).mode == Mode::Browse,
        call_ensures(keys::handle, (a, Key::Char('q'), ctrl), r),
        call_ensures(keys::handle, (b, Key::Char('r'), ctrl), s),
    ensures
        final(a).should_quit,
        r is None,
        s is Some && s->0@ == RequestV::List,
        final(b).pending_list,
        final(b)@.detail_cache.dom() =~= Set::empty(),
        final(b).pending_detail is None,
        !final(b).pending_prefetch,
        final(b).should_quit == old(b).should_quit,
{
    assert(final(a)@.should_quit == final(a).should_quit);
    assert(final(b)@.should_quit == final(b).should_quit);
    assert(final(b)@.pending_list == final(b).pending_list);
    assert(final(b)@.pending_prefetch == final(b).pending_prefetch);
}

/// What a key moves the cursor by.
pub open spec fn step(key: Key) -> int {
    match key {
        Key::Down => 1,
        Key::Up => -1,
        Key::PageDown => 10,
        Key::PageUp => -10,
        Key::Char(c) => if c == 'j' {
            1
        } else if c == 'k' {
            -1
        } else {
            0
        },
        _ => 0,
    }
}

/// The keys for it move the cursor by one or by ten rows, but not out of the list; the
/// detail of the row that is reached is shown where it was read, and else asked for.
pub proof fn law_moving_the_cursor(a: &mut App, key: Key, ctrl: bool, r: Option<Request>)
    requires
        old(a).mode == Mode::Browse,
        step(key) != 0,
        call_ensures(keys::handle, (a, key, ctrl), r),
        old(a).schedules@.len() > 0,
        old(a).selected < old(a).schedules@.len(),
    ensures
        ({
            let n = old(a)@.schedules.len() as int;
            let to = old(a).selected + step(key);
            let at = final(a)@.selected;
            let k = (final(a)@.schedules[at].name@, final(a)@.schedules[at].group_name@);
            &&& final(a)@.schedules == old(a)@.schedules
            &&& 0 <= to < n ==> at == to
            &&& to < 0 ==> at == 0
            &&& to >= n ==> at == n - 1
            &&& old(a)@.detail_cache.dom().contains(k) ==> r is None && final(a)@.detail == Some(old(a)@.detail_cache[k])
            &&& !old(a)@.detail_cache.dom().contains(k) ==> r is Some && r->0@ == (RequestV::Detail {
                name: k.0,
                group: k.1,
            }) && final(a)@.detail is None && final(a)@.pending_detail == Some(k)
        }),
{
}

/// A row is unfolded, folded, or turned from one to the other, and no other row is.
pub proof fn law_folding(
    a: &mut App,
    b: &mut App,
    c: &mut App,
    ctrl: bool,
    other: (Seq<char>, Seq<char>),
    r: Option<Request>,
    s: Option<Request>,
    t: Option<Request>,
)
    requires
        old(a).mode == Mode::Browse,
        old(b).mode == Mode::Browse,
        old(c).mode == Mode::Browse,
        old(a)@.selected < old(a)@.schedules.len(),
        old(b)@.selected < old(b)@.schedules.len(),
        old(c)@.selected < old(c)@.schedules.len(),
        call_ensures(keys::handle, (a, Key::Right, ctrl), r),
        call_ensures(keys::handle, (b, Key::Left, ctrl), s),
        call_ensures(keys::handle, (c, Key::Enter, ctrl), t),
    ensures
        final(a)@.expanded.contains(app::key_of(old(a)@.schedules[old(a)@.selected])),
        other != app::key_of(old(a)@.schedules[old(a)@.selected]) ==> (final(a)@.expanded.contains(other)
            <==> old(a)@.expanded.contains(other)),
        !final(b)@.expanded.contains(app::key_of(old(b)@.schedules[old(b)@.selected])),
        other != app::key_of(old(b)@.schedules[old(b)@.selected]) ==> (final(b)@.expanded.contains(other)
            <==> old(b)@.expanded.contains(other)),
        final(c)@.expanded.contains(app::key_of(old(c)@.schedules[old(c)@.selected]))
            <==> !old(c)@.expanded.contains(app::key_of(old(c)@.schedules[old(c)@.selected])),
        other != app::key_of(old(c)@.schedules[old(c)@.selected]) ==> (final(c)@.expanded.contains(other)
            <==> old(c)@.expanded.contains(other)),
        r is None && s is None && t is None,
{
}

/// The letters for folding do what the arrows do, and the space what Enter does.
pub proof fn law_letters_for_folding(a: AppV, ctrl: bool)
    requires
        a.mode == Mode::Browse,
    ensures
        keys::handled(a, Key::Char('l'), ctrl) == keys::handled(a, Key::Right, ctrl),
        keys::handled(a, Key::Char('h'), ctrl) == keys::handled(a, Key::Left, ctrl),
        keys::handled(a, Key::Char(' '), ctrl) == keys::handled(a, Key::Enter, ctrl),
        keys::handled(a, Key::Char('c'), true).0.should_quit,
{
}

/// Editing begins with the expression and the input of the schedule that is shown, with
/// the cursor behind the expression; without one it does not begin.
pub proof fn law_editing_begins(a: &mut App, ctrl: bool, r: Option<Request>)
    requires
        old(a).mode == Mode::Browse,
        call_ensures(keys::handle, (a, Key::Char('e'), ctrl), r),
    ensures
        r is None,
        old(a)@.detail is None ==> final(a).mode == Mode::Browse,
        old(a)@.detail is Some ==> ({
            let d = old(a)@.detail->0;
            let e = final(a)@.edit;
            &&& final(a).mode == Mode::Edit
            &&& e.focus == EditFocus::Expression
            &&& e.expression.text == d.schedule_expression
            &&& e.expression.pos == d.schedule_expression.len()
            &&& d.target.input is Some ==> e.input.text == d.target.input->0 && e.input.pos == e.input.text.len()
            &&& d.target.input is None ==> e.input.text.len() == 0
        }),
{
    assert(final(a)@.mode == final(a).mode);
}

/// A schedule that is turned on or off is sent with the other state and else as it was
/// read; before its detail was read nothing is sent.
pub proof fn law_state_is_turned(
    a: &mut App,
    ctrl: bool,
    m: Seq<(Seq<char>, JsonV)>,
    k: Seq<char>,
    r: Option<Request>,
)
    requires
        old(a).mode == Mode::Browse,
        old(a)@.selected < old(a)@.schedules.len(),
        call_ensures(keys::handle, (a, Key::Char('t'), ctrl), r),
    ensures
        ({
            let key = app::key_of(old(a)@.schedules[old(a)@.selected]);
            let d = old(a)@.detail_cache[key];
            &&& !old(a)@.detail_cache.dom().contains(key) ==> r is None && final(a).mode == Mode::Browse
            &&& old(a)@.detail_cache.dom().contains(key) && d.raw == JsonV::Object(m) ==> {
                &&& r is Some && r->0@ is Send
                &&& final(a).mode == Mode::Saving && final(a).pending_save
                &&& d.state == "ENABLED"@ ==> json::member(r->0@->payload, "State"@) == Some(
                    JsonV::Text("DISABLED"@),
                )
                &&& d.state == "DISABLED"@ ==> json::member(r->0@->payload, "State"@) == Some(JsonV::Text("ENABLED"@))
                &&& k != "State"@ && k != "Arn"@ && k != "CreationDate"@ && k != "LastModificationDate"@
                    ==> json::member(r->0@->payload, k) == json::member(d.raw, k)
            }
        }),
{
    reveal_strlit("ENABLED");
    reveal_strlit("DISABLED");
    assert("ENABLED"@.len() == 7 && "DISABLED"@.len() == 8);
    assert(final(a)@.mode == final(a).mode);
    assert(final(a)@.pending_save == final(a).pending_save);
    let key = app::key_of(old(a)@.schedules[old(a)@.selected]);
    let d = old(a)@.detail_cache[key];
    if old(a)@.detail_cache.dom().contains(key) && d.raw == JsonV::Object(m) {
        schedules::law_toggle_keeps_the_rest(m, d.state, k);
    }
}

/// What was edited is sent: the expression and the input as they stand in the fields, and
/// else the schedule as it was read.
pub proof fn law_edit_is_sent(
    a: &mut App,
    m: Seq<(Seq<char>, JsonV)>,
    t: Seq<(Seq<char>, JsonV)>,
    k: Seq<char>,
    r: Option<Request>,
)
    requires
        old(a).edit.wf(),
        old(a).mode == Mode::Edit,
        old(a)@.detail is Some,
        old(a)@.detail->0.raw == JsonV::Object(m),
        json::member(JsonV::Object(m), "Target"@) == Some(JsonV::Object(t)),
        call_ensures(keys::handle, (a, Key::Char('s'), true), r),
    ensures
        r is Some && r->0@ is Send,
        final(a).mode == Mode::Saving && final(a).pending_save,
        json::member(r->0@->payload, "ScheduleExpression"@) == Some(JsonV::Text(old(a)@.edit.expression.text)),
        json::member(r->0@->payload, "Target"@) is Some,
        json::member(json::member(r->0@->payload, "Target"@)->0, "Input"@) == Some(
            JsonV::Text(old(a)@.edit.input.text),
        ),
        k != "ScheduleExpression"@ && k != "Target"@ && k != "Arn"@ && k != "CreationDate"@ && k
            != "LastModificationDate"@ ==> json::member(r->0@->payload, k) == json::member(JsonV::Object(m), k),
{
    assert(final(a)@.mode == final(a).mode);
    assert(final(a)@.pending_save == final(a).pending_save);
    schedules::law_update_keeps_the_rest(m, old(a)@.edit.expression.text, old(a)@.edit.input.text, k);
}

/// The payloads of the two changes, as they are made of a schedule.
pub proof fn law_payloads(
    d: &ScheduleDetail,
    expression: &str,
    input: &str,
    m: Seq<(Seq<char>, JsonV)>,
    r: Json,
    s: (Json, String),
)
    requires
        call_ensures(schedules::update_schedule, (d, expression, input), r),
        call_ensures(schedules::toggle_state, (d,), s),
        d.raw@ == JsonV::Object(m),
    ensures
        json::member(r@, "ScheduleExpression"@) == Some(JsonV::Text(expression@)),
        json::member(r@, "Arn"@) is None,
        json::member(s.0@, "State"@) == Some(JsonV::Text(s.1@)),
        json::member(s.0@, "Arn"@) is None,
        d.state@ == "ENABLED"@ ==> s.1@ == "DISABLED"@,
        d.state@ != "ENABLED"@ ==> s.1@ == "ENABLED"@,
{
    schedules::law_update_keeps_the_rest(m, expression@, input@, "Name"@);
    schedules::law_toggle_keeps_the_rest(m, d.state@, "Name"@);
    schedules::law_payload_is_stripped(schedules::edited(m, expression@, input@), "Arn"@);
    schedules::law_payload_is_stripped(
        json::with_member(m, "State"@, JsonV::Text(schedules::other_state(d.state@))),
        "Arn"@,
    );
}

/// A list that arrives takes the place of the schedules, and their details are asked for;
/// an error is told and keeps them.
pub proof fn law_list_arrives(
    a: &mut App,
    list: Vec<ScheduleSummary>,
    r: (bool, Vec<Request>),
    b: &mut App,
    e: String,
    s: (bool, Vec<Request>),
)
    requires
        old(a).pending_list,
        old(b).pending_list,
        call_ensures(App::on_list, (a, Poll::Ready(Ok(list))), r),
        call_ensures(App::on_list, (b, Poll::Ready(Err(e))), s),
    ensures
        r.0,
        final(a)@.schedules == list@,
        !final(a).pending_list,
        final(a).pending_prefetch,
        final(a).status@ == numeral::decimal(list@.len()) + " schedules"@,
        app::request_views(r.1@).len() > 0 && app::request_views(r.1@).last() == (RequestV::Prefetch {
            keys: app::keys_of(list@),
        }),
        s.0,
        final(b)@.schedules == old(b)@.schedules,
        !final(b).pending_list,
        final(b).status@ == "list error: "@ + e@,
        final(b)@.last_error == Some(e@),
        s.1@.len() == 0,
{
    assert(final(a)@.status == final(a).status@ && final(b)@.status == final(b).status@);
    assert(final(a)@.pending_list == final(a).pending_list && final(b)@.pending_list == final(b).pending_list);
    assert(final(a)@.pending_prefetch == final(a).pending_prefetch);
    assert(app::request_views(s.1@).len() == s.1@.len());
}

/// A detail that arrives is shown where its row is still the selected one; an error is
/// told.
pub proof fn law_detail_arrives(a: &mut App, d: ScheduleDetail, r: bool, b: &mut App, e: String, s: bool)
    requires
        old(a).pending_detail is Some,
        old(b).pending_detail is Some,
        call_ensures(App::on_detail, (a, Poll::Ready(Ok(d))), r),
        call_ensures(App::on_detail, (b, Poll::Ready(Err(e))), s),
    ensures
        r && s,
        old(a)@.selected_key() == old(a)@.pending_detail ==> final(a)@.detail == Some(d@),
        old(a)@.selected_key() != old(a)@.pending_detail ==> final(a)@.detail == old(a)@.detail,
        !final(a).detail_loading,
        final(a).pending_detail is None,
        final(b)@.detail == old(b)@.detail,
        final(b).status@ == "detail error: "@ + e@,
        final(b).pending_detail is None,
{
    assert(final(a)@.detail_loading == final(a).detail_loading);
    assert(final(b)@.status == final(b).status@);
    assert(final(a)@.pending_detail is None && final(b)@.pending_detail is None);
}

/// Details that arrive ahead of time are kept under their names.
pub proof fn law_details_are_kept(
    a: AppV,
    batch: Seq<(String, String, Result<ScheduleDetail, String>)>,
    name: String,
    group: String,
    d: ScheduleDetail,
    e: String,
)
    ensures
        ({
            let before = a.with_batch(batch);
            let after = a.with_batch(batch.push((name, group, Ok(d))));
            &&& after.detail_cache.dom().contains((name@, group@)) && after.detail_cache[(name@, group@)] == d@
            &&& after.schedules == before.schedules
            &&& before.detail is Some ==> after.detail == before.detail
            &&& before.detail is None && before.selected_key() == Some((name@, group@)) ==> after.detail == Some(d@)
            &&& a.with_batch(batch.push((name, group, Err(e)))) == before
        }),
{
    assert(batch.push((name, group, Ok::<ScheduleDetail, String>(d))).drop_last() =~= batch);
    assert(batch.push((name, group, Err::<ScheduleDetail, String>(e))).drop_last() =~= batch);
}

/// A change that was saved ends the edit and has the list read again; one that failed
/// goes back to the edit.
pub proof fn law_save_ends(
    a: &mut App,
    r: (bool, Vec<Request>),
    b: &mut App,
    e: String,
    s: (bool, Vec<Request>),
)
    requires
        old(a).pending_save,
        old(b).pending_save,
        call_ensures(App::on_save, (a, Poll::Ready(Ok(()))), r),
        call_ensures(App::on_save, (b, Poll::Ready(Err(e))), s),
    ensures
        final(a).mode == Mode::Browse,
        !final(a).pending_save,
        final(a).pending_list,
        app::request_views(r.1@).last() == RequestV::List,
        final(b).mode == Mode::Edit,
        !final(b).pending_save,
        final(b).status@ == "save error: "@ + e@,
        s.1@.len() == 0,
{
    assert(final(a)@.mode == final(a).mode && final(b)@.mode == final(b).mode);
    assert(final(a)@.pending_save == final(a).pending_save && final(b)@.pending_save == final(b).pending_save);
    assert(final(a)@.pending_list == final(a).pending_list);
    assert(final(b)@.status == final(b).status@);
    assert(app::request_views(s.1@).len() == s.1@.len());
}

/// A value is reached member by member; a path that misses reaches nothing.
pub proof fn law_path_into_a_value(v: JsonV, parts: Seq<Seq<char>>, k: Seq<char>)
    ensures
        config::reached(v, Seq::empty()) == Some(v),
        config::reached(v, parts) is Some ==> config::reached(v, parts.push(k)) == json::member(
            config::reached(v, parts)->0,
            k,
        ),
        config::reached(v, parts) is None ==> config::reached(v, parts.push(k)) is None,
{
    assert(parts.push(k).drop_last() =~= parts);
}

/// A text, a number or a truth value at the end of a path is told; an object, a list and
/// nothing are not. An empty path leads nowhere.
pub proof fn law_value_at_a_path(v: &Json, path: &str, r: Option<String>, input: &str, s: Option<String>)
    requires
        call_ensures(config::walk_path, (v, path), r),
        call_ensures(config::extract_json_path, (input, path), s),
        json::json_in_text(input@) == Some(v@),
    ensures
        text::opt_view(s) == text::opt_view(r),
        path@.len() == 0 ==> r is None,
        path@.len() > 0 ==> ({
            let x = config::reached(v@, text::split_at_char(path@, '.'));
            &&& x is None ==> r is None
            &&& x is Some && x->0 is Text ==> r is Some && r->0@ == x->0->Text_0
            &&& x is Some && x->0 is Number ==> r is Some && r->0@ == x->0->Number_0
            &&& x == Some(JsonV::Bool(true)) ==> r is Some && r->0@ == "true"@
            &&& x == Some(JsonV::Bool(false)) ==> r is Some && r->0@ == "false"@
            &&& x is Some && (x->0 is Object || x->0 is Array || x->0 is Null) ==> r is None
        }),
{
}

/// A text that is no JSON has nothing at any path.
pub proof fn law_no_value_in_other_texts(input: &str, path: &str, s: Option<String>)
    requires
        call_ensures(config::extract_json_path, (input, path), s),
        json::json_in_text(input@) is None,
    ensures
        s is None,
{
}

/// The command lines of this browser.
pub proof fn law_command_lines(
    args: &Vec<String>,
    region: &str,
    token: &str,
    name: &str,
    group: &str,
    path: &str,
    a: Vec<String>,
    b: Vec<String>,
    c: Vec<String>,
    d: Vec<String>,
)
    requires
        call_ensures(schedules::scheduler_args, (args, Some(region)), a),
        call_ensures(schedules::list_schedules_args, (Some(token),), b),
        call_ensures(schedules::get_schedule_args, (name, group), c),
        call_ensures(schedules::update_args, (path, Some(region)), d),
    ensures
        text::views(a@) =~= seq!["scheduler"@] + text::views(args@) + seq!["--region"@, region@, "--output"@, "json"@],
        text::views(b@) =~= seq!["list-schedules"@, "--max-results"@, "100"@, "--next-token"@, token@],
        text::views(c@) =~= seq!["get-schedule"@, "--name"@, name@, "--group-name"@, group@],
        text::views(d@) =~= seq![
            "scheduler"@,
            "update-schedule"@,
            "--cli-input-json"@,
            "file://"@ + path@,
            "--region"@,
            region@,
            "--output"@,
            "json"@,
        ],
{
}

/// The detail of a schedule is read member by member; without a target there is none.
pub proof fn law_detail_is_read(
    v: Json,
    t: ScheduleTarget,
    e: String,
    r: Result<ScheduleDetail, String>,
    s: Result<ScheduleDetail, String>,
    u: Result<ScheduleDetail, String>,
)
    requires
        call_ensures(schedules::get_schedule, (v, Some(Ok(t))), r),
        call_ensures(schedules::get_schedule, (v, Some(Err(e))), s),
        call_ensures(schedules::get_schedule, (v, None), u),
    ensures
        r is Ok,
        ({
            let d = r->Ok_0;
            &&& json::text_member(v@, "Name"@) is Some ==> d.name@ == json::text_member(v@, "Name"@)->0
            &&& json::text_member(v@, "GroupName"@) is Some ==> d.group_name@ == json::text_member(v@, "GroupName"@)->0
            &&& json::text_member(v@, "GroupName"@) is None ==> d.group_name@ == "default"@
            &&& json::text_member(v@, "State"@) is Some ==> d.state@ == json::text_member(v@, "State"@)->0
            &&& json::text_member(v@, "State"@) is None ==> d.state@ == "ENABLED"@
            &&& json::text_member(v@, "Description"@) is Some ==> d.description@ == json::text_member(
                v@,
                "Description"@,
            )->0
            &&& json::text_member(v@, "ScheduleExpression"@) is Some ==> d.schedule_expression@ == json::text_member(
                v@,
                "ScheduleExpression"@,
            )->0
            &&& json::text_member(v@, "ScheduleExpressionTimezone"@) is Some ==> d.schedule_expression_timezone@
                == json::text_member(v@, "ScheduleExpressionTimezone"@)->0
            &&& d.target@ == t@
            &&& d.raw@ == v@
        }),
        s is Err && s->Err_0@ == e@,
        u is Err && u->Err_0@ == "get-schedule: missing Target"@,
{
    let d = r->Ok_0@;
    assert(d.name == r->Ok_0.name@);
}

/// How a change ended.
pub proof fn law_change_ended(ran: &Ran, e: String, r: Result<(), String>)
    requires
        call_ensures(schedules::update_result, (ran,), r),
    ensures
        r is Ok <==> ran is Done,
        *ran == Ran::Failed(e) ==> r is Err && r->Err_0@ == "update-schedule: "@ + e@,
{
}

/// A reply is read as JSON; an empty one is nothing, and what failed is told with the
/// request.
pub proof fn law_reply_is_read(args: &Vec<String>, ran: &Ran, out: String, r: Result<Json, String>)
    requires
        call_ensures(schedules::read_reply, (args, ran), r),
    ensures
        *ran == Ran::Done(out) && text::trimmed(out@).len() == 0 ==> r is Ok && r->Ok_0@ == JsonV::Null,
        *ran == Ran::Done(out) && text::trimmed(out@).len() > 0 && json::json_in_text(out@) is Some ==> r is Ok
            && r->Ok_0@ == json::json_in_text(out@)->0,
        *ran == Ran::Done(out) && text::trimmed(out@).len() > 0 && json::json_in_text(out@) is None ==> r is Err,
        *ran == Ran::Failed(out) ==> r is Err && r->Err_0@ == "aws scheduler "@ + text::joined(
            text::views(args@),
            " "@,
        ) + ": "@ + out@,
{
}

/// A character is written at the cursor, which moves behind it; the key for it takes the
/// character in front of the cursor away, and the other one that behind it.
pub proof fn law_writing(e: &mut Edit, c: char, b: &mut Edit, d: &mut Edit)
    requires
        old(e).wf(),
        old(b).wf(),
        old(d).wf(),
        call_ensures(Edit::insert_char, (e, c), ()),
        call_ensures(Edit::backspace, (b,), ()),
        call_ensures(Edit::delete_forward, (d,), ()),
    ensures
        ({
            let f = old(e)@.current();
            let g = final(e)@.current();
            &&& final(e).focus == old(e).focus
            &&& g.text == f.text.take(f.pos) + seq![c] + f.text.skip(f.pos)
            &&& g.pos == f.pos + 1
        }),
        ({
            let f = old(b)@.current();
            let g = final(b)@.current();
            &&& f.pos == 0 ==> g == f
            &&& f.pos > 0 ==> g.text == f.text.take(f.pos - 1) + f.text.skip(f.pos) && g.pos == f.pos - 1
        }),
        ({
            let f = old(d)@.current();
            let g = final(d)@.current();
            &&& f.pos == f.text.len() ==> g == f
            &&& f.pos < f.text.len() ==> g.text == f.text.take(f.pos) + f.text.skip(f.pos + 1) && g.pos == f.pos
        }),
{
    edit::law_wf_is_valid(*old(e));
    edit::law_wf_is_valid(*old(b));
    edit::law_wf_is_valid(*old(d));
    assert(final(e)@.focus == final(e).focus);
    let f = old(e)@.current();
    assert(final(e)@.current().text =~= f.text.take(f.pos) + seq![c] + f.text.skip(f.pos));
    let g = old(b)@.current();
    if g.pos > 0 {
        assert(final(b)@.current().text =~= g.text.take(g.pos - 1) + g.text.skip(g.pos));
    }
    let h = old(d)@.current();
    if h.pos < h.text.len() {
        assert(final(d)@.current().text =~= h.text.take(h.pos) + h.text.skip(h.pos + 1));
    }
}

/// The cursor moves by one character and stops at the ends; Home and End go to the ends
/// of the expression, or of the line of the input.
pub proof fn law_cursor_in_a_field(l: &mut Edit, r: &mut Edit, h: &mut Edit, n: &mut Edit, s: &mut Edit)
    requires
        old(l).wf() && old(r).wf() && old(h).wf() && old(n).wf() && old(s).wf(),
        call_ensures(Edit::move_left, (l,), ()),
        call_ensures(Edit::move_right, (r,), ()),
        call_ensures(Edit::move_home, (h,), ()),
        call_ensures(Edit::move_end, (n,), ()),
        call_ensures(Edit::switch_focus, (s,), ()),
    ensures
        final(l)@.current().text == old(l)@.current().text,
        old(l)@.current().pos > 0 ==> final(l)@.current().pos == old(l)@.current().pos - 1,
        old(l)@.current().pos == 0 ==> final(l)@.current().pos == 0,
        final(r)@.current().text == old(r)@.current().text,
        old(r)@.current().pos < old(r)@.current().text.len() ==> final(r)@.current().pos == old(r)@.current().pos + 1,
        old(r)@.current().pos == old(r)@.current().text.len() ==> final(r)@.current().pos == old(r)@.current().pos,
        old(h)@.focus == EditFocus::Expression ==> final(h)@.current().pos == 0,
        old(n)@.focus == EditFocus::Expression ==> final(n)@.current().pos == old(n)@.current().text.len(),
        old(s)@.focus == EditFocus::Expression <==> final(s)@.focus == EditFocus::Input,
        final(s)@.expression == old(s)@.expression && final(s)@.input == old(s)@.input,
{
    edit::law_wf_is_valid(*old(l));
    edit::law_wf_is_valid(*old(r));
    edit::law_wf_is_valid(*old(h));
    edit::law_wf_is_valid(*old(n));
}

/// The line that the cursor is in begins behind the last line break in front of it, and
/// ends at the next one.
pub proof fn law_line_of_the_cursor(a: Seq<char>, line: Seq<char>, b: Seq<char>, p: int)
    requires
        !line.contains('\n'),
        0 <= p <= line.len(),
    ensures
        edit::line_start(a + seq!['\n'] + line, a.len() + 1 + p) == a.len() + 1,
        edit::line_start(line, p) == 0,
        edit::line_end(line + seq!['\n'] + b, p) == line.len(),
        edit::line_end(line, p) == line.len(),
{
    let head = line.take(p);
    let tail = line.skip(p);
    assert(!head.contains('\n')) by {
        if head.contains('\n') {
            let i = choose|i: int| 0 <= i < head.len() && head[i] == '\n';
            assert(line[i] == '\n');
        }
    }
    assert(!tail.contains('\n')) by {
        if tail.contains('\n') {
            let i = choose|i: int| 0 <= i < tail.len() && tail[i] == '\n';
            assert(line[i + p] == '\n');
        }
    }
    let t = a + seq!['\n'] + line;
    assert(t.take(a.len() + 1 + p) =~= a + seq!['\n'] + head);
    text::law_after_last(a, '\n', head);
    let u = line + seq!['\n'] + b;
    assert(u.skip(p) =~= tail + seq!['\n'] + b);
    text::law_until_first(tail, '\n', b);
}

/// The keys of the editor write, erase and move; a line break goes into the input only.
pub proof fn law_keys_of_the_editor(a: AppV, c: char, ctrl: bool)
    requires
        a.mode == Mode::Edit,
        a.edit.valid(),
    ensures
        keys::handled(a, Key::Char(c), false).0.edit == a.edit.inserted(c),
        keys::handled(a, Key::Backspace, ctrl).0.edit == a.edit.backspaced(),
        keys::handled(a, Key::Delete, ctrl).0.edit == a.edit.deleted(),
        keys::handled(a, Key::Left, ctrl).0.edit == a.edit.left(),
        keys::handled(a, Key::Right, ctrl).0.edit == a.edit.right(),
        keys::handled(a, Key::Home, ctrl).0.edit == a.edit.home(),
        keys::handled(a, Key::End, ctrl).0.edit == a.edit.end(),
        keys::handled(a, Key::Char('a'), true).0.edit == a.edit.home(),
        keys::handled(a, Key::Char('e'), true).0.edit == a.edit.end(),
        keys::handled(a, Key::Tab, ctrl).0.edit.focus != a.edit.focus,
        a.edit.focus == EditFocus::Expression ==> keys::handled(a, Key::Enter, ctrl).0.edit == a.edit,
        a.edit.focus == EditFocus::Input ==> keys::handled(a, Key::Enter, ctrl).0.edit == a.edit.inserted('\n'),
        keys::handled(a, Key::Esc, ctrl).0.mode == Mode::Browse,
        keys::handled(a, Key::Char(c), false).1 is None,
{
}

/// The two extra columns show what stands at their paths in the input; a dash where
/// nothing does, and dots while the detail is not read.
pub proof fn law_extra_columns(
    d: &ScheduleDetail,
    env: &str,
    branch: &str,
    input: String,
    v: JsonV,
    r: (String, String),
    s: (String, String),
)
    requires
        call_ensures(ui::extract_env_branch, (Some(d), env, branch), r),
        call_ensures(ui::extract_env_branch, (None::<&ScheduleDetail>, env, branch), s),
    ensures
        s.0@ == "…"@ && s.1@ == "…"@,
        d.target.input is None ==> r.0@ == "-"@ && r.1@ == "-"@,
        d.target.input == Some(input) && json::json_in_text(input@) == Some(v) ==> ({
            let e = config::text_at_path(v, env@);
            let b = config::text_at_path(v, branch@);
            &&& e is Some && e->0.len() <= 8 ==> r.0@ == e->0
            &&& b is Some && b->0.len() <= 20 ==> r.1@ == b->0
            &&& e is None ==> r.0@ == "-"@
            &&& b is None ==> r.1@ == "-"@
        }),
{
    reveal_strlit("-");
    assert("-"@.len() == 1);
    assert(d@.target.input == text::opt_view(d.target.input));
    if d.target.input == Some(input) && json::json_in_text(input@) == Some(v) {
        let e = config::text_at_path(v, env@);
        let b = config::text_at_path(v, branch@);
        if e is Some {
            text::law_shortened(e->0, 8);
        }
        if b is Some {
            text::law_shortened(b->0, 20);
        }
        text::law_shortened("-"@, 8);
        text::law_shortened("-"@, 20);
    }
}

/// A schedule that is on is green, one that is off is gray, and another is yellow.
pub proof fn law_colours_of_schedules(state: Seq<char>)
    ensures
        ui::state_color("ENABLED"@) == Color::Green,
        ui::state_color("DISABLED"@) == Color::DarkGray,
        state != "ENABLED"@ && state != "DISABLED"@ ==> ui::state_color(state) == Color::Yellow,
{
    reveal_strlit("ENABLED");
    reveal_strlit("DISABLED");
    assert("ENABLED"@.len() == 7 && "DISABLED"@.len() == 8);
}

/// The line of a schedule has its name, its state, the two extra columns and when it
/// runs, in words.
pub proof fn law_line_of_a_schedule(
    s: ScheduleSummary,
    selected: bool,
    expanded: bool,
    d: DetailV,
    env: Seq<char>,
    branch: Seq<char>,
)
    requires
        s.name@.len() <= 31,
    ensures
        ({
            let l = ui::summary_line(s, selected, expanded, Some(d), env, branch);
            let cols = ui::env_branch(Some(d), env, branch);
            &&& l.len() == 6
            &&& l[0].0 == (if expanded {
                "▼ "@
            } else {
                "▶ "@
            })
            &&& text::has_prefix(l[1].0, s.name@)
            &&& text::has_prefix(l[2].0, s.state@) && l[2].1.fg == ui::state_color(s.state@)
            &&& text::has_prefix(l[3].0, cols.0)
            &&& text::has_prefix(l[4].0, cols.1)
            &&& l[5].0 == schedule_expr::humanized(d.schedule_expression, d.schedule_expression_timezone)
        }),
{
    let cols = ui::env_branch(Some(d), env, branch);
    assert(text::first_chars(s.name@, 31) =~= s.name@);
    text::law_padded(s.name@, 32);
    text::law_padded(s.state@, 10);
    text::law_padded(cols.0, 8);
    text::law_padded(cols.1, 20);
    lemma_longer(text::padded_right(s.state@, 10), " "@, s.state@);
    lemma_longer(text::padded_right(cols.0, 8), " "@, cols.0);
    lemma_longer(text::padded_right(cols.1, 20), " "@, cols.1);
}

proof fn lemma_longer(a: Seq<char>, b: Seq<char>, p: Seq<char>)
    requires
        text::has_prefix(a, p),
    ensures
        text::has_prefix(a + b, p),
{
    assert((a + b).take(p.len() as int) =~= a.take(p.len() as int));
}

/// A schedule that is unfolded has its line and then its detail; one that is folded its
/// line only.
pub proof fn law_rows_of_a_schedule(a: AppV, i: int)
    requires
        0 <= i < a.schedules.len(),
    ensures
        ({
            let k = (a.schedules[i].name@, a.schedules[i].group_name@);
            let r = ui::row_lines(a, i);
            &&& !a.expanded.contains(k) ==> r.len() == 1
            &&& a.expanded.contains(k) && a.detail_cache.dom().contains(k) ==> ({
                let d = a.detail_cache[k];
                &&& r.len() > 4
                &&& r[1][2].0 == d.group_name && r[1][5].0 == d.schedule_expression_timezone
                &&& r[2][2].0 == d.schedule_expression
                &&& d.target.input is Some && d.target.input->0.len() > 0 ==> r.len() == 5 + text::text_lines(
                    d.target.input->0,
                ).len()
            })
        }),
{
}

/// Line breaks are counted one by one.
pub proof fn law_line_breaks_are_counted(s: Seq<char>, c: char, x: char)
    ensures
        ui::count_char(Seq::empty(), c) == 0,
        ui::count_char(s.push(x), c) == ui::count_char(s, c) + (if x == c {
            1int
        } else {
            0
        }),
{
    assert(s.push(x).drop_last() =~= s);
}

/// The cursor stands behind the characters in front of it: in the first line of the
/// expression, or in the line of the input that it is in.
pub proof fn law_cursor_on_the_screen(a: &App, x: u16, y: u16, width: u16, height: u16, r: (u16, u16))
    requires
        a.edit.wf(),
        ui::cursor_fits(a@, x, y, width, height),
        call_ensures(ui::edit_cursor, (a, x, y, width, height), r),
        a@.edit.expression.pos < 0x1_0000,
        a@.edit.input.pos < 0x1_0000,
    ensures
        a@.edit.focus == EditFocus::Expression && 4 + a@.edit.expression.pos < width && 1 < height ==> r.0 == x + 4
            + a@.edit.expression.pos && r.1 == y + 1,
        ({
            let f = a@.edit.input;
            let col = f.pos - edit::line_start(f.text, f.pos);
            let row = ui::count_char(f.text.take(f.pos), '\n');
            a@.edit.focus == EditFocus::Input && 0 <= col < 0x1_0000 && 0 <= row < 0x1_0000 && 4 + col < width && 5 + row
                < height ==> r.0 == x + 4 + col && r.1 == y + 5 + row
        }),
{
    edit::law_wf_is_valid(a.edit);
}

/// A press on a row selects it and asks for its detail; a press on the selected row
/// unfolds or folds it; the wheel scrolls.
pub proof fn law_press_on_a_row(a: &mut App, y: u16, i: usize, r: Option<Request>)
    requires
        old(a).edit.wf(),
        old(a).mode == Mode::Browse,
        call_ensures(keys::handle_mouse, (a, Mouse::Press, y), r),
        crate::rows::row_hit(old(a)@.row_hits, y) == Some(i),
        i < old(a)@.schedules.len(),
    ensures
        ({
            let k = (old(a)@.schedules[i as int].name@, old(a)@.schedules[i as int].group_name@);
            &&& final(a)@.selected == i
            &&& old(a)@.selected != i ==> final(a)@.expanded == old(a)@.expanded
            &&& old(a)@.selected != i && !old(a)@.detail_cache.dom().contains(k) ==> r is Some && r->0@ == (
            RequestV::Detail { name: k.0, group: k.1 })
            &&& old(a)@.selected == i ==> (final(a)@.expanded.contains(k) <==> !old(a)@.expanded.contains(k)) && r is None
        }),
{
}

/// The browser begins with nothing and asks for the schedules.
pub proof fn law_fresh_browser(cfg: config::Config, r: (App, Request))
    requires
        call_ensures(App::new, (cfg,), r),
    ensures
        r.1@ == RequestV::List,
        r.0@.pending_list,
        r.0@.schedules.len() == 0,
        r.0@.mode == Mode::Browse,
        r.0@.status == "refreshing…"@,
{
}

/// What is edited is drawn with what it means.
pub proof fn law_edit_is_drawn(a: &App, r: Vec<Line>)
    requires
        call_ensures(ui::edit_overlay_lines, (a,), r),
        a@.detail is Some,
    ensures
        ({
            let d = screen::drawn(r@);
            &&& d.len() >= 5
            &&& d[1][1].0 == a@.edit.expression.text
            &&& d[2][1].0 == schedule_expr::humanized(
                a@.edit.expression.text,
                a@.detail->0.schedule_expression_timezone,
            )
            &&& d.len() == 5 + text::split_at_char(a@.edit.input.text, '\n').len()
            &&& a@.edit.focus == EditFocus::Expression ==> d[0][0].0 == "▸ Schedule expression"@
            &&& a@.edit.focus == EditFocus::Input ==> d[4][0].0 == "▸ Target Input (JSON)"@
        }),
{
}

/// The rows of the schedules follow each other, and an empty list is told.
pub proof fn law_list_is_drawn(a: &mut App, y: u16, height: u16, r: Vec<Line>)
    requires
        y < u16::MAX,
        y + height <= u16::MAX,
        call_ensures(ui::draw_list, (a, y, height), r),
    ensures
        old(a)@.schedules.len() == 0 && !old(a)@.pending_list ==> screen::drawn(r@).len() == 1 && screen::drawn(
            r@,
        )[0][0].0 == "  (no schedules in this region)"@,
        old(a)@.schedules.len() == 1 ==> screen::drawn(r@) =~= ui::row_lines(old(a)@, 0),
{
    reveal_with_fuel(ui::all_rows, 3);
}

/// What the keys are for is told as long as they are for it.
pub proof fn law_hints(a: &App, r: (Line, Line))
    requires
        call_ensures(ui::status_lines, (a,), r),
    ensures
        r.0@[0].0 == " "@ + a.status@ + " "@,
        a.mode == Mode::Edit ==> r.0@[1].0 == " Tab focus · Ctrl+S save · Esc cancel "@,
        a.mode == Mode::Saving ==> r.0@[1].0 == " saving… "@,
{
}

/// The cursor stays at its row when the schedules arrive, as far as there are as many.
pub proof fn law_cursor_stays(a: &mut App, list: Vec<ScheduleSummary>, r: (bool, Vec<Request>))
    requires
        old(a).pending_list,
        call_ensures(App::on_list, (a, Poll::Ready(Ok(list))), r),
    ensures
        old(a)@.selected < list@.len() ==> final(a)@.selected == old(a)@.selected,
        0 < list@.len() <= old(a)@.selected ==> final(a)@.selected == list@.len() - 1,
        list@.len() == 0 ==> final(a)@.selected == 0,
{
}

} // verus!
