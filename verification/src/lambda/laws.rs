//! What holds of the functions browser: what is listed of the functions, where their
//! logs and dead letters go, and what the browser does.

use vstd::prelude::*;

use crate::command::Launch;
use crate::command::Ran;
use crate::keys::Key;
use crate::lambda::app;
use crate::lambda::app::{App, Fetch, SpecV, TabSpec, TabState};
use crate::lambda::config;
use crate::lambda::config::{Config, Tab};
use crate::lambda::keys;
use crate::lambda::keys::Action;
use crate::lambda::lambda;
use crate::lambda::lambda::{EnvironmentResponse, Function};
use crate::lambda::ui;
use crate::numeral;
use crate::order;
use crate::screen;
use crate::screen::{Color, Line};
use crate::tabs;
use crate::tabs::Pane;
use crate::text;

verus! {

/// The logs of a function stand under its name; sizes are told as numbers of bytes; an
/// ARN is shortened to what stands behind its last slash.
pub proof fn law_names(name: &str, g: String, n: u64, b: String, arn: &str, s: String)
    requires
        call_ensures(lambda::log_group_for, (name,), g),
        call_ensures(lambda::fmt_bytes, (n,), b),
        call_ensures(ui::short_arn, (arn,), s),
    ensures
        g@ == "/aws/lambda/"@ + name@,
        b@ == numeral::byte_count(n as nat),
        s@ == text::after_last(arn@, '/'),
{
}

/// The command lines for the list and for one function.
pub proof fn law_command_lines(region: &str, marker: &str, name: &str, r: Vec<String>, s: Vec<String>)
    requires
        call_ensures(lambda::list_functions_args, (Some(region), Some(marker)), r),
        call_ensures(lambda::get_function_args, (name, Some(region)), s),
    ensures
        text::views(r@) =~= seq![
            "lambda"@,
            "list-functions"@,
            "--output"@,
            "json"@,
            "--region"@,
            region@,
            "--starting-token"@,
            marker@,
        ],
        text::views(s@) =~= seq![
            "lambda"@,
            "get-function-configuration"@,
            "--function-name"@,
            name@,
            "--output"@,
            "json"@,
            "--region"@,
            region@,
        ],
{
}

/// Functions come in the order of their names, and none is lost.
pub proof fn law_functions_by_name(f: Vec<Function>, r: Vec<Function>, i: int, j: int)
    requires
        call_ensures(lambda::sort_functions, (f,), r),
        0 <= i < j < r@.len(),
    ensures
        !text::before(text::lowercased(r@[j].function_name@), text::lowercased(r@[i].function_name@)),
        r@.to_multiset() == f@.to_multiset(),
{
    let less = |a: Function, b: Function| order::lower_before(a.function_name@, b.function_name@);
    order::lemma_key_orders(less, |a: Function| text::lowercased(a.function_name@));
    order::law_sorted(f@, less);
    assert(!less(r@[j], r@[i]));
}

/// A function that was read joins those that were read before, whatever failed.
pub proof fn law_read_function_is_listed(
    before: Vec<(String, Result<Function, String>)>,
    after: Vec<(String, Result<Function, String>)>,
    name: String,
    f: Function,
    b: Result<Vec<Function>, String>,
    a: Result<Vec<Function>, String>,
)
    requires
        call_ensures(app::merge_watched, (before,), b),
        call_ensures(app::merge_watched, (after,), a),
        after@ == before@.push((name, Ok::<Function, String>(f))),
    ensures
        a is Ok,
        b is Ok ==> a->Ok_0@ == b->Ok_0@.push(f),
        b is Err ==> a->Ok_0@ == seq![f],
{
    assert(after@.drop_last() =~= before@);
    assert(app::read_ones(after@) == app::read_ones(before@).push(f));
    if b is Err {
        assert(app::read_ones(before@) =~= Seq::empty());
        assert(a->Ok_0@ =~= seq![f]);
    }
}

/// A function that could not be read is passed over where another was read; where none
/// was, what failed is told, each with its name.
pub proof fn law_unread_function_is_passed_over(
    before: Vec<(String, Result<Function, String>)>,
    after: Vec<(String, Result<Function, String>)>,
    name: String,
    e: String,
    b: Result<Vec<Function>, String>,
    a: Result<Vec<Function>, String>,
)
    requires
        call_ensures(app::merge_watched, (before,), b),
        call_ensures(app::merge_watched, (after,), a),
        after@ == before@.push((name, Err::<Function, String>(e))),
    ensures
        b is Ok && b->Ok_0@.len() > 0 ==> a is Ok && a->Ok_0@ == b->Ok_0@,
        before@.len() == 0 ==> a is Err && a->Err_0@ == name@ + ": "@ + e@,
        b is Err ==> a is Err && a->Err_0@ == b->Err_0@ + "; "@ + name@ + ": "@ + e@,
{
    assert(after@.drop_last() =~= before@);
    let told = name@ + ": "@ + e@;
    assert(app::errors(after@) == app::errors(before@).push(told));
    text::law_joined(app::errors(before@), "; "@, told);
    if before@.len() == 0 {
        assert(app::errors(after@) =~= seq![told]);
    }
    if b is Err {
        assert(a->Err_0@ =~= b->Err_0@ + "; "@ + name@ + ": "@ + e@);
    }
}

/// With nothing to read nothing is listed, and nothing failed.
pub proof fn law_nothing_to_read(r: Vec<(String, Result<Function, String>)>, a: Result<Vec<Function>, String>)
    requires
        call_ensures(app::merge_watched, (r,), a),
        r@.len() == 0,
    ensures
        a is Ok && a->Ok_0@.len() == 0,
{
}

/// A tab lists all functions or those that are watched; of another kind there is none.
pub proof fn law_tabs_of_the_settings(t: &Tab, region: Option<&str>, r: Result<TabSpec, String>)
    requires
        call_ensures(TabSpec::resolve, (t, region), r),
    ensures
        t.kind@ == "all"@ ==> r is Ok && r->Ok_0.kind@ == "all"@,
        t.kind@ == "watched"@ && t.watched@.len() > 0 ==> r is Ok && r->Ok_0.kind@ == "watched"@ && text::views(
            r->Ok_0.watched@,
        ) == text::views(t.watched@),
        t.kind@ == "watched"@ && t.watched@.len() == 0 ==> r is Err,
        t.kind@ != "all"@ && t.kind@ != "watched"@ ==> r is Err,
        r is Ok && t.region is Some ==> text::opt_view(r->Ok_0.region) == Some(t.region->0@),
        r is Ok && t.region is None ==> text::opt_view(r->Ok_0.region) == text::opt_str_view(region),
{
    reveal_strlit("all");
    reveal_strlit("watched");
    assert("all"@[0] == 'a' && "watched"@[0] == 'w');
    if r is Ok {
        let v = r->Ok_0@;
        assert(v.kind == r->Ok_0.kind@);
    }
}

/// What a tab asks for.
pub proof fn law_request_of_a_tab(f: Fetch, spec: SpecV)
    requires
        app::is_fetch(f, spec),
    ensures
        spec.kind == "all"@ <==> f is All,
        f is Watched ==> text::views(f->names@) == spec.watched && text::opt_view(f->Watched_region) == spec.region,
        f is All ==> text::opt_view(f->All_region) == spec.region,
        app::count_label(spec) == "functions"@,
{
}

/// The page that is opened is that of the function under the cursor.
pub proof fn law_page_that_is_opened(a: &mut App, region: Seq<char>, r: Option<String>)
    requires
        old(a).wf(),
        call_ensures(App::open_console, (a,), r),
        old(a).browser().active().spec@.region == Some(region),
        old(a).browser().list().focused() is Some,
    ensures
        r is Some,
        r->0@ == "https://"@ + region + ".console.aws.amazon.com/lambda/home?region="@ + region + "#/functions/"@
            + old(a).browser().list().focused()->0.function_name@,
{
}

/// What is copied is the ARN of the function under the cursor.
pub proof fn law_what_is_copied(a: &mut App, r: Option<String>)
    requires
        old(a).wf(),
        call_ensures(App::yank_arn, (a,), r),
        old(a).browser().list().focused() is Some,
    ensures
        r is Some,
        r->0@ == old(a).browser().list().focused()->0.function_arn@,
{
}

/// The logs browser is started on the log group of the function.
pub proof fn law_logs_are_followed(a: &mut App, r: Option<Launch>)
    requires
        old(a).wf(),
        call_ensures(App::tail_logs, (a,), r),
        old(a).browser().list().focused() is Some,
    ensures
        ({
            let name = old(a).browser().list().focused()->0.function_name@;
            &&& r is Some
            &&& r->0.program@ == "mnml-aws-cloudwatch-logs"@
            &&& text::views(r->0.args@).take(4) =~= seq![
                "--log-group"@,
                "/aws/lambda/"@ + name,
                "--log-group-name"@,
                name,
            ]
        }),
{
    assert(r->0@.args == text::views(r->0.args@));
    assert(r->0@.program == r->0.program@);
}

/// Dead letters in a queue are shown by the queues browser, those in a topic by the
/// topics browser, and others by none.
pub proof fn law_dead_letters_are_shown(a: &mut App, service: Seq<char>, r: Option<Launch>)
    requires
        old(a).wf(),
        call_ensures(App::handoff_dlq, (a,), r),
        old(a).browser().list().focused() is Some,
        ({
            let d = old(a).browser().list().focused()->0.dead_letter_config;
            &&& d is Some && d->0.target_arn is Some
            &&& text::split_at_char(d->0.target_arn->0@, ':').len() > 2
            &&& text::split_at_char(d->0.target_arn->0@, ':')[2] == service
        }),
    ensures
        service == "sqs"@ ==> r is Some && r->0.program@ == "mnml-aws-sqs"@,
        service == "sns"@ ==> r is Some && r->0.program@ == "mnml-aws-sns"@,
        service != "sqs"@ && service != "sns"@ ==> r is None,
        r is Some ==> r->0.args@.len() == 0,
{
    reveal_strlit("sqs");
    reveal_strlit("sns");
    assert("sqs"@[1] == 'q' && "sns"@[1] == 'n');
    if r is Some {
        let l = r->0@;
        assert(l.args == text::views(r->0.args@));
        assert(l.program == r->0.program@);
    }
}

/// Without a dead letter queue nothing is started.
pub proof fn law_no_dead_letters(a: &mut App, r: Option<Launch>)
    requires
        old(a).wf(),
        call_ensures(App::handoff_dlq, (a,), r),
        old(a).browser().list().focused() is Some,
        old(a).browser().list().focused()->0.dead_letter_config is None,
    ensures
        r is None,
        final(a).status@ == "no DLQ configured on this function"@,
{
    assert(final(a).browser().status == final(a).status@);
}

/// The variables of a function are counted.
pub proof fn law_variables_are_counted(e: &EnvironmentResponse, n: usize)
    requires
        call_ensures(EnvironmentResponse::var_count, (e,), n),
    ensures
        n == e.variables@.dom().len(),
{
}

/// The row of a function has its name and what it runs on.
pub proof fn law_row_of_a_function(f: Seq<Function>, selected: int, i: int)
    requires
        0 <= i < f.len(),
    ensures
        ({
            let r = ui::function_row(f, selected, i);
            &&& r.len() == 1
            &&& f[i].runtime is Some ==> text::has_suffix(r[0].0, f[i].runtime->0@)
            &&& f[i].runtime is None ==> text::has_suffix(r[0].0, "(image)"@)
            &&& f[i].function_name@.len() <= 32 ==> text::has_part(r[0].0, f[i].function_name@)
        }),
{
    tabs::law_row_of_a_list(
        f[i].function_name@,
        32,
        ui::or_else(f[i].runtime, "(image)"@),
        screen::colored(Color::Gray),
    );
}

/// The details of a function begin with its name, what it runs on and its limits.
pub proof fn law_details_of_a_function(f: &Function, r: Vec<Line>)
    requires
        call_ensures(ui::draw_detail, (Some(f),), r),
        f.runtime is Some,
        f.handler is Some,
        f.memory_size is Some,
        f.timeout is Some,
        f.code_size is Some,
    ensures
        ({
            let d = screen::drawn(r@);
            &&& d.len() >= 9
            &&& d[0] == tabs::detail_row("Name"@, 13, f.function_name@)
            &&& d[1] == tabs::detail_row("Runtime"@, 13, f.runtime->0@)
            &&& d[2] == tabs::detail_row("Handler"@, 13, f.handler->0@)
            &&& d[3] == tabs::detail_row("Memory"@, 13, numeral::decimal(f.memory_size->0 as nat) + " MB"@)
            &&& d[4] == tabs::detail_row("Timeout"@, 13, numeral::decimal(f.timeout->0 as nat) + "s"@)
            &&& d[5] == tabs::detail_row("Code size"@, 13, numeral::byte_count(f.code_size->0 as nat))
        }),
{
}

/// A function with no reserved runs is throttled.
pub proof fn law_reserved_runs(n: u32)
    ensures
        ui::reserved_text(Some(0)) == Some("0 (throttled)"@),
        n > 0 ==> ui::reserved_text(Some(n)) == Some(numeral::decimal(n as nat)),
        ui::reserved_text(None) is None,
{
}

/// What the keys do.
pub proof fn law_keys(ctrl: bool, a: &App, y: Option<Action>, l: Option<Action>, d: Option<Action>)
    requires
        a.wf(),
        call_ensures(keys::handle, (Key::Char('y'), ctrl, a), y),
        call_ensures(keys::handle, (Key::Char('l'), ctrl, a), l),
        call_ensures(keys::handle, (Key::Char('L'), ctrl, a), d),
    ensures
        y == Some(Action::YankArn),
        l == Some(Action::TailLogs),
        d == Some(Action::HandoffDlq),
{
}

/// Moving takes the cursor that far, but not out of the list, and leaves the list and
/// the tab alone.
pub proof fn law_moving_the_cursor(a: &mut App, delta: isize)
    requires
        old(a).wf(),
        call_ensures(App::move_selection, (a, delta), ()),
    ensures
        ({
            let l = old(a).browser().list();
            let r = final(a).browser().list();
            &&& final(a).browser().active_tab == old(a).browser().active_tab
            &&& r.items == l.items
            &&& 0 <= l.selected + delta < l.items.len() ==> r.selected == l.selected + delta
            &&& l.items.len() > 0 && l.selected + delta < 0 ==> r.selected == 0
            &&& l.items.len() > 0 && l.selected + delta >= l.items.len() ==> r.selected == l.items.len() - 1
        }),
{
}

/// A tab that is chosen is shown; a number behind the last tab changes nothing.
pub proof fn law_choosing_a_tab(a: &mut App, i: usize, r: Option<Fetch>)
    requires
        old(a).wf(),
        call_ensures(App::switch_tab, (a, i), r),
    ensures
        i < old(a).tabs@.len() ==> final(a).active_tab == i,
        i >= old(a).tabs@.len() ==> final(a).active_tab == old(a).active_tab && r is None,
        i < old(a).tabs@.len() ==> (r is Some <==> old(a).tabs@[i as int].data@.items.len() == 0
            && old(a).tabs@[i as int].data@.last_error is None),
{
    assert(final(a).browser().active_tab == final(a).active_tab);
    if i < old(a).tabs@.len() {
        assert(old(a).browser().tabs[i as int].data == old(a).tabs@[i as int].data@);
    }
}

/// A load that is begun is shown as such, and nothing is lost.
pub proof fn law_begun_load(a: &mut App, r: Fetch)
    requires
        old(a).wf(),
        call_ensures(App::refresh_active, (a,), r),
    ensures
        final(a).browser().list().loading,
        final(a).browser().list().items == old(a).browser().list().items,
        final(a).status@ == "loading "@ + old(a).browser().active().name + "…"@,
{
    assert(final(a).browser().status == final(a).status@);
}

/// What was loaded takes the place of the list; an error is told and keeps the list.
pub proof fn law_ended_load(a: &mut App, items: Vec<Function>, b: &mut App, e: String, now: u64)
    requires
        old(a).wf(),
        old(b).wf(),
        call_ensures(App::refresh_done, (a, Ok::<Vec<Function>, String>(items), now), ()),
        call_ensures(App::refresh_done, (b, Err::<Vec<Function>, String>(e), now), ()),
    ensures
        final(a).browser().list().items == items@,
        final(a).browser().list().last_loaded == Some(now),
        !final(a).browser().list().loading,
        final(a).browser().list().last_error is None,
        final(a).status@ == old(a).browser().active().name + ": "@ + numeral::decimal(items@.len()) + " "@
            + app::count_label(old(a).browser().active().spec@),
        final(b).browser().list().items == old(b).browser().list().items,
        !final(b).browser().list().loading,
        final(b).browser().list().last_error == Some(e@),
        final(b).status@ == "error: "@ + e@,
{
    assert(final(a).browser().status == final(a).status@);
    assert(final(b).browser().status == final(b).status@);
}

/// The list is loaded again by itself once it is as old as the interval says, unless the
/// interval is nothing or a load is under way.
pub proof fn law_loading_again(a: &mut App, now: u64, r: Option<Fetch>)
    requires
        old(a).wf(),
        call_ensures(App::tick, (a, now), r),
    ensures
        ({
            let l = old(a).browser().list();
            let every = old(a).cfg.refresh_interval_secs;
            &&& every == 0 || l.loading ==> r is None
            &&& every > 0 && !l.loading && l.last_loaded is None ==> r is Some
            &&& every > 0 && !l.loading && l.last_loaded is Some && now >= l.last_loaded->0 ==> (r is Some <==> now
                - l.last_loaded->0 >= 1000 * every)
            &&& final(a).browser().list().items == l.items
        }),
{
    let l = old(a).browser().list();
    if l.last_loaded is Some && now >= l.last_loaded->0 {
        let d = now - l.last_loaded->0;
        assert(d / 1000 >= old(a).cfg.refresh_interval_secs <==> d >= 1000 * old(a).cfg.refresh_interval_secs);
    }
}

proof fn lemma_tabs_error(t: Seq<Tab>, region: Option<Seq<char>>, n: int)
    requires
        0 <= n <= t.len(),
    ensures
        app::tabs_error(t, region, n) is None <==> forall|i: int|
            0 <= i < n ==> (#[trigger] app::resolved(t[i], region)) is Ok,
    decreases n,
{
    if n > 0 {
        lemma_tabs_error(t, region, n - 1);
        if app::tabs_error(t, region, n) is None {
            assert forall|i: int| 0 <= i < n implies (#[trigger] app::resolved(t[i], region)) is Ok by {
                if i == n - 1 {
                    assert(app::resolved(t[n - 1], region) is Ok);
                }
            }
        } else if app::tabs_error(t, region, n - 1) is None {
            assert(app::resolved(t[n - 1], region) is Err);
        }
    }
}

/// A browser begins with the first of its tabs, each under its name and empty; it does
/// not begin where one of them is refused.
pub proof fn law_fresh_browser(cfg: Config, r: Result<App, String>, i: int)
    requires
        cfg.tabs@.len() > 0,
        call_ensures(App::new, (cfg,), r),
    ensures
        r is Ok <==> forall|j: int|
            0 <= j < cfg.tabs@.len() ==> (#[trigger] app::resolved(cfg.tabs@[j], text::opt_view(cfg.region))) is Ok,
        r is Ok ==> r->Ok_0.active_tab == 0 && r->Ok_0.tabs@.len() == cfg.tabs@.len() && r->Ok_0.status@.len() == 0,
        r is Ok && 0 <= i < cfg.tabs@.len() ==> r->Ok_0.tabs@[i].name@ == cfg.tabs@[i].name@
            && r->Ok_0.tabs@[i].data@.items.len() == 0 && r->Ok_0.tabs@[i].data@.last_loaded is None
            && !r->Ok_0.tabs@[i].data@.loading,
{
    lemma_tabs_error(cfg.tabs@, text::opt_view(cfg.region), cfg.tabs@.len() as int);
    if r is Ok && 0 <= i < cfg.tabs@.len() {
        assert(app::fresh_tab(r->Ok_0.tabs@[i], cfg.tabs@[i], text::opt_view(cfg.region)));
    }
}

/// It is told which page was opened, or why none was.
pub proof fn law_opened_page_is_told(a: &mut App, url: &str, ok: &Result<(), String>, b: &mut App, e: String, bad: &Result<(), String>)
    requires
        *ok == Ok::<(), String>(()),
        *bad == Err::<(), String>(e),
        call_ensures(App::opened, (a, url, ok), ()),
        call_ensures(App::opened, (b, url, bad), ()),
    ensures
        final(a).status@ == "opened "@ + url@,
        final(b).status@ == "open failed: "@ + e@,
        final(a).active_tab == old(a).active_tab,
{
    assert(final(a).browser().status == final(a).status@);
    assert(final(b).browser().status == final(b).status@);
    assert(final(a).browser().active_tab == final(a).active_tab);
    assert(old(a).browser().active_tab == old(a).active_tab);
}

/// In place of a list stands its error; a list that fits is drawn row by row.
pub proof fn law_list_is_drawn(t: &TabState, height: u16, r: Pane, i: int)
    requires
        call_ensures(ui::draw_list, (t, height), r),
    ensures
        t.data@.last_error is Some ==> screen::drawn(r.lines@) == seq![
            seq![("error: "@ + t.data@.last_error->0, screen::colored(Color::Red))],
        ],
        t.data@.last_error is None && t.data@.items.len() == 0 && t.data@.loading ==> screen::drawn(r.lines@)[0][0].0
            == "(loading…)"@,
        t.data@.last_error is None && 0 < t.data@.items.len() <= height - 2 && 0 <= t.data@.selected
            < t.data@.items.len() ==> screen::drawn(r.lines@).len() == t.data@.items.len() && (0 <= i
            < t.data@.items.len() ==> screen::drawn(r.lines@)[i] == ui::function_row(
            t.data@.items,
            t.data@.selected,
            i,
        )),
{
}

proof fn lemma_first_error(t: Seq<Tab>, n: int)
    requires
        0 <= n <= t.len(),
    ensures
        config::first_error(t, n) is None <==> forall|i: int|
            0 <= i < n ==> (#[trigger] config::tab_error(t[i], i)) is None,
    decreases n,
{
    if n > 0 {
        lemma_first_error(t, n - 1);
        if config::first_error(t, n) is None {
            assert forall|i: int| 0 <= i < n implies (#[trigger] config::tab_error(t[i], i)) is None by {
                if i == n - 1 {
                    assert(config::tab_error(t[n - 1], n - 1) is None);
                }
            }
        } else if config::first_error(t, n - 1) is None {
            assert(config::tab_error(t[n - 1], n - 1) is Some);
        }
    }
}

/// Settings are good where there is a tab and each of them is good.
pub proof fn law_good_settings(c: &Config, r: Result<(), String>)
    requires
        call_ensures(Config::validate, (c,), r),
    ensures
        r is Ok <==> c.tabs@.len() > 0 && forall|i: int|
            0 <= i < c.tabs@.len() ==> (#[trigger] config::tab_error(c.tabs@[i], i)) is None,
        c.tabs@.len() == 0 ==> r is Err && r->Err_0@ == "config: at least one [[tabs]] entry required"@,
{
    lemma_first_error(c.tabs@, c.tabs@.len() as int);
}

/// A tab is good where it lists all functions, or names those that it watches.
pub proof fn law_good_tabs(t: Tab, i: int)
    ensures
        t.kind@ == "all"@ ==> config::tab_error(t, i) is None,
        t.kind@ == "watched"@ ==> (config::tab_error(t, i) is None <==> t.watched@.len() > 0),
        t.kind@ != "all"@ && t.kind@ != "watched"@ ==> config::tab_error(t, i) is Some,
{
    reveal_strlit("all");
    reveal_strlit("watched");
    assert("all"@[0] == 'a' && "watched"@[0] == 'w');
}

/// It is told what was copied, or why nothing was.
pub proof fn law_copy_is_told(
    a: &mut App,
    x: &str,
    ok: &Result<(), String>,
    b: &mut App,
    e: String,
    bad: &Result<(), String>,
)
    requires
        *ok == Ok::<(), String>(()),
        *bad == Err::<(), String>(e),
        call_ensures(App::arn_copied, (a, x, ok), ()),
        call_ensures(App::arn_copied, (b, x, bad), ()),
    ensures
        final(a).status@ == "copied ARN ("@ + numeral::decimal(vstd::utf8::encode_utf8(x@).len()) + " chars)"@,
        final(b).status@ == "copy failed: "@ + e@,
{
    assert(final(a).browser().status == final(a).status@);
    assert(final(b).browser().status == final(b).status@);
}

/// What failed is told with what the command wrote.
pub proof fn law_failure_of_list_functions(ran: &Ran, e: String, r: Option<String>)
    requires
        call_ensures(lambda::list_functions_error, (ran,), r),
    ensures
        r is None <==> ran is Done,
        *ran == Ran::Failed(e) ==> r is Some && r->0@ == "aws lambda list-functions failed: "@ + text::trimmed(e@),
        *ran == Ran::NotStarted(e) ==> r is Some && r->0@ == "spawn `aws lambda list-functions`"@,
{
}

/// What failed is told with what the command wrote.
pub proof fn law_failure_of_get_function(name: &str, ran: &Ran, e: String, r: Option<String>)
    requires
        call_ensures(lambda::get_function_error, (name, ran), r),
    ensures
        r is None <==> ran is Done,
        *ran == Ran::Failed(e) ==> r is Some && r->0@ == "aws lambda get-function-configuration failed for "@ + name@ + ": "@ + text::trimmed(e@),
        *ran == Ran::NotStarted(e) ==> r is Some && r->0@ == "spawn `aws lambda get-function-configuration` for "@ + name@,
{
}

/// Why a tab is refused, with its name.
pub proof fn law_refused_tabs(t: &Tab, region: Option<&str>, r: Result<TabSpec, String>)
    requires
        call_ensures(TabSpec::resolve, (t, region), r),
    ensures
        t.kind@ != "all"@ && t.kind@ != "watched"@ ==> r is Err && r->Err_0@ == "tab `"@ + t.name@ + "`: unknown kind "@ + text::quoted(
            t.kind@,
        ),
        t.kind@ == "watched"@ && t.watched@.len() == 0 ==> r is Err && r->Err_0@ == "tab `"@ + t.name@
            + "`: kind=\"watched\" requires `watched`"@,
{
    reveal_strlit("all");
    reveal_strlit("watched");
    assert("all"@[0] == 'a' && "watched"@[0] == 'w');
    text::law_trimmed_text_stays(Seq::empty());
    reveal_strlit("");
    assert(text::trimmed(""@) =~= Seq::<char>::empty());
}

proof fn lemma_refused_first(t: Seq<Tab>, region: Option<Seq<char>>, n: int, i: int)
    requires
        0 <= i < n <= t.len(),
        forall|j: int| 0 <= j < i ==> (#[trigger] app::resolved(t[j], region)) is Ok,
        app::resolved(t[i], region) is Err,
    ensures
        app::tabs_error(t, region, n) == Some(app::resolved(t[i], region)->Err_0),
    decreases n,
{
    if n - 1 > i {
        lemma_refused_first(t, region, n - 1, i);
    } else {
        lemma_tabs_error(t, region, i);
    }
}

/// Of several refused tabs the first is told.
pub proof fn law_first_refused_tab_is_told(cfg: Config, r: Result<App, String>, i: int)
    requires
        0 <= i < cfg.tabs@.len(),
        call_ensures(App::new, (cfg,), r),
        forall|j: int| 0 <= j < i ==> (#[trigger] app::resolved(cfg.tabs@[j], text::opt_view(cfg.region))) is Ok,
        app::resolved(cfg.tabs@[i], text::opt_view(cfg.region)) is Err,
    ensures
        r is Err,
        r->Err_0@ == app::resolved(cfg.tabs@[i], text::opt_view(cfg.region))->Err_0,
{
    lemma_refused_first(cfg.tabs@, text::opt_view(cfg.region), cfg.tabs@.len() as int, i);
}

/// The details of a function that has them: architectures, package, change, role,
/// reserved runs, tracing and dead letters.
pub proof fn law_more_details_of_a_function(f: &Function, n: u32, r: Vec<Line>)
    requires
        call_ensures(ui::draw_detail, (Some(f),), r),
        f.architectures@.len() > 0,
        f.package_type is Some,
        f.last_modified is Some,
        f.role@.len() > 0,
        f.environment is None,
        f.reserved_concurrent_executions == Some(n),
        n > 0,
        f.tracing_config is Some && f.tracing_config->0.mode is Some,
        f.dead_letter_config is Some && f.dead_letter_config->0.target_arn is Some
            && f.dead_letter_config->0.target_arn->0@.len() > 0,
        f.description is None,
    ensures
        ({
            let d = screen::drawn(r@);
            &&& d.len() == 16
            &&& d[6] == tabs::detail_row("Arch"@, 13, text::joined(text::views(f.architectures@), ", "@))
            &&& d[7] == tabs::detail_row("Package"@, 13, f.package_type->0@)
            &&& d[8] == tabs::detail_row("Modified"@, 13, f.last_modified->0@)
            &&& d[9] == tabs::detail_row("Role"@, 13, text::after_last(f.role@, '/'))
            &&& d[10] == tabs::detail_row("Reserved concur"@, 13, numeral::decimal(n as nat))
            &&& d[11] == tabs::detail_row("Tracing"@, 13, f.tracing_config->0.mode->0@)
            &&& d[12] == tabs::detail_row(
                "DLQ"@,
                13,
                text::after_last(f.dead_letter_config->0.target_arn->0@, '/'),
            )
            &&& d[15][0].0 == " "@ + f.function_arn@
        }),
{
}

/// What the settings say where nothing is set.
pub proof fn law_defaults(n: u64, k: String)
    requires
        call_ensures(config::default_refresh, (), n),
        call_ensures(config::default_kind, (), k),
    ensures
        n == 60,
        k@ == "all"@,
{
}

/// The variables of a function are counted, and where they could not be read that is
/// told.
pub proof fn law_variables_are_told(e: EnvironmentResponse)
    ensures
        e.variables@.dom().len() > 0 && e.error is None ==> ui::environment_lines(Some(e)) =~= seq![
            tabs::detail_row("Env vars"@, 13, numeral::decimal(e.variables@.dom().len())),
        ],
        e.variables@.dom().len() == 0 && e.error is None ==> ui::environment_lines(Some(e)).len() == 0,
        e.variables@.dom().len() == 0 && e.error is Some && e.error->0.error_code is Some && e.error->0.message is Some
            ==> ui::environment_lines(Some(e)) =~= seq![
            tabs::detail_row("Env error"@, 13, e.error->0.message->0@),
        ],
{
}

} // verus!
