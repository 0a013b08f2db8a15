//! What holds of the logs browser: what is followed, what becomes of the lines that
//! arrive, how the log is scrolled, and what is drawn.

use vstd::prelude::*;

use crate::cloudwatch_logs::app;
use crate::cloudwatch_logs::app::{App, Batch, TabState, TabSpec, TabV};
use crate::cloudwatch_logs::config;
use crate::cloudwatch_logs::config::{Config, Tab};
use crate::cloudwatch_logs::keys;
use crate::cloudwatch_logs::keys::Action;
use crate::cloudwatch_logs::log_tail;
use crate::cloudwatch_logs::log_tail::{LineSeverity, LogTailEvent, LogTailPane, PaneV};
use crate::cloudwatch_logs::ui;
use crate::cloudwatch_logs::ui::LogsPane;
use crate::keys::Key;
use crate::numeral;
use crate::screen::Color;
use crate::text;

verus! {

/// The command line that follows a log: the group, and then the stream, the filter and
/// the region, each where there is one. The log begins empty and is followed.
pub proof fn law_following_a_log(
    group: String,
    stream: String,
    filter: String,
    region: String,
    r: (LogTailPane, Vec<String>),
    s: (LogTailPane, Vec<String>),
)
    requires
        call_ensures(LogTailPane::spawn_with_filter, (group, Some(stream), Some(filter), Some(region)), r),
        call_ensures(LogTailPane::spawn_with_filter, (group, None, None, None), s),
    ensures
        text::views(r.1@) =~= seq![
            "logs"@,
            "tail"@,
            group@,
            "--follow"@,
            "--format"@,
            "short"@,
            "--log-stream-names"@,
            stream@,
            "--filter-pattern"@,
            filter@,
            "--region"@,
            region@,
        ],
        text::views(s.1@) =~= seq!["logs"@, "tail"@, group@, "--follow"@, "--format"@, "short"@],
        r.0.log_group@ == group@,
        text::opt_view(r.0.log_stream) == Some(stream@),
        r.0.lines@.len() == 0,
        r.0.scroll == usize::MAX,
        r.0.capacity == 10_000,
{
    let v = r.0@;
    assert(v.log_group == r.0.log_group@);
    assert(v.lines.len() == r.0.lines@.len());
    assert(v.scroll == r.0.scroll);
    assert(v.capacity == r.0.capacity);
}

/// A line that is pushed joins the end of the log with its severity, and the oldest lines
/// leave once there are more than there is room for.
pub proof fn law_line_joins_the_log(p: &mut LogTailPane, line: String, i: int)
    requires
        call_ensures(LogTailPane::push_line, (p, line), ()),
        0 < old(p).capacity,
        old(p).lines@.len() <= old(p).capacity,
    ensures
        ({
            let n = old(p)@.lines.len();
            let r = final(p)@.lines;
            &&& n < old(p).capacity ==> r.len() == n + 1
            &&& n == old(p).capacity ==> r.len() == n
            &&& r[r.len() - 1].text == line@
            &&& r[r.len() - 1].severity == log_tail::severity(line@)
            &&& n < old(p).capacity && 0 <= i < n ==> r[i] == old(p)@.lines[i]
            &&& n == old(p).capacity && 0 <= i < n - 1 ==> r[i] == old(p)@.lines[i + 1]
            &&& final(p)@.log_group == old(p)@.log_group
            &&& old(p).scroll == usize::MAX ==> final(p).scroll == usize::MAX
        }),
{
    assert(final(p)@.scroll == final(p).scroll);
}

/// A line that arrives in a tab joins the end of its log, of which the newest five
/// thousand lines are kept.
pub proof fn law_line_arrives(t: TabV, p: PaneV, line: Seq<char>, i: int)
    requires
        t.pane == Some(p),
        p.lines.len() <= 5000,
    ensures
        ({
            let r = t.with_line(line).pane;
            &&& r is Some
            &&& p.lines.len() < 5000 ==> r->0.lines.len() == p.lines.len() + 1
            &&& p.lines.len() == 5000 ==> r->0.lines.len() == 5000
            &&& r->0.lines[r->0.lines.len() - 1].text == line
            &&& r->0.lines[r->0.lines.len() - 1].severity == log_tail::severity(line)
            &&& p.lines.len() < 5000 && 0 <= i < p.lines.len() ==> r->0.lines[i] == p.lines[i]
            &&& p.lines.len() == 5000 && 0 <= i < 4999 ==> r->0.lines[i] == p.lines[i + 1]
            &&& r->0.scroll == p.scroll
        }),
{
}

/// Lines arrive one behind the other; an error is told and ends the wait, and so does
/// the end of the command.
pub proof fn law_events_arrive(t: TabV, events: Seq<LogTailEvent>, e: LogTailEvent, status: Seq<char>)
    ensures
        ({
            let n = events.len() as int;
            let before = t.with_events(events, n);
            let after = t.with_events(events.push(e), n + 1);
            let told = app::status_after(status, events.push(e), n + 1);
            &&& e is Line ==> after == before.with_line(e->Line_0@) && told == app::status_after(status, events, n)
            &&& e is Failed ==> after.last_error == Some(e->Failed_0@) && !after.pending && after.pane == before.pane
                && told == "error: "@ + e->Failed_0@
            &&& e is Exited ==> !after.pending && after.pane == before.pane && after.last_error == before.last_error
                && told == app::status_after(status, events, n)
            &&& t.with_events(Seq::empty(), 0) == t
        }),
{
    let n = events.len() as int;
    lemma_events_before(t, events, e, n);
    lemma_status_before(status, events, e, n);
}

proof fn lemma_events_before(t: TabV, events: Seq<LogTailEvent>, e: LogTailEvent, n: int)
    requires
        0 <= n <= events.len(),
    ensures
        t.with_events(events.push(e), n) == t.with_events(events, n),
    decreases n,
{
    if n > 0 {
        lemma_events_before(t, events, e, n - 1);
        assert(events.push(e)[n - 1] == events[n - 1]);
    }
}

proof fn lemma_status_before(status: Seq<char>, events: Seq<LogTailEvent>, e: LogTailEvent, n: int)
    requires
        0 <= n <= events.len(),
    ensures
        app::status_after(status, events.push(e), n) == app::status_after(status, events, n),
    decreases n,
{
    if n > 0 {
        lemma_status_before(status, events, e, n - 1);
        assert(events.push(e)[n - 1] == events[n - 1]);
    }
}

/// What arrives for a tab reaches that tab, and only while it waits.
pub proof fn law_batches_reach_their_tabs(a: &mut App, batches: Vec<Batch>, i: int, r: bool)
    requires
        call_ensures(App::drain, (a, batches), r),
        0 <= i < old(a)@.tabs.len(),
        i < batches@.len(),
    ensures
        ({
            let t = old(a)@.tabs[i];
            let u = final(a)@.tabs[i];
            let e = batches@[i].events@;
            &&& final(a)@.tabs.len() == old(a)@.tabs.len()
            &&& !t.pending ==> u == t
            &&& t.pending ==> u.pane == t.with_events(e, e.len() as int).pane && u.last_error == t.with_events(
                e,
                e.len() as int,
            ).last_error
            &&& batches@[i].closed ==> !u.pending
            &&& final(a)@.active == old(a)@.active
        }),
{
}

/// Scrolling up goes that far up, from the last line where the log is followed, and
/// stops at the first line; scrolling down goes that far down, and past the last line
/// the log is followed again.
pub proof fn law_scrolling_a_log(a: &mut App, p: PaneV, delta: isize)
    requires
        old(a)@.valid(),
        call_ensures(App::move_selection, (a, delta), ()),
        old(a)@.tab().pane == Some(p),
        p.lines.len() > 0,
        p.scroll == usize::MAX || 0 <= p.scroll < p.lines.len(),
        p.lines.len() < usize::MAX,
    ensures
        ({
            let from = if p.scroll == usize::MAX {
                p.lines.len() - 1
            } else {
                p.scroll
            };
            let r = final(a)@.tab().pane;
            &&& r is Some && r->0.lines == p.lines
            &&& delta < 0 && from + delta >= 0 ==> r->0.scroll == from + delta
            &&& delta < 0 && from + delta < 0 ==> r->0.scroll == 0
            &&& delta >= 0 && p.scroll != usize::MAX && p.scroll + delta < p.lines.len() ==> r->0.scroll == p.scroll
                + delta
            &&& delta >= 0 && from + delta >= p.lines.len() ==> r->0.scroll == usize::MAX
        }),
{
}

/// The line that is copied is the one at the cursor: the last one while the log is
/// followed.
pub proof fn law_line_that_is_copied(a: &mut App, p: PaneV, r: Option<String>)
    requires
        old(a)@.valid(),
        call_ensures(App::yank_focused_line, (a,), r),
        old(a)@.tab().pane == Some(p),
    ensures
        p.scroll == usize::MAX && 0 < p.lines.len() < usize::MAX ==> r is Some && r->0@ == p.lines[p.lines.len() - 1].text,
        0 <= p.scroll < p.lines.len() && p.scroll < usize::MAX ==> r is Some && r->0@ == p.lines[p.scroll].text,
        p.lines.len() == 0 ==> r is None,
{
}

/// A tab that is chosen is shown, and followed where it is not yet.
pub proof fn law_choosing_a_tab(a: &mut App, i: usize, r: Option<Vec<String>>)
    requires
        call_ensures(App::switch_tab, (a, i), r),
    ensures
        i < old(a)@.tabs.len() ==> final(a)@.active == i,
        i >= old(a)@.tabs.len() ==> final(a)@ == old(a)@ && r is None,
        i < old(a)@.tabs.len() && old(a)@.tabs[i as int].pane is Some ==> r is None,
        i < old(a)@.tabs.len() && old(a)@.tabs[i as int].pane is None ==> r is Some && text::views(r->0@).len() >= 6
            && text::views(r->0@)[2] == old(a)@.tabs[i as int].spec.log_group && final(a)@.status == "starting "@
            + old(a)@.tabs[i as int].name + "…"@,
{
}

/// A log that could be followed begins empty; an error is told.
pub proof fn law_log_is_followed(a: &mut App, b: &mut App, e: String)
    requires
        old(a)@.valid(),
        old(b)@.valid(),
        call_ensures(App::tailed, (a, Ok::<(), String>(())), ()),
        call_ensures(App::tailed, (b, Err::<(), String>(e)), ()),
    ensures
        final(a)@.tab().pane is Some && final(a)@.tab().pane->0.lines.len() == 0,
        final(a)@.tab().pending,
        final(a)@.tab().last_error is None,
        final(b)@.tab().last_error == Some(e@),
        final(b)@.tab().pane == old(b)@.tab().pane,
        final(b)@.status == "error: "@ + e@,
{
}

/// A byte of an address: a letter, a digit and four signs stand for themselves, a slash
/// is written as the console wants it, and any other byte by its two hexadecimal digits.
pub proof fn law_bytes_of_an_address(s: Seq<u8>, b: u8)
    ensures
        app::encoded_bytes(Seq::empty()) == Seq::<char>::empty(),
        app::encoded_bytes(s.push(b)) == app::encoded_bytes(s) + app::encoded_byte(b),
        48 <= b <= 57 || 65 <= b <= 90 || 97 <= b <= 122 || b == 45 || b == 46 || b == 95 || b == 126
            ==> app::encoded_byte(b) == seq![b as char],
        b == 47 ==> app::encoded_byte(b) == "$252F"@,
        !(48 <= b <= 57 || 65 <= b <= 90 || 97 <= b <= 122 || b == 45 || b == 46 || b == 95 || b == 126 || b == 47)
            ==> app::encoded_byte(b) == "%"@ + numeral::hex_byte(b),
{
    assert(s.push(b).drop_last() =~= s);
}

/// A text in an address is written byte by byte.
pub proof fn law_text_in_an_address(s: &str, r: String)
    requires
        call_ensures(app::urlencode, (s,), r),
    ensures
        r@ == app::encoded_bytes(vstd::utf8::encode_utf8(s@)),
{
}

/// The page that is opened is that of the log group, or of its stream where one is
/// named.
pub proof fn law_page_that_is_opened(a: &App, region: Seq<char>, r: String)
    requires
        a@.valid(),
        call_ensures(App::open_console, (a,), r),
        a@.tab().spec.region == Some(region),
    ensures
        ({
            let s = a@.tab().spec;
            let group = "https://"@ + region + ".console.aws.amazon.com/cloudwatch/home?region="@ + region
                + "#logsV2:log-groups/log-group/"@ + app::encoded_bytes(vstd::utf8::encode_utf8(s.log_group));
            &&& s.log_stream is None ==> r@ == group
            &&& s.log_stream is Some ==> r@ == group + "/log-events/"@ + app::encoded_bytes(
                vstd::utf8::encode_utf8(s.log_stream->0),
            )
        }),
{
}

/// A tab follows the group that it names; without one it is refused.
pub proof fn law_tabs_of_the_settings(t: &Tab, region: Option<&str>, r: Result<TabSpec, String>)
    requires
        call_ensures(TabSpec::resolve, (t, region), r),
    ensures
        r is Err <==> text::trimmed(t.log_group@).len() == 0,
        r is Ok ==> r->Ok_0.log_group@ == t.log_group@ && text::opt_view(r->Ok_0.log_stream) == text::opt_view(
            t.log_stream,
        ) && text::opt_view(r->Ok_0.filter) == text::opt_view(t.filter),
        r is Ok && t.region is Some ==> text::opt_view(r->Ok_0.region) == Some(t.region->0@),
        r is Ok && t.region is None ==> text::opt_view(r->Ok_0.region) == text::opt_str_view(region),
{
    if r is Ok {
        let v = r->Ok_0@;
        assert(v.log_group == r->Ok_0.log_group@);
    }
}

proof fn lemma_first_error(t: Seq<Tab>, n: int)
    requires
        0 <= n <= t.len(),
    ensures
        config::first_error(t, n) is None <==> forall|i: int|
            0 <= i < n ==> text::trimmed((#[trigger] t[i]).log_group@).len() > 0,
    decreases n,
{
    if n > 0 {
        lemma_first_error(t, n - 1);
        if config::first_error(t, n) is None {
            assert forall|i: int| 0 <= i < n implies text::trimmed((#[trigger] t[i]).log_group@).len() > 0 by {
                if i == n - 1 {
                    assert(!config::lacks_group(t[n - 1]));
                }
            }
        } else if config::first_error(t, n - 1) is None {
            assert(config::lacks_group(t[n - 1]));
        }
    }
}

/// Settings are good where there is a tab and each names a group.
pub proof fn law_good_settings(c: &Config, r: Result<(), String>)
    requires
        call_ensures(Config::validate, (c,), r),
    ensures
        r is Ok <==> c.tabs@.len() > 0 && forall|i: int|
            0 <= i < c.tabs@.len() ==> text::trimmed((#[trigger] c.tabs@[i]).log_group@).len() > 0,
        c.tabs@.len() == 0 ==> r is Err && r->Err_0@ == "config: at least one [[tabs]] entry required"@,
{
    lemma_first_error(c.tabs@, c.tabs@.len() as int);
}

/// One log group makes settings of one tab, named as wanted or by the end of the group.
pub proof fn law_settings_of_one_group(
    group: String,
    name: Option<String>,
    filter: Option<String>,
    region: Option<String>,
    r: Config,
)
    requires
        call_ensures(Config::one_off_tab, (group, name, filter, region), r),
    ensures
        r.tabs@.len() == 1,
        r.tabs@[0].log_group@ == group@,
        r.tabs@[0].filter == filter,
        r.region == region,
        name is Some ==> r.tabs@[0].name@ == name->0@,
        name is None && text::after_last(group@, '/').len() > 0 ==> r.tabs@[0].name@ == text::after_last(group@, '/'),
        name is None && text::after_last(group@, '/').len() == 0 ==> r.tabs@[0].name@ == group@,
{
}

/// What the command wrote to its error output is told, without the empty lines; where
/// nothing is left nothing failed.
pub proof fn law_complaints(lines: Seq<String>, x: String)
    ensures
        log_tail::complaint(Seq::empty()) == Seq::<char>::empty(),
        x@.len() == 0 ==> log_tail::complaint(lines.push(x)) == log_tail::complaint(lines),
        x@.len() > 0 ==> log_tail::complaint(lines.push(x)) == log_tail::complaint(lines) + x@ + "\n"@,
{
    assert(lines.push(x).drop_last() =~= lines);
}

/// Lines are coloured by their severity.
pub proof fn law_colours_of_lines()
    ensures
        ui::shade(LineSeverity::Error) == Color::Red,
        ui::shade(LineSeverity::Warn) == Color::Yellow,
        ui::shade(LineSeverity::Info) == Color::Cyan,
        ui::shade(LineSeverity::Debug) == Color::DarkGray,
        ui::shade(LineSeverity::Plain) == Color::Gray,
{
}

/// A log that is followed shows its last lines, in their order; one that is scrolled
/// shows the lines from the cursor on, as far as there are enough.
pub proof fn law_lines_that_are_shown(p: PaneV, rows: int, i: int)
    requires
        0 < rows,
        p.scroll == usize::MAX || 0 <= p.scroll,
    ensures
        ({
            let s = ui::shown_lines(p, rows);
            let n = p.lines.len() as int;
            &&& n <= rows ==> s.len() == n
            &&& n > rows ==> s.len() == rows
            &&& p.scroll == usize::MAX && n > rows && 0 <= i < rows ==> s[i][0].0 == p.lines[n - rows + i].text
            &&& n <= rows && 0 <= i < n ==> s[i][0].0 == p.lines[i].text && s[i][0].1.fg == ui::shade(
                p.lines[i].severity,
            )
            &&& p.scroll != usize::MAX && p.scroll + rows <= n && 0 <= i < rows ==> s[i][0].0 == p.lines[p.scroll
                + i].text
        }),
{
}

/// In place of a log stands its error, in red, or that it is being started.
pub proof fn law_instead_of_a_log(t: &TabState, height: u16, r: LogsPane)
    requires
        call_ensures(ui::draw_logs, (t, height), r),
    ensures
        t.data.last_error is Some ==> r@ is Message && r@->shade == Color::Red,
        t.data.last_error is Some && !text::has_part(t.data.last_error->0@, "ResourceNotFoundException"@)
            && !text::has_part(t.data.last_error->0@, "does not exist"@) ==> r@->text == "error: "@
            + t.data.last_error->0@,
        t.data.last_error is None && t.data.pane is None ==> r@ is Message && r@->text
            == "(spawning `aws logs tail`…)"@,
        t.data.last_error is None && t.data.pane is Some ==> r@ is Log && r@->lines == ui::shown_lines(
            t.data.pane->0@,
            if height > 2 {
                height - 2
            } else {
                0
            },
        ),
{
}

/// What the keys do.
pub proof fn law_keys(ctrl: bool, a: &App, y: Option<Action>, q: Option<Action>)
    requires
        a.active_tab < a.tabs@.len(),
        call_ensures(keys::handle, (Key::Char('y'), ctrl, a), y),
        call_ensures(keys::handle, (Key::Char('q'), ctrl, a), q),
    ensures
        y == Some(Action::YankLine),
        q == Some(Action::Common(crate::keys::Common::Quit)),
{
}

/// The label of a tab has its number and its name, and tells whether it is followed.
pub proof fn law_labels_of_tabs(a: &App, r: Vec<String>, i: int)
    requires
        call_ensures(ui::tab_labels, (a,), r),
        0 <= i < a.tabs@.len(),
    ensures
        r@.len() == a.tabs@.len(),
        a.tabs@[i].data.pane is Some ==> r@[i]@ == numeral::decimal((i + 1) as nat) + "."@ + a.tabs@[i].name@
            + " · tailing"@,
        a.tabs@[i].data.pane is None ==> r@[i]@ == numeral::decimal((i + 1) as nat) + "."@ + a.tabs@[i].name@,
{
    reveal_strlit("");
    assert(r@[i]@ == ui::tab_label(i, a.tabs@[i]@));
    let s = numeral::decimal((i + 1) as nat) + "."@ + a.tabs@[i].name@;
    assert(s + ""@ =~= s);
}

/// The browser begins with the first of its tabs and follows it; it does not begin where
/// one of them names no group.
pub proof fn law_fresh_browser(cfg: Config, r: Result<(App, Option<Vec<String>>), String>, i: int)
    requires
        cfg.tabs@.len() > 0,
        call_ensures(App::new, (cfg,), r),
    ensures
        r is Ok ==> ({
            let (a, args) = r->Ok_0;
            &&& a@.active == 0
            &&& a@.tabs.len() == cfg.tabs@.len()
            &&& 0 <= i < cfg.tabs@.len() ==> a@.tabs[i].name == cfg.tabs@[i].name@ && a@.tabs[i].pane is None
            &&& args is Some && text::views(args->0@).len() >= 6
            &&& a@.status == "starting "@ + cfg.tabs@[0].name@ + "…"@
        }),
        text::trimmed(cfg.tabs@[0].log_group@).len() == 0 ==> r is Err && r->Err_0@ == "tab `"@ + cfg.tabs@[0].name@
            + "`: log_group is required"@,
{
    if text::trimmed(cfg.tabs@[0].log_group@).len() == 0 {
        lemma_first_tab_refused(cfg.tabs@, text::opt_view(cfg.region), cfg.tabs@.len() as int);
    }
}

proof fn lemma_first_tab_refused(t: Seq<Tab>, region: Option<Seq<char>>, n: int)
    requires
        0 < n <= t.len(),
        text::trimmed(t[0].log_group@).len() == 0,
    ensures
        app::tabs_error(t, region, n) == Some("tab `"@ + t[0].name@ + "`: log_group is required"@),
    decreases n,
{
    if n > 1 {
        lemma_first_tab_refused(t, region, n - 1);
    } else {
        assert(app::tabs_error(t, region, 0) is None);
        assert(config::lacks_group(t[0]));
    }
}

/// What the command wrote to its error output, as it is given out.
pub proof fn law_complaint_given_out(lines: &Vec<String>, r: Option<LogTailEvent>, reason: &str, s: String)
    requires
        call_ensures(log_tail::complained, (lines,), r),
        call_ensures(log_tail::spawn_error, (reason,), s),
    ensures
        r is None <==> log_tail::complaint(lines@).len() == 0,
        r is Some ==> r->0 is Failed && r->0->Failed_0@ == log_tail::complaint(lines@),
        s@ == "spawn aws logs tail: "@ + reason@,
{
}

/// A log is not loaded again by itself where nothing is set.
pub proof fn law_defaults(n: u64)
    requires
        call_ensures(config::default_refresh, (), n),
    ensures
        n == 0,
{
}

/// Where a group is missing that is told with its name and its region.
pub proof fn law_missing_group(t: TabV, e: Seq<char>, region: Seq<char>)
    requires
        text::has_part(e, "ResourceNotFoundException"@) || text::has_part(e, "does not exist"@),
        t.spec.region == Some(region),
    ensures
        text::has_prefix(
            ui::error_text(t, e),
            "log group `"@ + t.spec.log_group + "` not found in region "@ + region,
        ),
{
    let head = "log group `"@ + t.spec.log_group + "` not found in region "@ + region;
    assert(ui::error_text(t, e).take(head.len() as int) =~= head);
}

} // verus!
