//! What holds of the projects browser: what is read of projects and builds, what the
//! keys do, and what is drawn.

use vstd::prelude::*;

use crate::codebuild::app;
use crate::codebuild::app::{App, AppV, Request, RequestV};
use crate::codebuild::codebuild;
use crate::codebuild::codebuild::{BuildStatus, CodeBuildRecord, ProjectDetail, RecentV, RecordV};
use crate::codebuild::config::Config;
use crate::codebuild::keys;
use crate::codebuild::ui;
use crate::command;
use crate::command::{Poll, Ran};
use crate::json;
use crate::json::{Json, JsonV};
use crate::keys::{Key, Mouse};
use crate::numeral;
use crate::order;
use crate::screen;
use crate::screen::{Color, Line, Style};
use crate::text;

verus! {

/// What is read of a build is what its reply says, member by member; the commit that
/// was built counts before what the build was asked to build.
pub proof fn law_build_as_replied(v: &Json, r: Option<CodeBuildRecord>)
    requires
        call_ensures(codebuild::parse_build, (v,), r),
    ensures
        r is Some <==> json::text_member(v@, "id"@) is Some,
        r is Some ==> r->0.id@ == json::text_member(v@, "id"@)->0,
        r is Some ==> text::opt_view(r->0.initiator) == json::text_member(v@, "initiator"@),
        r is Some && json::text_member(v@, "resolvedSourceVersion"@) is Some ==> text::opt_view(r->0.source_version)
            == json::text_member(v@, "resolvedSourceVersion"@),
        r is Some && json::text_member(v@, "resolvedSourceVersion"@) is None ==> text::opt_view(r->0.source_version)
            == json::text_member(v@, "sourceVersion"@),
        r is Some ==> text::opt_view(r->0.logs_group) == json::inner_text(v@, "logs"@, "groupName"@),
        r is Some ==> text::opt_view(r->0.logs_stream) == json::inner_text(v@, "logs"@, "streamName"@),
        r is Some ==> text::opt_view(r->0.logs_deep_link) == json::inner_text(v@, "logs"@, "deepLink"@),
        r is Some && json::count_member(v@, "buildNumber"@) is None ==> r->0.build_number == 0,
        r is Some ==> (r->0.status == BuildStatus::Succeeded <==> json::text_member(v@, "buildStatus"@) == Some(
            "SUCCEEDED"@,
        )),
        r is Some ==> (r->0.status == BuildStatus::Failed <==> json::text_member(v@, "buildStatus"@) == Some("FAILED"@)),
        r is Some ==> (r->0.status == BuildStatus::Stopped <==> json::text_member(v@, "buildStatus"@) == Some(
            "STOPPED"@,
        )),
{
    assert(codebuild::opt_record(r) == codebuild::record_in(v@));
    if r is Some {
        assert(codebuild::record_in(v@) == Some(r->0@));
        codebuild::law_build_ended_as_replied(v@);
    }
}

/// A build has the number that its reply gives.
pub proof fn law_number_of_a_build(v: JsonV, n: nat)
    requires
        codebuild::record_in(v) is Some,
        json::member(v, "buildNumber"@) == Some(JsonV::Number(numeral::decimal(n))),
        n <= u64::MAX,
    ensures
        codebuild::record_in(v)->0.build_number == n,
{
    json::law_values_are_read_as_they_are(v, "buildNumber"@, Seq::empty(), n, Seq::empty());
}

/// A build took the time from its start to its end. Without one of them, or where it
/// ended before it began, the time is not known.
pub proof fn law_time_of_a_build(v: JsonV, start: Seq<char>, end: Seq<char>)
    requires
        codebuild::record_in(v) is Some,
        json::text_member(v, "startTime"@) == Some(start),
        json::text_member(v, "endTime"@) == Some(end),
        codebuild::iso_ms(start) is Some,
        codebuild::iso_ms(end) is Some,
        -10_000_000_000_000_000 <= codebuild::iso_ms(start)->0 <= 10_000_000_000_000_000,
        -10_000_000_000_000_000 <= codebuild::iso_ms(end)->0 <= 10_000_000_000_000_000,
    ensures
        ({
            let b = codebuild::record_in(v)->0;
            let s = codebuild::iso_ms(start)->0;
            let e = codebuild::iso_ms(end)->0;
            &&& b.started_at_ms is Some && b.started_at_ms->0 == s
            &&& e >= s ==> b.duration_ms is Some && b.duration_ms->0 == e - s
            &&& e < s ==> b.duration_ms is None
        }),
{
}

proof fn lemma_padded_reads(n: nat)
    requires
        n < 100,
    ensures
        numeral::parsed_unsigned(numeral::decimal_padded(n, 2), u32::MAX as nat) == Some(n),
{
    numeral::law_two_digits(n);
    numeral::lemma_decimal_reads_back(n);
    numeral::law_digits_of_a_number(n);
    reveal_strlit("0");
    let d = numeral::decimal(n);
    let p = numeral::decimal_padded(n, 2);
    if n < 10 {
        assert(p =~= seq!['0', d[0]]);
        assert(p.drop_last() =~= seq!['0']);
        assert(seq!['0'].drop_last() =~= Seq::<char>::empty());
        reveal_with_fuel(numeral::digits_value, 3);
        assert(d.drop_last() =~= Seq::<char>::empty());
        assert(numeral::digits_value(p) == Some(n));
    } else {
        assert('0' <= d[0] <= '9');
    }
}

/// A point in time: year, month, day, hour, minute and second stand in the text in this
/// order, and `Z` leaves them as they are.
pub proof fn law_written_point_in_time(s: Seq<char>, y: nat, mo: nat, d: nat, h: nat, mi: nat, sec: nat)
    requires
        1000 <= y <= 9999,
        mo < 100,
        d < 100,
        h < 100,
        mi < 100,
        sec < 100,
        s.len() == 20,
        codebuild::ascii(s.subrange(0, 19)),
        s.subrange(0, 4) == numeral::decimal(y),
        s.subrange(5, 7) == numeral::decimal_padded(mo, 2),
        s.subrange(8, 10) == numeral::decimal_padded(d, 2),
        s.subrange(11, 13) == numeral::decimal_padded(h, 2),
        s.subrange(14, 16) == numeral::decimal_padded(mi, 2),
        s.subrange(17, 19) == numeral::decimal_padded(sec, 2),
        s[19] == 'Z',
    ensures
        codebuild::iso_ms(s) == Some(
            codebuild::civil_days(y as int, mo as int, d as int) * 86_400_000 + h * 3_600_000 + mi * 60_000 + sec
                * 1_000,
        ),
{
    lemma_padded_reads(mo);
    lemma_padded_reads(d);
    lemma_padded_reads(h);
    lemma_padded_reads(mi);
    lemma_padded_reads(sec);
    numeral::law_reading_keeps_the_bound(y, i64::MAX as nat);
    numeral::law_digits_of_a_number(y);
    let year = s.subrange(0, 4);
    assert('0' <= year[0] <= '9');
    assert(s[0] == year[0]);
    text::law_trimmed_text_stays(s);
    assert(s.skip(19)[0] == 'Z');
}

/// The thousandths of a second are read from up to three digits behind the point.
pub proof fn law_thousandths(a: nat, b: nat, c: nat)
    requires
        a < 10,
        b < 10,
        c < 10,
    ensures
        codebuild::millis_of(seq![numeral::digit(a as int)]) == a * 100,
        codebuild::millis_of(seq![numeral::digit(a as int), numeral::digit(b as int)]) == a * 100 + b * 10,
        codebuild::millis_of(seq![numeral::digit(a as int), numeral::digit(b as int), numeral::digit(c as int)]) == a * 100
            + b * 10 + c,
{
    let x = numeral::digit(a as int);
    let y = numeral::digit(b as int);
    let z = numeral::digit(c as int);
    assert(text::first_chars(seq![x], 3) == seq![x]);
    assert(text::first_chars(seq![x, y], 3) == seq![x, y]);
    assert(text::first_chars(seq![x, y, z], 3) =~= seq![x, y, z]);
    reveal_with_fuel(numeral::digits_value, 4);
    assert(seq![x].drop_last() =~= Seq::<char>::empty());
    assert(seq![x, y].drop_last() =~= seq![x]);
    assert(seq![x, y, z].drop_last() =~= seq![x, y]);
    assert(numeral::digit_value(x) == Some(a) && numeral::digit_value(y) == Some(b) && numeral::digit_value(z) == Some(c));
}

/// What is read of a project is what its reply says, member by member; without a log
/// group of its own it writes to the usual one.
pub proof fn law_project_as_replied(v: &Json, r: Option<ProjectDetail>)
    requires
        call_ensures(codebuild::parse_project, (v,), r),
    ensures
        r is Some <==> json::text_member(v@, "name"@) is Some,
        r is Some ==> r->0.name@ == json::text_member(v@, "name"@)->0,
        r is Some ==> r->0.arn@ == json::text_member_or(v@, "arn"@, ""@),
        r is Some ==> text::opt_view(r->0.source_type) == json::inner_text(v@, "source"@, "type"@),
        r is Some ==> text::opt_view(r->0.source_location) == json::inner_text(v@, "source"@, "location"@),
        r is Some ==> text::opt_view(r->0.buildspec) == json::inner_text(v@, "source"@, "buildspec"@),
        r is Some ==> text::opt_view(r->0.environment_image) == json::inner_text(v@, "environment"@, "image"@),
        r is Some ==> text::opt_view(r->0.compute_type) == json::inner_text(v@, "environment"@, "computeType"@),
        r is Some ==> text::opt_view(r->0.service_role) == json::text_member(v@, "serviceRole"@),
        r is Some && json::member(v@, "logsConfig"@) is None ==> text::opt_view(r->0.log_group) == Some(
            "/aws/codebuild/"@ + r->0.name@,
        ),
        r is Some && json::member(v@, "logsConfig"@) is Some && json::inner_text(
            json::member(v@, "logsConfig"@)->0,
            "cloudWatchLogs"@,
            "groupName"@,
        ) is Some ==> text::opt_view(r->0.log_group) == json::inner_text(
            json::member(v@, "logsConfig"@)->0,
            "cloudWatchLogs"@,
            "groupName"@,
        ),
{
    assert(codebuild::opt_project(r) == codebuild::project_in(v@));
    if r is Some {
        assert(codebuild::project_in(v@) == Some(r->0@));
    }
}

/// The newest builds are asked for by the project and a number, then by their ids, and
/// what is read of them comes with the newest in front.
pub proof fn law_recent_builds(project: Seq<char>, limit: nat, ids: Seq<Seq<char>>, ran: Ran, i: int, j: int)
    ensures
        codebuild::recent_request(RecentV::Ids { project, limit }) == seq![
            "codebuild"@,
            "list-builds-for-project"@,
            "--project-name"@,
            project,
            "--max-items"@,
            numeral::decimal(limit),
        ],
        codebuild::recent_request(RecentV::Builds { ids }) == seq!["codebuild"@, "batch-get-builds"@, "--ids"@] + ids,
        codebuild::recent_next(RecentV::Builds { ids }, ran) matches command::TurnV::End(Ok(s)) ==> (0 <= i < j < s.len()
            ==> codebuild::start_key(s[i]) >= codebuild::start_key(s[j])),
{
    let next = codebuild::recent_next(RecentV::Builds { ids }, ran);
    if next is End && next->End_0 is Ok {
        let s = next->End_0->Ok_0;
        let v = command::aws_reply("codebuild"@, ran)->Ok_0;
        let all = codebuild::records_in(json::array_member(v, "builds"@)->0);
        codebuild::law_newest_first(all);
        let less = |a: RecordV, b: RecordV| codebuild::start_key(a) > codebuild::start_key(b);
        order::law_sorted(all, less);
        assert(codebuild::newest_first(all) == order::sorted(all, less));
        if 0 <= i < j < s.len() {
            assert(!less(s[j], s[i]));
        }
    }
}

/// A build begins when it says, or at the beginning of time.
pub proof fn law_start_of_a_build(b: RecordV)
    ensures
        b.started_at_ms is Some ==> codebuild::start_key(b) == b.started_at_ms->0,
        b.started_at_ms is None ==> codebuild::start_key(b) == 0,
{
}

proof fn lemma_allowed(list: Seq<String>, filter: Seq<String>, s: String)
    requires
        filter.len() > 0,
    ensures
        app::allowed(list, filter).contains(s) <==> list.contains(s) && text::among(filter, s@),
    decreases list.len(),
{
    if list.len() > 0 {
        let t = list.drop_last();
        lemma_allowed(t, filter, s);
        let rest = app::allowed(t, filter);
        assert(list[list.len() - 1] == list.last());
        if t.contains(s) {
            let k = choose|k: int| 0 <= k < t.len() && t[k] == s;
            assert(list[k] == s);
        }
        if list.contains(s) && s != list.last() {
            let k = choose|k: int| 0 <= k < list.len() && list[k] == s;
            assert(t[k] == s);
        }
        if text::among(filter, list.last()@) {
            let a = rest.push(list.last());
            assert(a[rest.len() as int] == list.last());
            if rest.contains(s) {
                let k = choose|k: int| 0 <= k < rest.len() && rest[k] == s;
                assert(a[k] == s);
            }
            if a.contains(s) && s != list.last() {
                let k = choose|k: int| 0 <= k < a.len() && a[k] == s;
                assert(rest[k] == s);
            }
        }
    }
}

/// Where the settings name projects exactly those of the account are listed that they
/// name; where they name none all are.
pub proof fn law_named_projects_are_listed(list: Seq<String>, filter: Seq<String>, s: String)
    ensures
        filter.len() == 0 ==> app::allowed(list, filter) == list,
        filter.len() > 0 ==> (app::allowed(list, filter).contains(s) <==> list.contains(s) && exists|k: int|
            0 <= k < filter.len() && (#[trigger] filter[k])@ == s@),
{
    if filter.len() > 0 {
        lemma_allowed(list, filter, s);
    }
}

/// The projects that were asked for are listed, and their details and builds asked for;
/// an error is told and keeps the list.
pub proof fn law_projects_arrive(a: AppV, list: Vec<String>, e: String)
    requires
        a.pending_projects,
    ensures
        ({
            let s = a.on_projects(Poll::Ready(Ok(list)));
            let f = a.on_projects(Poll::Ready(Err(e)));
            let names = text::views(app::allowed(list@, a.cfg.projects@));
            &&& s.app.projects == app::allowed(list@, a.cfg.projects@)
            &&& !s.app.pending_projects && s.app.pending_details && s.app.pending_builds
            &&& s.requests == seq![
                RequestV::Details { names },
                RequestV::Builds { names, limit: a.cfg.recent_builds },
            ]
            &&& s.app.status == numeral::decimal(names.len()) + " projects"@
            &&& f.app.projects == a.projects && f.app.last_error == Some(e@) && f.requests.len() == 0
            &&& f.app.status == "list error: "@ + e@
        }),
{
}

/// A project is known by its name once it was read.
pub proof fn law_details_arrive(m: Map<Seq<char>, ProjectDetail>, details: Seq<ProjectDetail>, d: ProjectDetail)
    ensures
        app::with_details(m, details.push(d)).dom().contains(d.name@),
        app::with_details(m, details.push(d))[d.name@] == d,
        app::with_details(m, Seq::empty()) == m,
{
    assert(details.push(d).drop_last() =~= details);
}

/// The builds of a project are known by its name once they were read; an error changes
/// nothing.
pub proof fn law_builds_arrive(
    m: Map<Seq<char>, Vec<CodeBuildRecord>>,
    batch: Seq<(String, Result<Vec<CodeBuildRecord>, String>)>,
    name: String,
    builds: Vec<CodeBuildRecord>,
    e: String,
)
    ensures
        app::with_builds(m, batch.push((name, Ok(builds)))).dom().contains(name@),
        app::with_builds(m, batch.push((name, Ok(builds))))[name@] == builds,
        app::with_builds(m, batch.push((name, Err(e)))) == app::with_builds(m, batch),
{
    assert(batch.push((name, Ok::<Vec<CodeBuildRecord>, String>(builds))).drop_last() =~= batch);
    assert(batch.push((name, Err::<Vec<CodeBuildRecord>, String>(e))).drop_last() =~= batch);
}

/// A build is started for the selected project, unless one is being started; then its
/// builds are read anew.
pub proof fn law_starting_a_build(a: AppV, id: String, e: String)
    requires
        0 <= a.selected < a.projects.len(),
        a.pending_start is None,
    ensures
        ({
            let n = a.projects[a.selected]@;
            let b = a.start_build();
            let s = b.on_start(Poll::Ready(Ok(id)));
            let f = b.on_start(Poll::Ready(Err(e)));
            &&& a.start_request() == Some(RequestV::Start { name: n })
            &&& b.pending_start == Some(n) && b.start_request() is None
            &&& s.app.pending_start is None && s.requests == seq![
                RequestV::Refetch { name: n, limit: a.cfg.recent_builds },
            ]
            &&& s.app.status == "started "@ + n + " — build id "@ + id@
            &&& f.app.status == "start-build "@ + n + " failed: "@ + e@ && f.requests.len() == 0
            &&& f.app.pending_start is None
        }),
{
}

/// What the keys do.
pub proof fn law_keys(a: AppV, ctrl: bool)
    ensures
        keys::handled(a, Key::Char('q'), ctrl).0.should_quit,
        keys::handled(a, Key::Char('c'), true).0.should_quit,
        keys::handled(a, Key::Char('r'), ctrl).1 == Some(RequestV::Projects),
        keys::handled(a, Key::Down, ctrl).0 == a.moved(1),
        keys::handled(a, Key::Char('j'), ctrl).0 == a.moved(1),
        keys::handled(a, Key::Up, ctrl).0 == a.moved(-1),
        keys::handled(a, Key::Char('k'), ctrl).0 == a.moved(-1),
        keys::handled(a, Key::PageDown, ctrl).0 == a.moved(10),
        keys::handled(a, Key::PageUp, ctrl).0 == a.moved(-10),
        keys::handled(a, Key::Right, ctrl).0 == a.expand_selected(),
        keys::handled(a, Key::Char('l'), ctrl).0 == a.expand_selected(),
        keys::handled(a, Key::Left, ctrl).0 == a.collapse_selected(),
        keys::handled(a, Key::Char('h'), ctrl).0 == a.collapse_selected(),
        keys::handled(a, Key::Enter, ctrl).0 == a.toggled(a.selected),
        keys::handled(a, Key::Char(' '), ctrl).0 == a.toggled(a.selected),
        keys::handled(a, Key::Char('s'), ctrl).1 == a.start_request(),
        keys::handled(a, Key::Char('s'), ctrl).0 == a.start_build(),
        keys::handled(a, Key::Esc, ctrl) == (a, None::<RequestV>),
{
}

/// The cursor moves by rows and stops at the ends; to expand and to collapse touches
/// the project under it alone.
pub proof fn law_cursor(a: AppV, delta: int, other: Seq<char>)
    requires
        0 <= a.selected < a.projects.len(),
    ensures
        ({
            let n = a.projects[a.selected]@;
            &&& 0 <= a.selected + delta < a.projects.len() ==> a.moved(delta).selected == a.selected + delta
            &&& a.selected + delta < 0 ==> a.moved(delta).selected == 0
            &&& a.selected + delta >= a.projects.len() ==> a.moved(delta).selected == a.projects.len() - 1
            &&& a.expand_selected().expanded.contains(n)
            &&& !a.collapse_selected().expanded.contains(n)
            &&& a.toggled(a.selected).expanded.contains(n) != a.expanded.contains(n)
            &&& other != n ==> a.expand_selected().expanded.contains(other) == a.expanded.contains(other)
                && a.collapse_selected().expanded.contains(other) == a.expanded.contains(other) && a.toggled(
                a.selected,
            ).expanded.contains(other) == a.expanded.contains(other)
        }),
{
}

/// How a build ended is told by its colour.
pub proof fn law_colours_of_builds(s: BuildStatus)
    ensures
        ui::status_shade(s) == Color::Green <==> s == BuildStatus::Succeeded,
        ui::status_shade(s) == Color::Red <==> s == BuildStatus::Failed || s == BuildStatus::Fault || s
            == BuildStatus::TimedOut,
        ui::status_shade(s) == Color::Yellow <==> s == BuildStatus::InProgress,
{
}

/// A span of time is told in its two largest units.
pub proof fn law_span_of_a_build(h: nat, m: nat, s: nat, ms: u64)
    requires
        m < 60,
        s < 60,
        ms == (h * 3600 + m * 60 + s) * 1000,
    ensures
        h > 0 ==> ui::duration_words(Some(ms)) == numeral::decimal(h) + "h "@ + numeral::decimal(m) + "m"@,
        h == 0 && m > 0 ==> ui::duration_words(Some(ms)) == numeral::decimal(m) + "m "@ + numeral::decimal(s) + "s"@,
        h == 0 && m == 0 ==> ui::duration_words(Some(ms)) == numeral::decimal(s) + "s"@,
        ui::duration_words(None) == "—"@,
{
    let t = h * 3600 + m * 60 + s;
    vstd::arithmetic::div_mod::lemma_fundamental_div_mod_converse(ms as int, 1000, t as int, 0);
    let low = m * 60 + s;
    vstd::arithmetic::div_mod::lemma_fundamental_div_mod_converse(t as int, 3600, h as int, low as int);
    vstd::arithmetic::div_mod::lemma_fundamental_div_mod_converse(low as int, 60, m as int, s as int);
}

/// How long ago a build began is told in its largest unit.
pub proof fn law_how_long_ago(n: nat, rest: nat, started: i64, now: i64)
    requires
        now >= started,
        rest < 1000,
    ensures
        now - started == n * 1000 + rest && n < 60 ==> ui::when_words(Some(started), now) == numeral::decimal(n)
            + "s ago"@,
        now - started == n * 60_000 + rest && 0 < n < 60 ==> ui::when_words(Some(started), now) == numeral::decimal(n)
            + "m ago"@,
        now - started == n * 3_600_000 + rest && 0 < n < 24 ==> ui::when_words(Some(started), now)
            == numeral::decimal(n) + "h ago"@,
        now - started == n * 86_400_000 + rest && n > 0 ==> ui::when_words(Some(started), now) == numeral::decimal(n)
            + "d ago"@,
        ui::when_words(None, now) == "—"@,
{
}

/// The line of a project has its name, and the sign and the word of its newest build.
pub proof fn law_line_of_a_project(
    name: Seq<char>,
    selected: bool,
    expanded: bool,
    builds: Vec<CodeBuildRecord>,
    now: i64,
)
    requires
        name.len() <= 39,
        builds@.len() > 0,
    ensures
        ({
            let l = ui::summary_line(name, selected, expanded, Some(builds), now);
            &&& l.len() == 5
            &&& l[0].0 == (if expanded {
                "▼ "@
            } else {
                "▶ "@
            })
            &&& text::has_prefix(l[1].0, name)
            &&& l[2].0 == codebuild::status_glyph(builds@[0].status) + " "@
            &&& text::has_prefix(l[3].0, codebuild::status_label(builds@[0].status))
            &&& l[4].0 == ui::latest_words(builds@[0], now)
            &&& selected ==> l[1].1.fg == Color::Cyan
        }),
{
    assert(text::first_chars(name, 39) =~= name);
    assert(ui::latest_of(Some(builds)) == Some(builds@[0]));
    text::law_padded(name, 40);
    text::law_padded(codebuild::status_label(builds@[0].status), 11);
}

/// What is told of the newest build: its number, when it began, and how long it took.
pub proof fn law_newest_build_in_words(b: CodeBuildRecord, now: i64)
    ensures
        text::has_prefix(ui::latest_words(b, now), "#"@ + numeral::decimal(b.build_number as nat)),
        text::has_suffix(ui::latest_words(b, now), ui::duration_words(b.duration_ms)),
        text::has_part(ui::latest_words(b, now), ui::when_words(b.started_at_ms, now)),
{
    let d = numeral::decimal(b.build_number as nat);
    let p = text::padded_right(d, 6);
    let w = ui::when_words(b.started_at_ms, now);
    let t = ui::duration_words(b.duration_ms);
    text::law_padded(d, 6);
    let pad = p.skip(d.len() as int);
    assert(p =~= d + pad) by {
        assert(p.take(d.len() as int) == d);
        assert(p =~= p.take(d.len() as int) + pad);
    }
    let l = ui::latest_words(b, now);
    assert(l == "#"@ + p + " "@ + w + "  "@ + t);
    text::law_part_of_a_text("#"@ + d, pad + " "@ + w + "  "@ + t, t);
    assert(l =~= "#"@ + d + (pad + " "@ + w + "  "@ + t));
    text::law_part_of_a_text("#"@ + p + " "@ + w + "  "@, t, t);
    text::law_part_of_a_text("#"@ + p + " "@, w, "  "@ + t);
    assert(l =~= "#"@ + p + " "@ + w + ("  "@ + t));
}

/// A line of the recent builds: sign, number, time, age and version.
pub proof fn law_line_of_a_build(b: CodeBuildRecord, now: i64)
    ensures
        ({
            let l = ui::build_line(b, now);
            &&& l.len() == 8
            &&& l[1].0 == codebuild::status_glyph(b.status) + " "@ && l[1].1.fg == ui::status_shade(b.status)
            &&& l[3].0 == ui::duration_words(b.duration_ms)
            &&& l[5].0 == ui::when_words(b.started_at_ms, now)
            &&& b.source_version is Some && b.source_version->0@.len() <= 12 ==> l[7].0 == b.source_version->0@
        }),
{
}

/// A project that is expanded has its details below it, and one that is not has one
/// line.
pub proof fn law_details_below_a_project(a: AppV, i: int, now: i64)
    requires
        0 <= i < a.projects.len(),
    ensures
        !a.expanded.contains(a.projects[i]@) ==> ui::row_lines(a, i, now).len() == 1,
        a.expanded.contains(a.projects[i]@) ==> ui::row_lines(a, i, now).len() > 1,
{
}

/// What is told of builds, as it is given out.
pub proof fn law_words_given_out(
    s: BuildStatus,
    g: &'static str,
    l: &'static str,
    c: Style,
    ms: Option<u64>,
    d: String,
    at: Option<i64>,
    now: i64,
    w: String,
)
    requires
        call_ensures(BuildStatus::glyph, (s,), g),
        call_ensures(BuildStatus::label, (s,), l),
        call_ensures(ui::status_color, (s,), c),
        call_ensures(ui::format_duration, (ms,), d),
        call_ensures(ui::format_when, (at, now), w),
    ensures
        g@ == codebuild::status_glyph(s),
        l@ == codebuild::status_label(s),
        c.fg == ui::status_shade(s),
        d@ == ui::duration_words(ms),
        w@ == ui::when_words(at, now),
{
}

/// The key that is pressed, and the command that starts a build.
pub proof fn law_key_that_is_pressed(
    a: &mut App,
    key: Key,
    ctrl: bool,
    r: Option<Request>,
    project: &str,
    region: &str,
    v: Vec<String>,
)
    requires
        call_ensures(keys::handle, (a, key, ctrl), r),
        call_ensures(codebuild::start_build, (project, Some(region)), v),
    ensures
        final(a)@ == keys::handled(old(a)@, key, ctrl).0,
        app::opt_request(r) == keys::handled(old(a)@, key, ctrl).1,
        text::views(v@) =~= seq![
            "--region"@,
            region@,
            "codebuild"@,
            "start-build"@,
            "--project-name"@,
            project@,
            "--output"@,
            "json"@,
        ],
{
}

/// The browser begins with nothing and asks for the projects.
pub proof fn law_fresh_browser(cfg: Config, r: (App, Request))
    requires
        call_ensures(App::new, (cfg,), r),
    ensures
        r.1@ == RequestV::Projects,
        r.0@.pending_projects,
        r.0@.projects.len() == 0,
        r.0@.status == "refreshing…"@,
        !r.0@.should_quit,
{
}

/// A press on a row selects it; a press on the selected row unfolds or folds it.
pub proof fn law_press_on_a_row(a: &mut App, y: u16, i: usize)
    requires
        call_ensures(keys::handle_mouse, (a, Mouse::Press, y), ()),
        crate::rows::row_hit(old(a)@.row_hits, y) == Some(i),
        i < old(a)@.projects.len(),
    ensures
        old(a)@.selected != i ==> final(a)@.selected == i && final(a)@.expanded == old(a)@.expanded,
        old(a)@.selected == i ==> final(a)@.selected == i && (final(a)@.expanded.contains(
            old(a)@.projects[i as int]@,
        ) <==> !old(a)@.expanded.contains(old(a)@.projects[i as int]@)),
{
}

/// The command lines that list projects and read some of them.
pub proof fn law_command_lines(l: &codebuild::Listing, token: Seq<char>, a: Vec<String>, b: &codebuild::Batch, c: Vec<String>)
    requires
        call_ensures(codebuild::Listing::args, (l, None::<&str>), a),
        b.at <= b.names@.len(),
        call_ensures(codebuild::Batch::args, (b, None::<&str>), c),
    ensures
        l@.token is None ==> text::views(a@) =~= seq!["codebuild"@, "list-projects"@, "--output"@, "json"@],
        l@.token == Some(token) ==> text::views(a@) =~= seq![
            "codebuild"@,
            "list-projects"@,
            "--next-token"@,
            token,
            "--output"@,
            "json"@,
        ],
        b.names@.len() - b.at <= 100 ==> text::views(c@) =~= seq!["codebuild"@, "batch-get-projects"@, "--names"@]
            + b@.names.skip(b.at as int) + seq!["--output"@, "json"@],
        b.names@.len() - b.at > 100 ==> text::views(c@) =~= seq!["codebuild"@, "batch-get-projects"@, "--names"@]
            + b@.names.subrange(b.at as int, b.at + 100) + seq!["--output"@, "json"@],
{
    assert(b@.at == b.at);
    assert(b@.names.len() == b.names@.len());
    assert(b@.names.skip(b.at as int) =~= b@.names.subrange(b.at as int, b.names@.len() as int));
}

/// The rows of the projects follow each other, and an empty list is told.
pub proof fn law_list_is_drawn(a: &mut App, y: u16, height: u16, now: i64, r: Vec<Line>, n: int)
    requires
        y < u16::MAX,
        y + height <= u16::MAX,
        call_ensures(ui::draw_list, (a, y, height, now), r),
    ensures
        old(a)@.projects.len() == 0 && !old(a)@.pending_projects ==> screen::drawn(r@).len() == 1 && screen::drawn(
            r@,
        )[0][0].0 == "  (no projects in this region)"@,
        old(a)@.projects.len() == 1 ==> screen::drawn(r@) == ui::row_lines(old(a)@, 0, now),
        0 < n <= old(a)@.projects.len() ==> ui::all_rows(old(a)@, n, now) == ui::all_rows(old(a)@, n - 1, now)
            + ui::row_lines(old(a)@, n - 1, now),
{
    reveal_with_fuel(ui::all_rows, 3);
    if old(a)@.projects.len() == 1 {
        assert(Seq::<Seq<(Seq<char>, Style)>>::empty() + ui::row_lines(old(a)@, 0, now) =~= ui::row_lines(
            old(a)@,
            0,
            now,
        ));
    }
}

/// A build that was started is told by its id.
pub proof fn law_started_build(ran: &Ran, v: JsonV, r: Result<String, String>)
    requires
        call_ensures(codebuild::started_build, (ran,), r),
        command::aws_reply("codebuild"@, *ran) == Ok::<JsonV, Seq<char>>(v),
    ensures
        json::inner_text(v, "build"@, "id"@) is Some ==> r is Ok && r->Ok_0@ == json::inner_text(v, "build"@, "id"@)->0,
        json::inner_text(v, "build"@, "id"@) is None ==> r is Err,
{
}

/// What the settings say where nothing is set.
pub proof fn law_defaults(n: usize, c: Config)
    requires
        call_ensures(crate::codebuild::config::default_recent, (), n),
        call_ensures(Config::without_file, (), c),
    ensures
        n == 5,
        c.recent_builds == 5,
        c.region is None,
        c.projects@.len() == 0,
{
}

/// What is read of a list is read element by element, without what is not of the kind.
pub proof fn law_elements_are_read(a: Seq<JsonV>, x: JsonV, t: Seq<char>)
    ensures
        codebuild::texts_in(Seq::empty()).len() == 0,
        x == JsonV::Text(t) ==> codebuild::texts_in(a.push(x)) == codebuild::texts_in(a).push(t),
        !(x is Text) ==> codebuild::texts_in(a.push(x)) == codebuild::texts_in(a),
        codebuild::record_in(x) is Some ==> codebuild::records_in(a.push(x)) == codebuild::records_in(a).push(
            codebuild::record_in(x)->0,
        ),
        codebuild::record_in(x) is None ==> codebuild::records_in(a.push(x)) == codebuild::records_in(a),
        codebuild::project_in(x) is Some ==> codebuild::projects_in(a.push(x)) == codebuild::projects_in(a).push(
            codebuild::project_in(x)->0,
        ),
        codebuild::project_in(x) is None ==> codebuild::projects_in(a.push(x)) == codebuild::projects_in(a),
{
    assert(a.push(x).drop_last() =~= a);
}

/// Projects that were read come in the order of their names, and none is lost.
pub proof fn law_projects_by_name(s: Seq<codebuild::ProjectV>, i: int, j: int)
    ensures
        0 <= i < j < codebuild::by_name(s).len() ==> !text::before(
            codebuild::by_name(s)[j].name,
            codebuild::by_name(s)[i].name,
        ),
        codebuild::by_name(s).to_multiset() == s.to_multiset(),
{
    let less = |a: codebuild::ProjectV, b: codebuild::ProjectV| text::before(a.name, b.name);
    order::lemma_key_orders(less, |a: codebuild::ProjectV| a.name);
    order::law_sorted(s, less);
    let r = codebuild::by_name(s);
    if 0 <= i < j < r.len() {
        assert(!less(r[j], r[i]));
    }
}

/// The details below a project: its source, how it is built and in what, its log group
/// and its role, and then its builds.
pub proof fn law_details_of_a_project(d: ProjectDetail, builds: Vec<CodeBuildRecord>, now: i64, i: int)
    requires
        d.source_type is Some && d.source_location is Some,
        d.buildspec is Some,
        d.environment_image is Some && d.compute_type is Some,
        d.log_group is Some,
        d.service_role is Some,
        0 <= i < builds@.len(),
    ensures
        ({
            let l = ui::detail_lines(Some(d), Some(builds), now);
            &&& l.len() == 8 + builds@.len()
            &&& l[0][1].0 == d.source_type->0@ && l[0][3].0 == d.source_location->0@
            &&& l[1][0].0 == "    Buildspec  "@ && l[1][1].0 == d.buildspec->0@
            &&& l[2][0].0 == "    Environment  "@ && l[2][1].0 == d.environment_image->0@ && l[2][3].0
                == d.compute_type->0@
            &&& l[3][0].0 == "    Log group  "@ && l[3][1].0 == d.log_group->0@
            &&& l[4][0].0 == "    Service role  "@ && l[4][1].0 == d.service_role->0@
            &&& l[7 + i] == ui::build_line(builds@[i], now)
        }),
{
}

} // verus!
