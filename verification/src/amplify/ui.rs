//! What the apps browser draws.

use vstd::prelude::*;

use crate::amplify::amplify;
use crate::amplify::amplify::{first_line_of, short_error_reason, AmplifyBranch, AmplifyJob};
use crate::amplify::app;
use crate::amplify::app::{App, AppV, HistoryV, LogsV, VisibleRow};
use crate::clock;
use crate::clock::{local_offset, seconds_between, zoned_text};
use crate::numeral;
use crate::numeral::{dec, dec_size};
use crate::screen;
use crate::screen::{bold, color, line1, line2, slant, Color, Line, Style};
use crate::table;
use crate::tabs;
use crate::tabs::{add_row, gap_line, start_lines, status_line};
use crate::text;
use crate::text::{
    cat2, cat3, cat4, cat5, cat6, is_among, owned, pad_right, shorten, str_eq, str_until, take_chars,
    text_or_empty,
};

verus! {

/// The plain style.
pub open spec fn plain() -> Style {
    screen::colored(Color::Plain)
}

/// The deployment has not ended yet.
pub open spec fn under_way(status: Seq<char>) -> bool {
    status == "RUNNING"@ || status == "PENDING"@ || status == "PROVISIONING"@
}

fn is_under_way(status: &str) -> (r: bool)
    ensures
        r == under_way(status@),
{
    str_eq(status, "RUNNING") || str_eq(status, "PENDING") || str_eq(status, "PROVISIONING")
}

/// The colour of the status of a deployment.
pub open spec fn status_shade(status: Seq<char>) -> Color {
    if status == "SUCCEED"@ {
        Color::Green
    } else if status == "FAILED"@ || status == "CANCELLED"@ {
        Color::Red
    } else if under_way(status) {
        Color::Cyan
    } else {
        Color::Gray
    }
}

fn shade_of(status: &str) -> (r: Color)
    ensures
        r == status_shade(status@),
{
    if str_eq(status, "SUCCEED") {
        Color::Green
    } else if str_eq(status, "FAILED") || str_eq(status, "CANCELLED") {
        Color::Red
    } else if is_under_way(status) {
        Color::Cyan
    } else {
        Color::Gray
    }
}

/// The mark of the status of a deployment.
pub open spec fn status_mark(status: Seq<char>) -> Seq<char> {
    if status == "SUCCEED"@ {
        "✓"@
    } else if status == "FAILED"@ {
        "✗"@
    } else if status == "CANCELLED"@ {
        "⊘"@
    } else if status == "RUNNING"@ {
        "●"@
    } else if status == "PENDING"@ {
        "○"@
    } else if status == "PROVISIONING"@ {
        "◐"@
    } else {
        "·"@
    }
}

/// The mark and the colour of the status of a deployment.
pub fn deploy_status_glyph(status: &str) -> (r: (&'static str, Color))
    ensures
        r.0@ == status_mark(status@),
        r.1 == status_shade(status@),
{
    let glyph = if str_eq(status, "SUCCEED") {
        "✓"
    } else if str_eq(status, "FAILED") {
        "✗"
    } else if str_eq(status, "CANCELLED") {
        "⊘"
    } else if str_eq(status, "RUNNING") {
        "●"
    } else if str_eq(status, "PENDING") {
        "○"
    } else if str_eq(status, "PROVISIONING") {
        "◐"
    } else {
        "·"
    };
    (glyph, shade_of(status))
}

/// A time on clocks that are ahead of UTC by `offset` seconds; the text as it
/// stands where it is not a time.
pub open spec fn time_words(iso: Seq<char>, offset: i32) -> Seq<char> {
    match clock::zoned_words(iso, offset) {
        Some(t) => t,
        None => iso,
    }
}

/// What a time may look like on some machine: it is printed for clocks that are
/// ahead of UTC by less than a day, either way. A text that is not a time stays
/// as it is.
pub open spec fn local_words(iso: Seq<char>, r: Seq<char>) -> bool {
    match clock::rfc3339_gap(iso, iso) {
        Some(_) => exists|o: i32|
            -86_400 < o < 86_400 && #[trigger] clock::zoned_words(iso, o) == Some(r),
        None => r == iso,
    }
}

/// A time on clocks that are ahead of UTC by `offset` seconds.
pub fn format_iso_ts_at(iso: &str, offset: i32) -> (r: String)
    ensures
        r@ == time_words(iso@, offset),
        -86_400 < offset < 86_400 ==> local_words(iso@, r@),
{
    match zoned_text(iso, offset) {
        Some(t) => t,
        None => owned(iso),
    }
}

/// A time in the time zone of the machine; a text that is not a time stays as it
/// is. By how much the clocks of the machine are ahead of UTC is left open.
pub fn format_iso_ts(iso: &str) -> (r: String)
    ensures
        local_words(iso@, r@),
{
    let offset: i32 = match local_offset(iso) {
        Some(o) => o,
        None => 0,
    };
    format_iso_ts_at(iso, offset)
}

/// A span of seconds in minutes and seconds; one that runs backwards is none.
pub open spec fn minutes_words(gap: Option<i64>) -> Seq<char> {
    match gap {
        Some(g) => {
            let s = (if g > 0 {
                g as int
            } else {
                0
            }) as nat;
            numeral::decimal(s / 60) + "m "@ + numeral::decimal(s % 60) + "s"@
        },
        None => "—"@,
    }
}

/// A span of seconds in minutes and seconds.
pub fn minutes_text(gap: Option<i64>) -> (r: String)
    ensures
        r@ == minutes_words(gap),
{
    match gap {
        Some(g) => {
            let s: u64 = if g > 0 { g as u64 } else { 0 };
            cat4(dec(s / 60).as_str(), "m ", dec(s % 60).as_str(), "s")
        },
        None => owned("—"),
    }
}

/// How long a deployment took, in words.
pub open spec fn job_time(j: AmplifyJob) -> Seq<char> {
    minutes_words(
        match (j.start_time, j.end_time) {
            (Some(s), Some(e)) => clock::rfc3339_gap(s@, e@),
            _ => None,
        },
    )
}

/// How long a deployment took.
pub fn job_duration_str(j: &AmplifyJob) -> (r: String)
    ensures
        r@ == job_time(*j),
{
    let gap: Option<i64> = match (&j.start_time, &j.end_time) {
        (Some(s), Some(e)) => seconds_between(s.as_str(), e.as_str()),
        _ => None,
    };
    minutes_text(gap)
}

/// The headings of the columns.
pub open spec fn heading() -> Seq<(Seq<char>, Style)> {
    let s = screen::bolded(screen::colored(Color::DarkGray));
    seq![
        (text::padded_right(""@, 3), s),
        (text::padded_right("APP / BRANCH"@, 28), s),
        (text::padded_right("STAGE"@, 14), s),
        (text::padded_right("#JOB"@, 7), s),
        (text::padded_right("STATUS"@, 13), s),
        (text::padded_right("DATE"@, 11), s),
        (text::padded_right("DURATION"@, 9), s),
        ("COMMIT"@, s),
    ]
}

fn heading_line() -> (r: Line)
    ensures
        r@ == heading(),
{
    let s = bold(color(Color::DarkGray));
    let r = Line::blank().with(pad_right("", 3).as_str(), s).with(
        pad_right("APP / BRANCH", 28).as_str(),
        s,
    ).with(pad_right("STAGE", 14).as_str(), s).with(pad_right("#JOB", 7).as_str(), s).with(
        pad_right("STATUS", 13).as_str(),
        s,
    ).with(pad_right("DATE", 11).as_str(), s).with(pad_right("DURATION", 9).as_str(), s).with(
        "COMMIT",
        s,
    );
    assert(r@ =~= heading());
    r
}

/// The mark in front of a row that can be expanded.
pub open spec fn arrow(expanded: bool) -> Seq<char> {
    if expanded {
        "▼"@
    } else {
        "▶"@
    }
}

/// The line of an app: its name, and a remark while its branches are on their
/// way.
pub open spec fn app_line(name: Seq<char>, hidden: bool, expanded: bool, waiting: bool) -> Seq<
    (Seq<char>, Style),
> {
    let shown = if hidden {
        name + "  · hidden (x to unhide)"@
    } else {
        name
    };
    let style = if hidden {
        screen::slanted(screen::colored(Color::Gray))
    } else {
        screen::bolded(screen::colored(Color::Cyan))
    };
    let l = seq![
        (" "@ + arrow(expanded) + " "@, screen::colored(Color::Cyan)),
        (text::padded_right(text::shortened(shown, 27), 28), style),
    ];
    if waiting {
        l + seq![("  "@, plain()), ("loading branches…"@, screen::colored(Color::DarkGray))]
    } else {
        l
    }
}

fn app_line_of(name: &str, hidden: bool, expanded: bool, waiting: bool) -> (r: Line)
    ensures
        r@ == app_line(name@, hidden, expanded, waiting),
{
    let shown = if hidden { cat2(name, "  · hidden (x to unhide)") } else { owned(name) };
    let style = if hidden { slant(color(Color::Gray)) } else { bold(color(Color::Cyan)) };
    let first = cat3(" ", if expanded { "▼" } else { "▶" }, " ");
    let padded = pad_right(shorten(shown.as_str(), 27).as_str(), 28);
    let l = line2(first.as_str(), color(Color::Cyan), padded.as_str(), style);
    let r = if waiting {
        l.with("  ", color(Color::Plain)).with("loading branches…", color(Color::DarkGray))
    } else {
        l
    };
    assert(r@ =~= app_line(name@, hidden, expanded, waiting));
    r
}

/// The first branch of a name.
pub open spec fn branch_named(brs: Seq<AmplifyBranch>, name: Seq<char>) -> Option<AmplifyBranch>
    decreases brs.len(),
{
    if brs.len() == 0 {
        None
    } else if brs[0].branch_name@ == name {
        Some(brs[0])
    } else {
        branch_named(brs.drop_first(), name)
    }
}

/// The stage of a branch, where one is known.
pub open spec fn stage_of(brs: Option<Vec<AmplifyBranch>>, name: Seq<char>) -> Seq<char> {
    match brs {
        Some(v) => match branch_named(v@, name) {
            Some(b) => text::or_empty(b.stage),
            None => ""@,
        },
        None => ""@,
    }
}

/// The contents of an optional reference.
pub open spec fn deref_opt<T>(o: Option<&T>) -> Option<T> {
    match o {
        Some(v) => Some(*v),
        None => None,
    }
}

fn find_stage(brs: Option<&Vec<AmplifyBranch>>, name: &str) -> (r: String)
    ensures
        r@ == stage_of(deref_opt(brs), name@),
{
    if let Some(v) = brs {
        let mut i: usize = 0;
        assert(v@.skip(0) =~= v@);
        while i < v.len()
            invariant
                i <= v.len(),
                deref_opt(brs) == Some(*v),
                branch_named(v@, name@) == branch_named(v@.skip(i as int), name@),
            decreases v.len() - i,
        {
            assert(v@.skip(i as int).drop_first() =~= v@.skip(i + 1));
            if str_eq(v[i].branch_name.as_str(), name) {
                assert(branch_named(v@, name@) == Some(v@[i as int]));
                return owned(text_or_empty(&v[i].stage));
            }
            i = i + 1;
        }
    }
    owned("")
}

/// The colour of a stage.
pub open spec fn stage_shade(stage: Seq<char>) -> Color {
    if stage == "PRODUCTION"@ {
        Color::Green
    } else if stage == "BETA"@ {
        Color::Yellow
    } else if stage == "DEVELOPMENT"@ {
        Color::Cyan
    } else {
        Color::Plain
    }
}

fn shade_of_stage(stage: &str) -> (r: Color)
    ensures
        r == stage_shade(stage@),
{
    if str_eq(stage, "PRODUCTION") {
        Color::Green
    } else if str_eq(stage, "BETA") {
        Color::Yellow
    } else if str_eq(stage, "DEVELOPMENT") {
        Color::Cyan
    } else {
        Color::Plain
    }
}

/// The last deployment that has ended, if it is one of the first two.
pub open spec fn last_ended(js: Seq<AmplifyJob>) -> Option<AmplifyJob> {
    if js.len() == 0 {
        None
    } else if !under_way(js[0].status@) {
        Some(js[0])
    } else if js.len() > 1 {
        Some(js[1])
    } else {
        None
    }
}

/// The first line of the message of a commit.
pub open spec fn commit_line(j: AmplifyJob) -> Seq<char> {
    amplify::first_line(text::or_empty(j.commit_message))
}

/// A deployment in the columns of the list.
pub open spec fn job_columns(j: AmplifyJob) -> Seq<char> {
    "#"@ + text::padded_right(j.job_id@, 6) + text::padded_right(j.status@, 13) + text::padded_right(
        text::until(text::or_empty(j.end_time), 'T'),
        11,
    ) + text::padded_right(job_time(j), 9) + text::shortened(commit_line(j), 30)
}

/// The colour of a deployment in the columns of the list.
pub open spec fn ended_shade(status: Seq<char>) -> Color {
    if status == "SUCCEED"@ {
        Color::Green
    } else if status == "FAILED"@ || status == "CANCELLED"@ {
        Color::Red
    } else {
        Color::Gray
    }
}

/// What the line of a branch says of its deployments: the last one, or why none
/// is shown.
pub open spec fn branch_remark(jobs: Option<Vec<AmplifyJob>>, error: Option<String>, busy: bool) -> (
    Seq<char>,
    Style,
) {
    match jobs {
        None => match error {
            Some(e) => (amplify::short_reason(e@), screen::colored(Color::Red)),
            None => if busy {
                ("fetching…"@, screen::colored(Color::Cyan))
            } else {
                ("queued"@, screen::colored(Color::DarkGray))
            },
        },
        Some(v) => match last_ended(v@) {
            Some(j) => (job_columns(j), screen::colored(ended_shade(j.status@))),
            None => ("(no deploys)"@, screen::colored(Color::DarkGray)),
        },
    }
}

fn columns_of(j: &AmplifyJob) -> (r: String)
    ensures
        r@ == job_columns(*j),
{
    let id = pad_right(j.job_id.as_str(), 6);
    let status = pad_right(j.status.as_str(), 13);
    let day = str_until(text_or_empty(&j.end_time), 'T');
    let when = pad_right(day.as_str(), 11);
    let time = pad_right(job_duration_str(j).as_str(), 9);
    let commit = shorten(first_line_of(text_or_empty(&j.commit_message)).as_str(), 30);
    cat6("#", id.as_str(), status.as_str(), when.as_str(), time.as_str(), commit.as_str())
}

fn remark_of(jobs: Option<&Vec<AmplifyJob>>, error: Option<&String>, busy: bool) -> (r: (String, Style))
    ensures
        (r.0@, r.1) == branch_remark(deref_opt(jobs), deref_opt(error), busy),
{
    match jobs {
        None => match error {
            Some(e) => (short_error_reason(e.as_str()), color(Color::Red)),
            None => {
                if busy {
                    (owned("fetching…"), color(Color::Cyan))
                } else {
                    (owned("queued"), color(Color::DarkGray))
                }
            },
        },
        Some(v) => {
            let last: Option<&AmplifyJob> = if v.len() == 0 {
                None
            } else if !is_under_way(v[0].status.as_str()) {
                Some(&v[0])
            } else if v.len() > 1 {
                Some(&v[1])
            } else {
                None
            };
            match last {
                Some(j) => {
                    let shade = if str_eq(j.status.as_str(), "SUCCEED") {
                        Color::Green
                    } else if str_eq(j.status.as_str(), "FAILED") || str_eq(
                        j.status.as_str(),
                        "CANCELLED",
                    ) {
                        Color::Red
                    } else {
                        Color::Gray
                    };
                    (columns_of(j), color(shade))
                },
                None => (owned("(no deploys)"), color(Color::DarkGray)),
            }
        },
    }
}

/// The line of a branch.
pub open spec fn branch_line(name: Seq<char>, stage: Seq<char>, expanded: bool, remark: (Seq<char>, Style)) -> Seq<
    (Seq<char>, Style),
> {
    seq![
        ("    "@, plain()),
        (arrow(expanded) + " "@, screen::colored(Color::Gray)),
        (text::padded_right(text::shortened(name, 24), 25), screen::bolded(plain())),
        (
            text::padded_right(text::shortened(stage, 13), 14),
            screen::colored(stage_shade(stage)),
        ),
        remark,
    ]
}

/// The line below an expanded branch of which no deployment is known.
pub open spec fn branch_gap(jobs: Option<Vec<AmplifyJob>>, error: Option<String>) -> Seq<(Seq<char>, Style)> {
    seq![
        ("      "@, plain()),
        match error {
            Some(e) => (
                "error: "@ + text::first_chars(amplify::first_line(e@), 120),
                screen::colored(Color::Red),
            ),
            None => (
                if jobs is None {
                    "(loading…)"@
                } else {
                    "(no deployments yet)"@
                },
                screen::colored(Color::DarkGray),
            ),
        },
    ]
}

/// There are no deployments to be listed.
pub open spec fn lacks_jobs(jobs: Option<Vec<AmplifyJob>>) -> bool {
    match jobs {
        Some(v) => v@.len() == 0,
        None => true,
    }
}

/// The lines of a branch.
pub open spec fn branch_lines(a: AppV, key: (Seq<char>, Seq<char>)) -> Seq<Seq<(Seq<char>, Style)>> {
    let expanded = a.open.contains(key);
    let jobs = table::looked_up(a.apps.jobs, key);
    let error = table::looked_up(a.apps.job_errors, key);
    let stage = stage_of(table::looked_up(a.apps.branches, key.0), key.1);
    let first = seq![
        branch_line(key.1, stage, expanded, branch_remark(jobs, error, a.apps.pending_jobs.contains(key))),
    ];
    if expanded && lacks_jobs(jobs) {
        first + seq![branch_gap(jobs, error)]
    } else {
        first
    }
}

/// The first deployment of a number.
pub open spec fn job_named(js: Seq<AmplifyJob>, id: Seq<char>) -> Option<AmplifyJob>
    decreases js.len(),
{
    if js.len() == 0 {
        None
    } else if js[0].job_id@ == id {
        Some(js[0])
    } else {
        job_named(js.drop_first(), id)
    }
}

/// The deployment that a row stands for.
pub open spec fn row_job(a: AppV, key: (Seq<char>, Seq<char>), id: Seq<char>) -> Option<AmplifyJob> {
    match table::looked_up(a.apps.jobs, key) {
        Some(v) => job_named(v@, id),
        None => None,
    }
}

/// The line of a deployment that was started at `started`.
pub open spec fn job_line(j: AmplifyJob, started: Seq<char>) -> Seq<(Seq<char>, Style)> {
    let gray = screen::colored(Color::DarkGray);
    seq![
        ("      "@, plain()),
        (
            status_mark(j.status@) + " "@ + text::padded_right(j.status@, 10),
            screen::bolded(screen::colored(status_shade(j.status@))),
        ),
        ("#"@ + text::padded_right(j.job_id@, 6), screen::colored(Color::Yellow)),
        (text::padded_right(job_time(j), 9), gray),
        (text::padded_right(started, 20) + " "@, gray),
        (commit_line(j), plain()),
    ]
}

fn job_line_of(j: &AmplifyJob, started: &str) -> (r: Line)
    ensures
        r@ == job_line(*j, started@),
{
    let gray = color(Color::DarkGray);
    let (glyph, shade) = deploy_status_glyph(j.status.as_str());
    let status = cat3(glyph, " ", pad_right(j.status.as_str(), 10).as_str());
    let id = cat2("#", pad_right(j.job_id.as_str(), 6).as_str());
    let time = pad_right(job_duration_str(j).as_str(), 9);
    let when = cat2(pad_right(started, 20).as_str(), " ");
    let commit = first_line_of(text_or_empty(&j.commit_message));
    let r = Line::blank().with("      ", color(Color::Plain)).with(
        status.as_str(),
        bold(color(shade)),
    ).with(id.as_str(), color(Color::Yellow)).with(time.as_str(), gray).with(when.as_str(), gray).with(
        commit.as_str(),
        color(Color::Plain),
    );
    assert(r@ =~= job_line(*j, started@));
    r
}

/// The lines of a row; `started` is when the deployment of a row was started.
pub open spec fn row_lines(a: AppV, row: VisibleRow, started: Seq<char>) -> Seq<Seq<(Seq<char>, Style)>> {
    match row {
        VisibleRow::AppHeader { items_index, expanded } => if items_index < a.apps.items.len() {
            let app = a.apps.items[items_index as int];
            seq![
                app_line(
                    app.name@,
                    text::among(a.cfg.hidden, app.app_id@),
                    expanded,
                    expanded && !a.apps.branches.dom().contains(app.app_id@)
                        && a.apps.pending_branches.contains(app.app_id@),
                ),
            ]
        } else {
            tabs::no_lines()
        },
        VisibleRow::Branch { app_id, branch_name } => branch_lines(a, (app_id@, branch_name@)),
        VisibleRow::Deployment { app_id, branch_name, job_id } => match row_job(
            a,
            (app_id@, branch_name@),
            job_id@,
        ) {
            Some(j) => seq![job_line(j, started)],
            None => seq![tabs::gap()],
        },
    }
}

/// The lines of the headings and of the first `n` rows.
pub open spec fn lines_to(a: AppV, rows: Seq<VisibleRow>, starts: Seq<Seq<char>>, n: int) -> Seq<
    Seq<(Seq<char>, Style)>,
>
    decreases n,
{
    if n <= 0 {
        seq![heading()]
    } else {
        lines_to(a, rows, starts, n - 1) + row_lines(a, rows[n - 1], starts[n - 1])
    }
}

/// How many lines a row takes.
pub open spec fn row_height(a: AppV, row: VisibleRow) -> int {
    match row {
        VisibleRow::Branch { app_id, branch_name } => {
            let key = (app_id@, branch_name@);
            if a.open.contains(key) && !a.has_jobs(key) {
                2
            } else {
                1
            }
        },
        _ => 1,
    }
}

/// The line at which row `i` begins, behind the headings.
pub open spec fn line_start(a: AppV, rows: Seq<VisibleRow>, i: int) -> int
    decreases i,
{
    if i <= 0 {
        1
    } else {
        line_start(a, rows, i - 1) + row_height(a, rows[i - 1])
    }
}

/// A number of lines, as far as it can be counted.
pub open spec fn countable(n: int) -> int {
    if n <= usize::MAX {
        n
    } else {
        usize::MAX as int
    }
}

/// The line at which each row begins.
pub fn visible_row_line_starts(app: &App, rows: &Vec<VisibleRow>) -> (r: Vec<usize>)
    requires
        app.wf(),
    ensures
        r.len() == rows.len(),
        forall|i: int|
            0 <= i < rows.len() ==> (#[trigger] r@[i]) == countable(line_start(app@, rows@, i)),
{
    let mut out: Vec<usize> = Vec::new();
    let mut cursor: usize = 1;
    let mut i: usize = 0;
    while i < rows.len()
        invariant
            app.wf(),
            i <= rows.len(),
            out.len() == i,
            cursor == countable(line_start(app@, rows@, i as int)),
            forall|k: int| 0 <= k < i ==> (#[trigger] out@[k]) == countable(line_start(app@, rows@, k)),
        decreases rows.len() - i,
    {
        out.push(cursor);
        let height: usize = match &rows[i] {
            VisibleRow::Branch { app_id, branch_name } => {
                let key = (app_id.clone(), branch_name.clone());
                let has_jobs = match app.apps().jobs_by_key.get(&key) {
                    Some(js) => js.len() > 0,
                    None => false,
                };
                if app.expanded_branches.contains(&key) && !has_jobs {
                    2
                } else {
                    1
                }
            },
            _ => 1,
        };
        assert(height == row_height(app@, rows@[i as int]));
        cursor = cursor.saturating_add(height);
        i = i + 1;
    }
    out
}

fn is_waited_for(pending: &Vec<(String, String)>, key: &(String, String)) -> (r: bool)
    ensures
        r == app::pair_views(pending@).contains((key.0@, key.1@)),
{
    let ghost all = app::pair_views(pending@);
    let mut i: usize = 0;
    while i < pending.len()
        invariant
            i <= pending.len(),
            all == app::pair_views(pending@),
            forall|k: int| 0 <= k < i ==> #[trigger] all[k] != (key.0@, key.1@),
        decreases pending.len() - i,
    {
        assert(all[i as int] == (pending@[i as int].0@, pending@[i as int].1@));
        if str_eq(pending[i].0.as_str(), key.0.as_str()) && str_eq(
            pending[i].1.as_str(),
            key.1.as_str(),
        ) {
            return true;
        }
        i = i + 1;
    }
    false
}

fn add_branch(out: &mut Vec<Line>, app: &App, app_id: &String, branch_name: &String)
    requires
        app.wf(),
    ensures
        screen::drawn(final(out)@) == screen::drawn(old(out)@) + branch_lines(app@, (app_id@, branch_name@)),
{
    let a = app.apps();
    let key = (app_id.clone(), branch_name.clone());
    let expanded = app.expanded_branches.contains(&key);
    let jobs = a.jobs_by_key.get(&key);
    let error = a.jobs_error_by_key.get(&key);
    let stage = find_stage(a.branches_by_app.get(app_id), branch_name.as_str());
    let busy = is_waited_for(&a.pending_jobs, &key);
    let (remark, style) = remark_of(jobs, error, busy);
    let first = cat2(if expanded { "▼" } else { "▶" }, " ");
    let name = pad_right(shorten(branch_name.as_str(), 24).as_str(), 25);
    let shown = pad_right(shorten(stage.as_str(), 13).as_str(), 14);
    let none = color(Color::Plain);
    let l = Line::blank().with("    ", none).with(first.as_str(), color(Color::Gray)).with(
        name.as_str(),
        bold(none),
    ).with(shown.as_str(), color(shade_of_stage(stage.as_str()))).with(remark.as_str(), style);
    assert(l@ =~= branch_line(
        branch_name@,
        stage@,
        expanded,
        branch_remark(deref_opt(jobs), deref_opt(error), busy),
    ));
    let ghost start = screen::drawn(out@);
    add_row(out, l);
    let lacking = match jobs {
        Some(v) => v.len() == 0,
        None => true,
    };
    if expanded && lacking {
        let l = match error {
            Some(e) => {
                let short = take_chars(first_line_of(e.as_str()).as_str(), 120);
                let t = cat2("error: ", short.as_str());
                line2("      ", none, t.as_str(), color(Color::Red))
            },
            None => {
                let t = if jobs.is_none() { "(loading…)" } else { "(no deployments yet)" };
                line2("      ", none, t, color(Color::DarkGray))
            },
        };
        assert(l@ =~= branch_gap(deref_opt(jobs), deref_opt(error)));
        add_row(out, l);
    }
    assert(screen::drawn(out@) =~= start + branch_lines(app@, (app_id@, branch_name@)));
}

fn find_job<'a>(app: &'a App, app_id: &String, branch_name: &String, job_id: &str) -> (r: Option<&'a AmplifyJob>)
    requires
        app.wf(),
    ensures
        deref_opt(r) == row_job(app@, (app_id@, branch_name@), job_id@),
{
    let key = (app_id.clone(), branch_name.clone());
    if let Some(v) = app.apps().jobs_by_key.get(&key) {
        let mut i: usize = 0;
        assert(v@.skip(0) =~= v@);
        while i < v.len()
            invariant
                i <= v.len(),
                job_named(v@, job_id@) == job_named(v@.skip(i as int), job_id@),
                row_job(app@, (app_id@, branch_name@), job_id@) == job_named(v@, job_id@),
            decreases v.len() - i,
        {
            assert(v@.skip(i as int).drop_first() =~= v@.skip(i + 1));
            if str_eq(v[i].job_id.as_str(), job_id) {
                return Some(&v[i]);
            }
            i = i + 1;
        }
    }
    None
}

fn add_row_lines(out: &mut Vec<Line>, app: &App, row: &VisibleRow, started: &str)
    requires
        app.wf(),
    ensures
        screen::drawn(final(out)@) == screen::drawn(old(out)@) + row_lines(app@, *row, started@),
{
    match row {
        VisibleRow::AppHeader { items_index, expanded } => {
            let a = app.apps();
            if *items_index < a.items.len() {
                let item = &a.items[*items_index];
                let hidden = is_among(&app.cfg.hidden_app_ids, item.app_id.as_str());
                let waiting = *expanded && !a.branches_by_app.contains(&item.app_id)
                    && a.pending_branches.contains(&item.app_id);
                add_row(out, app_line_of(item.name.as_str(), hidden, *expanded, waiting));
            } else {
                assert(screen::drawn(out@) + tabs::no_lines() =~= screen::drawn(out@));
            }
        },
        VisibleRow::Branch { app_id, branch_name } => add_branch(out, app, app_id, branch_name),
        VisibleRow::Deployment { app_id, branch_name, job_id } => {
            match find_job(app, app_id, branch_name, job_id.as_str()) {
                Some(j) => add_row(out, job_line_of(j, started)),
                None => add_row(out, gap_line()),
            }
        },
    }
}

/// The lines of the headings and of the rows; `starts` says for each row when
/// its deployment was started.
pub fn list_lines(app: &App, rows: &Vec<VisibleRow>, starts: &Vec<String>) -> (r: Vec<Line>)
    requires
        app.wf(),
        starts.len() == rows.len(),
    ensures
        screen::drawn(r@) == lines_to(app@, rows@, text::views(starts@), rows@.len() as int),
{
    let mut out = start_lines();
    add_row(&mut out, heading_line());
    let mut i: usize = 0;
    assert(screen::drawn(out@) =~= lines_to(app@, rows@, text::views(starts@), 0));
    while i < rows.len()
        invariant
            app.wf(),
            i <= rows.len(),
            starts.len() == rows.len(),
            screen::drawn(out@) == lines_to(app@, rows@, text::views(starts@), i as int),
        decreases rows.len() - i,
    {
        assert(text::views(starts@)[i as int] == starts@[i as int]@);
        add_row_lines(&mut out, app, &rows[i], starts[i].as_str());
        i = i + 1;
    }
    out
}

/// When the deployment of a row was started, in the time zone of some machine;
/// nothing for other rows.
pub open spec fn start_of(a: AppV, row: VisibleRow, start: Seq<char>) -> bool {
    match row {
        VisibleRow::Deployment { app_id, branch_name, job_id } => match row_job(
            a,
            (app_id@, branch_name@),
            job_id@,
        ) {
            Some(j) => match j.start_time {
                Some(t) => local_words(t@, start),
                None => start == Seq::<char>::empty(),
            },
            None => start == Seq::<char>::empty(),
        },
        _ => start == Seq::<char>::empty(),
    }
}

/// The same of all rows.
pub open spec fn are_starts(a: AppV, rows: Seq<VisibleRow>, starts: Seq<Seq<char>>) -> bool {
    &&& starts.len() == rows.len()
    &&& forall|i: int| 0 <= i < rows.len() ==> start_of(a, rows[i], #[trigger] starts[i])
}

/// For each row when its deployment was started, in the time zone of the
/// machine.
pub fn start_texts(app: &App, rows: &Vec<VisibleRow>) -> (r: Vec<String>)
    requires
        app.wf(),
    ensures
        are_starts(app@, rows@, text::views(r@)),
{
    let mut out: Vec<String> = Vec::new();
    let mut i: usize = 0;
    while i < rows.len()
        invariant
            app.wf(),
            i <= rows.len(),
            out.len() == i,
            forall|k: int| 0 <= k < i ==> start_of(app@, rows@[k], (#[trigger] out@[k])@),
        decreases rows.len() - i,
    {
        let t = match &rows[i] {
            VisibleRow::Deployment { app_id, branch_name, job_id } => {
                match find_job(app, app_id, branch_name, job_id.as_str()) {
                    Some(j) => match &j.start_time {
                        Some(t) => format_iso_ts(t.as_str()),
                        None => String::new(),
                    },
                    None => String::new(),
                }
            },
            _ => String::new(),
        };
        out.push(t);
        i = i + 1;
    }
    assert forall|k: int| 0 <= k < rows@.len() implies start_of(
        app@,
        rows@[k],
        #[trigger] text::views(out@)[k],
    ) by {
        assert(text::views(out@)[k] == out@[k]@);
    }
    out
}

/// What the list looks like: a remark in its place, or its lines with the one
/// that is selected and how many are scrolled out at the top.
pub enum Pane {
    Message { text: String, shade: Color },
    List { title: Option<String>, lines: Vec<Line>, highlighted: Option<usize>, scroll: u16 },
}

/// A `Pane` by its contents.
#[verifier::ext_equal]
pub enum PaneV {
    Message { text: Seq<char>, shade: Color },
    List {
        title: Option<Seq<char>>,
        lines: Seq<Seq<(Seq<char>, Style)>>,
        highlighted: Option<int>,
        scroll: int,
    },
}

impl View for Pane {
    type V = PaneV;

    open spec fn view(&self) -> PaneV {
        match *self {
            Pane::Message { text, shade } => PaneV::Message { text: text@, shade },
            Pane::List { title, lines, highlighted, scroll } => PaneV::List {
                title: text::opt_view(title),
                lines: screen::drawn(lines@),
                highlighted: match highlighted {
                    Some(i) => Some(i as int),
                    None => None,
                },
                scroll: scroll as int,
            },
        }
    }
}

/// How far a list is scrolled in `height` lines to have the line `line` on the
/// screen; it can be scrolled by `u16::MAX` lines.
pub open spec fn scroll_to(line: int, height: int) -> int {
    let room = if height > 4 {
        height - 4
    } else {
        0
    };
    if line - room > u16::MAX {
        u16::MAX as int
    } else if line > room {
        line - room
    } else {
        0
    }
}

pub fn scroll_for(line: usize, height: u16) -> (r: u16)
    ensures
        r == scroll_to(line as int, height as int),
{
    let past: usize = line.saturating_sub(height.saturating_sub(4) as usize);
    if past > 0xffff {
        0xffff
    } else {
        past as u16
    }
}

/// The line of the selected row.
pub open spec fn selected_line(a: AppV, rows: Seq<VisibleRow>) -> Option<int> {
    if 0 <= a.apps.selected < rows.len() {
        Some(countable(line_start(a, rows, a.apps.selected)))
    } else {
        None
    }
}

/// The title of the list.
pub open spec fn list_title(a: AppV) -> Seq<char> {
    " Amplify · "@ + numeral::decimal(a.apps.items.len()) + (if a.apps.show_hidden {
        " apps · show-hidden "@
    } else {
        " apps "@
    })
}

/// What the list looks like in `height` lines; inside another program it has no
/// frame and no title.
pub open spec fn list_pane(
    a: AppV,
    rows: Seq<VisibleRow>,
    starts: Seq<Seq<char>>,
    height: int,
    inside_mnml: bool,
) -> PaneV {
    match a.apps.last_error {
        Some(e) => PaneV::Message {
            text: "error: "@ + e + "\n\nPress `r` to retry."@,
            shade: Color::Red,
        },
        None => if a.apps.items.len() == 0 {
            PaneV::Message {
                text: if a.apps.loading {
                    "loading apps…"@
                } else {
                    "(no Amplify apps in this region)"@
                },
                shade: Color::DarkGray,
            }
        } else {
            PaneV::List {
                title: if inside_mnml {
                    None
                } else {
                    Some(list_title(a))
                },
                lines: lines_to(a, rows, starts, rows.len() as int),
                highlighted: selected_line(a, rows),
                scroll: scroll_to(
                    match selected_line(a, rows) {
                        Some(l) => l,
                        None => a.apps.selected,
                    },
                    height,
                ),
            }
        },
    }
}

/// Draws the list for some rows; `starts` says for each row when its deployment
/// was started.
pub fn draw_rows(
    app: &App,
    rows: &Vec<VisibleRow>,
    starts: &Vec<String>,
    height: u16,
    inside_mnml: bool,
) -> (r: Pane)
    requires
        app.wf(),
        starts.len() == rows.len(),
    ensures
        r@ == list_pane(app@, rows@, text::views(starts@), height as int, inside_mnml),
{
    let a = app.apps();
    if let Some(e) = &a.last_error {
        return Pane::Message {
            text: cat3("error: ", e.as_str(), "\n\nPress `r` to retry."),
            shade: Color::Red,
        };
    }
    if a.items.len() == 0 {
        return Pane::Message {
            text: owned(
                if a.loading { "loading apps…" } else { "(no Amplify apps in this region)" },
            ),
            shade: Color::DarkGray,
        };
    }
    let line_starts = visible_row_line_starts(app, rows);
    let highlighted: Option<usize> = if a.selected < line_starts.len() {
        Some(line_starts[a.selected])
    } else {
        None
    };
    let line: usize = match highlighted {
        Some(l) => l,
        None => a.selected,
    };
    let title = if inside_mnml {
        None
    } else {
        Some(
            cat3(
                " Amplify · ",
                dec_size(a.items.len()).as_str(),
                if a.show_hidden { " apps · show-hidden " } else { " apps " },
            ),
        )
    };
    let lines = list_lines(app, rows, starts);
    Pane::List { title, lines, highlighted, scroll: scroll_for(line, height) }
}

/// Draws the list as it is at the time `now` in `height` lines.
pub fn draw_unified_view(app: &App, height: u16, inside_mnml: bool, now: Option<u64>) -> (r: Pane)
    requires
        app.wf(),
    ensures
        exists|starts: Seq<Seq<char>>|
            {
                &&& are_starts(app@, app@.rows(now), starts)
                &&& r@ == #[trigger] list_pane(app@, app@.rows(now), starts, height as int, inside_mnml)
            },
{
    let rows = app.visible_rows_at(now);
    let starts = start_texts(app, &rows);
    let r = draw_rows(app, &rows, &starts, height, inside_mnml);
    assert(r@ == list_pane(app@, app@.rows(now), text::views(starts@), height as int, inside_mnml));
    r
}

/// A name and a value of the last deployment.
pub open spec fn fact(name: Seq<char>, value: Seq<char>, shade: Color) -> Seq<(Seq<char>, Style)> {
    seq![(name, screen::colored(Color::DarkGray)), (value, screen::colored(shade))]
}

/// What is said of the last deployment of a branch.
pub open spec fn job_summary(j: AmplifyJob) -> Seq<Seq<(Seq<char>, Style)>> {
    seq![
        seq![
            ("Deployment #"@ + j.job_id@, screen::bolded(screen::colored(Color::Cyan))),
            ("  "@, plain()),
            (j.status@, screen::colored(status_shade(j.status@))),
        ],
        tabs::gap(),
        fact("Started    "@, text::or_empty(j.start_time), Color::Plain),
        fact("Duration   "@, job_time(j), Color::Plain),
        fact(
            "Commit     "@,
            match j.commit_message {
                Some(m) => amplify::first_line(m@),
                None => "(no message)"@,
            },
            Color::Plain,
        ),
    ] + (match j.commit_id {
        Some(c) => seq![fact("SHA        "@, text::first_chars(c@, 12), Color::Yellow)],
        None => tabs::no_lines(),
    })
}

/// The lines above the deployments of a branch.
pub open spec fn summary_lines(h: HistoryV) -> Seq<Seq<(Seq<char>, Style)>> {
    if h.loading && h.jobs.len() == 0 {
        seq![seq![("loading deployments…"@, screen::colored(Color::DarkGray))]]
    } else {
        match h.error {
            Some(e) => seq![seq![("error: "@ + e, screen::colored(Color::Red))]],
            None => if h.jobs.len() > 0 {
                job_summary(h.jobs[0])
            } else {
                seq![seq![("(no deployments)"@, screen::colored(Color::DarkGray))]]
            },
        }
    }
}

fn add_summary(out: &mut Vec<Line>, j: &AmplifyJob)
    ensures
        screen::drawn(final(out)@) == screen::drawn(old(out)@) + job_summary(*j),
{
    let ghost start = screen::drawn(out@);
    let gray = color(Color::DarkGray);
    let none = color(Color::Plain);
    let head = cat2("Deployment #", j.job_id.as_str());
    let l = Line::blank().with(head.as_str(), bold(color(Color::Cyan))).with("  ", none).with(
        j.status.as_str(),
        color(shade_of(j.status.as_str())),
    );
    assert(l@ =~= job_summary(*j)[0]);
    add_row(out, l);
    add_row(out, gap_line());
    add_row(out, line2("Started    ", gray, text_or_empty(&j.start_time), none));
    add_row(out, line2("Duration   ", gray, job_duration_str(j).as_str(), none));
    let message = match &j.commit_message {
        Some(m) => first_line_of(m.as_str()),
        None => owned("(no message)"),
    };
    add_row(out, line2("Commit     ", gray, message.as_str(), none));
    if let Some(c) = &j.commit_id {
        let sha = take_chars(c.as_str(), 12);
        add_row(out, line2("SHA        ", gray, sha.as_str(), color(Color::Yellow)));
    }
    assert(screen::drawn(out@) =~= start + job_summary(*j));
}

/// A deployment in the list of all deployments of a branch, column by column.
pub open spec fn history_row(j: AmplifyJob) -> Seq<(Seq<char>, Style)> {
    seq![
        ("#"@ + j.job_id@, screen::colored(Color::Yellow)),
        (j.status@, screen::colored(status_shade(j.status@))),
        (job_time(j), plain()),
        (text::first_chars(commit_line(j), 60), plain()),
        (text::until(text::or_empty(j.start_time), 'T'), screen::colored(Color::DarkGray)),
    ]
}

fn history_row_of(j: &AmplifyJob) -> (r: Line)
    ensures
        r@ == history_row(*j),
{
    let none = color(Color::Plain);
    let id = cat2("#", j.job_id.as_str());
    let commit = take_chars(first_line_of(text_or_empty(&j.commit_message)).as_str(), 60);
    let day = str_until(text_or_empty(&j.start_time), 'T');
    let r = Line::blank().with(id.as_str(), color(Color::Yellow)).with(
        j.status.as_str(),
        color(shade_of(j.status.as_str())),
    ).with(job_duration_str(j).as_str(), none).with(commit.as_str(), none).with(
        day.as_str(),
        color(Color::DarkGray),
    );
    assert(r@ =~= history_row(*j));
    r
}

/// The deployments of a branch as they are drawn: what is said of the last one,
/// and the list of all.
pub struct HistoryPane {
    pub summary_title: String,
    pub summary: Vec<Line>,
    pub title: String,
    /// One line per deployment; its pieces are the columns.
    pub rows: Vec<Line>,
    pub selected: usize,
}

/// The rows of all deployments.
pub open spec fn history_rows(jobs: Seq<AmplifyJob>) -> Seq<Seq<(Seq<char>, Style)>> {
    Seq::new(jobs.len(), |i: int| history_row(jobs[i]))
}

impl HistoryPane {
    /// It shows the deployments `h`.
    pub open spec fn shows(self, h: HistoryV) -> bool {
        &&& self.summary_title@ == " "@ + h.app_name + " · "@ + h.branch_name + "  latest deployment "@
        &&& screen::drawn(self.summary@) == summary_lines(h)
        &&& self.title@ == " deployment history ("@ + numeral::decimal(h.jobs.len())
            + ") · Enter drills into logs · Esc back "@
        &&& screen::drawn(self.rows@) == history_rows(h.jobs)
        &&& self.selected == h.selected
    }
}

/// Draws the deployments of a branch, where they are shown.
pub fn draw_deployment_history(app: &App) -> (r: Option<HistoryPane>)
    ensures
        match app.deployment_history {
            Some(h) => r matches Some(p) && p.shows(h@),
            None => r is None,
        },
{
    let h = match &app.deployment_history {
        Some(h) => h,
        None => {
            return None;
        },
    };
    let mut summary = start_lines();
    if h.loading && h.jobs.len() == 0 {
        add_row(&mut summary, line1("loading deployments…", color(Color::DarkGray)));
    } else if let Some(e) = &h.error {
        let t = cat2("error: ", e.as_str());
        add_row(&mut summary, line1(t.as_str(), color(Color::Red)));
    } else if h.jobs.len() > 0 {
        add_summary(&mut summary, &h.jobs[0]);
    } else {
        add_row(&mut summary, line1("(no deployments)", color(Color::DarkGray)));
    }
    assert(screen::drawn(summary@) =~= summary_lines(h@));
    let ghost all = history_rows(h.jobs@);
    let mut rows = start_lines();
    let mut i: usize = 0;
    assert(screen::drawn(rows@) =~= all.take(0));
    while i < h.jobs.len()
        invariant
            i <= h.jobs.len(),
            all == history_rows(h.jobs@),
            screen::drawn(rows@) == all.take(i as int),
        decreases h.jobs.len() - i,
    {
        add_row(&mut rows, history_row_of(&h.jobs[i]));
        assert(all.take(i + 1) =~= all.take(i as int) + seq![all[i as int]]);
        i = i + 1;
    }
    assert(all.take(h.jobs@.len() as int) =~= all);
    Some(
        HistoryPane {
            summary_title: cat5(
                " ",
                h.app_name.as_str(),
                " · ",
                h.branch_name.as_str(),
                "  latest deployment ",
            ),
            summary,
            title: cat3(
                " deployment history (",
                dec_size(h.jobs.len()).as_str(),
                ") · Enter drills into logs · Esc back ",
            ),
            rows,
            selected: h.selected,
        },
    )
}

/// The lines of the log of a step.
pub open spec fn step_lines(name: Seq<char>, log: Seq<char>) -> Seq<Seq<(Seq<char>, Style)>> {
    seq![seq![("── "@ + name + " "@, screen::bolded(screen::colored(Color::Yellow)))]] + (if log.len() == 0 {
        seq![seq![("  loading…"@, screen::colored(Color::DarkGray))]]
    } else {
        Seq::new(text::text_lines(log).len(), |i: int| seq![(text::text_lines(log)[i], plain())])
    }) + seq![tabs::gap()]
}

/// The lines of the logs of the first `n` steps.
pub open spec fn steps_lines(steps: Seq<(Seq<char>, Seq<char>)>, n: int) -> Seq<Seq<(Seq<char>, Style)>>
    decreases n,
{
    if n <= 0 {
        Seq::empty()
    } else {
        steps_lines(steps, n - 1) + step_lines(steps[n - 1].0, steps[n - 1].1)
    }
}

/// The number of the deployment whose logs are shown.
pub open spec fn job_label(l: LogsV) -> Seq<char> {
    match l.job_id {
        Some(j) => j,
        None => "?"@,
    }
}

/// The lines of the logs of a deployment.
pub open spec fn logs_lines(l: LogsV) -> Seq<Seq<(Seq<char>, Style)>> {
    let gray = screen::colored(Color::DarkGray);
    seq![
        seq![
            (" "@ + l.branch_name + " "@, screen::bolded(screen::colored(Color::Cyan))),
            ("· "@, plain()),
            (job_label(l), screen::colored(Color::Yellow)),
        ],
    ] + (match l.commit_message {
        Some(m) => seq![seq![(" "@ + amplify::first_line(m), gray)]],
        None => tabs::no_lines(),
    }) + seq![tabs::gap()] + (if l.loading_detail {
        seq![seq![("loading job detail…"@, gray)]]
    } else {
        match l.error {
            Some(e) => seq![seq![("error: "@ + e, screen::colored(Color::Red))]],
            None => if l.steps.len() == 0 {
                seq![seq![("(no steps in this job)"@, gray)]]
            } else {
                steps_lines(l.steps, l.steps.len() as int)
            },
        }
    })
}

fn add_step(out: &mut Vec<Line>, name: &str, log: &str)
    ensures
        screen::drawn(final(out)@) == screen::drawn(old(out)@) + step_lines(name@, log@),
{
    let ghost start = screen::drawn(out@);
    let head = cat3("── ", name, " ");
    add_row(out, line1(head.as_str(), bold(color(Color::Yellow))));
    let ghost first = screen::drawn(out@);
    let ghost all = Seq::new(
        text::text_lines(log@).len(),
        |i: int| seq![(text::text_lines(log@)[i], plain())],
    );
    if log.is_empty() {
        add_row(out, line1("  loading…", color(Color::DarkGray)));
    } else {
        let ls = text::lines(log);
        let mut i: usize = 0;
        assert(first + all.take(0) =~= first);
        while i < ls.len()
            invariant
                i <= ls.len(),
                text::views(ls@) == text::text_lines(log@),
                all == Seq::new(
                    text::text_lines(log@).len(),
                    |i: int| seq![(text::text_lines(log@)[i], plain())],
                ),
                screen::drawn(out@) == first + all.take(i as int),
            decreases ls.len() - i,
        {
            assert(text::views(ls@)[i as int] == ls@[i as int]@);
            add_row(out, line1(ls[i].as_str(), color(Color::Plain)));
            assert(all.take(i + 1) =~= all.take(i as int) + seq![all[i as int]]);
            assert(screen::drawn(out@) =~= first + all.take(i + 1));
            i = i + 1;
        }
        assert(all.take(all.len() as int) =~= all);
    }
    add_row(out, gap_line());
    assert(screen::drawn(out@) =~= start + step_lines(name@, log@));
}

/// The logs of a deployment as they are drawn.
pub struct LogsPane {
    pub title: String,
    pub lines: Vec<Line>,
    pub scroll: u16,
}

impl LogsPane {
    /// It shows the logs `l`.
    pub open spec fn shows(self, l: LogsV) -> bool {
        &&& self.title@ == " logs — "@ + l.branch_name + " · "@ + job_label(l)
            + " (Esc close · j/k scroll · g/G top/bottom) "@
        &&& screen::drawn(self.lines@) == logs_lines(l)
        &&& self.scroll == l.scroll
    }
}

/// Draws the logs of a deployment, where they are shown.
pub fn draw_logs_view(app: &App) -> (r: Option<LogsPane>)
    ensures
        match app.logs_view {
            Some(l) => r matches Some(p) && p.shows(l@),
            None => r is None,
        },
{
    let l = match &app.logs_view {
        Some(l) => l,
        None => {
            return None;
        },
    };
    let gray = color(Color::DarkGray);
    let job = match &l.job_id {
        Some(j) => j.as_str(),
        None => "?",
    };
    let mut lines = start_lines();
    let branch = cat3(" ", l.branch_name.as_str(), " ");
    let head = Line::blank().with(branch.as_str(), bold(color(Color::Cyan))).with(
        "· ",
        color(Color::Plain),
    ).with(job, color(Color::Yellow));
    assert(head@ =~= seq![
        (" "@ + l@.branch_name + " "@, screen::bolded(screen::colored(Color::Cyan))),
        ("· "@, plain()),
        (job_label(l@), screen::colored(Color::Yellow)),
    ]);
    add_row(&mut lines, head);
    if let Some(m) = &l.commit_message {
        let t = cat2(" ", first_line_of(m.as_str()).as_str());
        add_row(&mut lines, line1(t.as_str(), gray));
    }
    add_row(&mut lines, gap_line());
    if l.loading_detail {
        add_row(&mut lines, line1("loading job detail…", gray));
    } else if let Some(e) = &l.error {
        let t = cat2("error: ", e.as_str());
        add_row(&mut lines, line1(t.as_str(), color(Color::Red)));
    } else if l.steps.len() == 0 {
        add_row(&mut lines, line1("(no steps in this job)", gray));
    } else {
        let ghost start = screen::drawn(lines@);
        let ghost steps = l@.steps;
        let mut i: usize = 0;
        assert(start + steps_lines(steps, 0) =~= start);
        while i < l.steps.len()
            invariant
                i <= l.steps.len(),
                steps == l@.steps,
                screen::drawn(lines@) == start + steps_lines(steps, i as int),
            decreases l.steps.len() - i,
        {
            assert(steps[i as int] == (l.steps@[i as int].0@, l.steps@[i as int].1@));
            add_step(&mut lines, l.steps[i].0.as_str(), l.steps[i].1.as_str());
            assert(screen::drawn(lines@) =~= start + steps_lines(steps, i + 1));
            i = i + 1;
        }
    }
    assert(screen::drawn(lines@) =~= logs_lines(l@));
    Some(
        LogsPane {
            title: cat5(
                " logs — ",
                l.branch_name.as_str(),
                " · ",
                job,
                " (Esc close · j/k scroll · g/G top/bottom) ",
            ),
            lines,
            scroll: l.scroll,
        },
    )
}

/// The status line.
pub fn draw_status(app: &App) -> (r: Line)
    ensures
        r@ == tabs::status_row(
            app.status@,
            " ↑↓ move · →← expand/collapse · E/C expand-all/collapse-all · Enter logs · o open on web · L cw-logs · Alt-↑↓ reorder · r refresh "@,
        ),
{
    status_line(
        app.status.as_str(),
        " ↑↓ move · →← expand/collapse · E/C expand-all/collapse-all · Enter logs · o open on web · L cw-logs · Alt-↑↓ reorder · r refresh ",
    )
}

/// Every header tells where an app is.
pub open spec fn headers_in_list(a: AppV, rows: Seq<VisibleRow>) -> bool {
    forall|k: int|
        0 <= k < rows.len() ==> (#[trigger] rows[k] matches VisibleRow::AppHeader {
            items_index,
            expanded,
        } ==> items_index < a.apps.items.len())
}

/// The lines that a row is said to take are the lines that it is drawn with: row
/// `n` begins where the lines of the rows in front of it end.
pub proof fn law_line_starts_match_drawing(a: AppV, rows: Seq<VisibleRow>, starts: Seq<Seq<char>>, n: int)
    requires
        headers_in_list(a, rows),
        starts.len() == rows.len(),
        0 <= n <= rows.len(),
    ensures
        lines_to(a, rows, starts, n).len() == line_start(a, rows, n),
    decreases n,
{
    if n > 0 {
        law_line_starts_match_drawing(a, rows, starts, n - 1);
        let row = rows[n - 1];
        assert(row_lines(a, row, starts[n - 1]).len() == row_height(a, row));
    }
}

proof fn lemma_lines_kept(a: AppV, rows: Seq<VisibleRow>, starts: Seq<Seq<char>>, m: int, n: int, k: int)
    requires
        0 <= m <= n <= rows.len(),
        0 <= k < lines_to(a, rows, starts, m).len(),
    ensures
        k < lines_to(a, rows, starts, n).len(),
        lines_to(a, rows, starts, n)[k] == lines_to(a, rows, starts, m)[k],
    decreases n - m,
{
    if m < n {
        lemma_lines_kept(a, rows, starts, m, n - 1, k);
    }
}

/// The selected line is on the screen, with a frame of two lines and at least one
/// line in it, as far as the list can be scrolled.
pub proof fn law_selected_line_is_in_view(line: int, height: int)
    requires
        3 <= height,
        0 <= line <= u16::MAX + (if height > 4 {
            height - 4
        } else {
            0
        }),
    ensures
        scroll_to(line, height) <= line < scroll_to(line, height) + height - 2,
{
}

/// The line that is marked as selected is the first line of the selected row.
pub proof fn law_selected_line_is_first_of_row(a: AppV, rows: Seq<VisibleRow>, starts: Seq<Seq<char>>, i: int)
    requires
        headers_in_list(a, rows),
        starts.len() == rows.len(),
        0 <= i < rows.len(),
    ensures
        row_lines(a, rows[i], starts[i]).len() > 0,
        line_start(a, rows, i) < lines_to(a, rows, starts, rows.len() as int).len(),
        lines_to(a, rows, starts, rows.len() as int)[line_start(a, rows, i)] == row_lines(
            a,
            rows[i],
            starts[i],
        )[0],
{
    law_line_starts_match_drawing(a, rows, starts, i);
    law_line_starts_match_drawing(a, rows, starts, i + 1);
    lemma_lines_kept(a, rows, starts, i + 1, rows.len() as int, line_start(a, rows, i));
}

/// Every header among the rows of the browser tells where its app is.
pub proof fn law_rows_have_headers_in_list(app: App, now: Option<u64>)
    ensures
        headers_in_list(app@, app@.rows(now)),
{
    app.lemma_rows_valid(now);
}

} // verus!
