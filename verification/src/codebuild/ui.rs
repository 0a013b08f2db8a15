//! What the projects browser draws.

use vstd::prelude::*;

use crate::codebuild::app::{App, AppV};
use crate::codebuild::codebuild;
use crate::codebuild::codebuild::{BuildStatus, CodeBuildRecord, ProjectDetail};
use crate::numeral;
use crate::numeral::dec;
use crate::rows;
use crate::rows::{clamp_scroll, region_line, rows_on_screen};
use crate::screen;
use crate::screen::{bold, color, line1, line2, Color, Line, Style};
use crate::table;
use crate::tabs;
use crate::tabs::{add_row, gap_line, start_lines, status_line};
use crate::text;
use crate::text::{cat2, cat3, cat4, cat6, owned, pad_right, take_chars, text_or_empty};

verus! {

/// The plain style.
pub open spec fn plain() -> Style {
    screen::colored(Color::Plain)
}

/// The colour of a status.
pub open spec fn status_shade(s: BuildStatus) -> Color {
    match s {
        BuildStatus::Succeeded => Color::Green,
        BuildStatus::Failed => Color::Red,
        BuildStatus::Fault => Color::Red,
        BuildStatus::TimedOut => Color::Red,
        BuildStatus::InProgress => Color::Yellow,
        BuildStatus::Stopped => Color::DarkGray,
        BuildStatus::Unknown => Color::DarkGray,
    }
}

pub fn status_color(s: BuildStatus) -> (r: Style)
    ensures
        r == screen::colored(status_shade(s)),
{
    match s {
        BuildStatus::Succeeded => color(Color::Green),
        BuildStatus::Failed => color(Color::Red),
        BuildStatus::Fault => color(Color::Red),
        BuildStatus::TimedOut => color(Color::Red),
        BuildStatus::InProgress => color(Color::Yellow),
        BuildStatus::Stopped => color(Color::DarkGray),
        BuildStatus::Unknown => color(Color::DarkGray),
    }
}

/// How long a build took, in words.
pub open spec fn duration_words(ms: Option<u64>) -> Seq<char> {
    match ms {
        None => "—"@,
        Some(ms) => {
            let s = (ms / 1000) as nat;
            if s < 60 {
                numeral::decimal(s) + "s"@
            } else if s < 3600 {
                numeral::decimal(s / 60) + "m "@ + numeral::decimal(s % 60) + "s"@
            } else {
                numeral::decimal(s / 3600) + "h "@ + numeral::decimal((s % 3600) / 60) + "m"@
            }
        },
    }
}

pub fn format_duration(ms: Option<u64>) -> (r: String)
    ensures
        r@ == duration_words(ms),
{
    match ms {
        None => owned("—"),
        Some(ms) => {
            let s: u64 = ms / 1000;
            if s < 60 {
                cat2(dec(s).as_str(), "s")
            } else if s < 3600 {
                cat4(dec(s / 60).as_str(), "m ", dec(s % 60).as_str(), "s")
            } else {
                cat4(dec(s / 3600).as_str(), "h ", dec((s % 3600) / 60).as_str(), "m")
            }
        },
    }
}

/// How long ago something happened at the time `now`, in words; what is yet to
/// happen has just happened.
pub open spec fn when_words(ms: Option<i64>, now: i64) -> Seq<char> {
    match ms {
        None => "—"@,
        Some(started) => {
            let s = (if now > started {
                (now - started) / 1000
            } else {
                0
            }) as nat;
            if s < 60 {
                numeral::decimal(s) + "s ago"@
            } else if s < 3600 {
                numeral::decimal(s / 60) + "m ago"@
            } else if s < 86_400 {
                numeral::decimal(s / 3600) + "h ago"@
            } else {
                numeral::decimal(s / 86_400) + "d ago"@
            }
        },
    }
}

pub fn format_when(ms: Option<i64>, now: i64) -> (r: String)
    ensures
        r@ == when_words(ms, now),
{
    match ms {
        None => owned("—"),
        Some(started) => {
            let s: u64 = if now > started {
                let d: u128 = ((now as i128) - (started as i128)) as u128;
                (d / 1000) as u64
            } else {
                0
            };
            if s < 60 {
                cat2(dec(s).as_str(), "s ago")
            } else if s < 3600 {
                cat2(dec(s / 60).as_str(), "m ago")
            } else if s < 86_400 {
                cat2(dec(s / 3600).as_str(), "h ago")
            } else {
                cat2(dec(s / 86_400).as_str(), "d ago")
            }
        },
    }
}

/// A build in one phrase: its number, when it started, and how long it took.
pub open spec fn latest_words(b: CodeBuildRecord, now: i64) -> Seq<char> {
    "#"@ + text::padded_right(numeral::decimal(b.build_number as nat), 6) + " "@ + when_words(
        b.started_at_ms,
        now,
    ) + "  "@ + duration_words(b.duration_ms)
}

pub fn format_latest(b: &CodeBuildRecord, now: i64) -> (r: String)
    ensures
        r@ == latest_words(*b, now),
{
    let n = pad_right(dec(b.build_number).as_str(), 6);
    let when = format_when(b.started_at_ms, now);
    let dur = format_duration(b.duration_ms);
    cat6("#", n.as_str(), " ", when.as_str(), "  ", dur.as_str())
}

/// The headings of the columns.
pub open spec fn header() -> Seq<(Seq<char>, Style)> {
    seq![
        (
            "  "@ + text::padded_right("PROJECT"@, 40) + " "@ + text::padded_right("STATUS"@, 12) + " "@
                + text::padded_right("LATEST"@, 40),
            screen::bolded(screen::colored(Color::DarkGray)),
        ),
    ]
}

pub fn header_line() -> (r: Line)
    ensures
        r@ == header(),
{
    let a = pad_right("PROJECT", 40);
    let b = pad_right("STATUS", 12);
    let c = pad_right("LATEST", 40);
    let t = cat6("  ", a.as_str(), " ", b.as_str(), " ", c.as_str());
    line1(t.as_str(), bold(color(Color::DarkGray)))
}

/// The newest build of a project, where there is one.
pub open spec fn latest_of(builds: Option<Vec<CodeBuildRecord>>) -> Option<CodeBuildRecord> {
    match builds {
        Some(b) => if b@.len() > 0 {
            Some(b@[0])
        } else {
            None
        },
        None => None,
    }
}

/// The line of a project in the list. Its builds may not have been read yet, it
/// may have none, or it has a newest one.
pub open spec fn summary_line(
    name: Seq<char>,
    selected: bool,
    expanded: bool,
    builds: Option<Vec<CodeBuildRecord>>,
    now: i64,
) -> Seq<(Seq<char>, Style)> {
    let (glyph, label, style, latest) = match latest_of(builds) {
        Some(b) => (
            codebuild::status_glyph(b.status),
            codebuild::status_label(b.status),
            screen::colored(status_shade(b.status)),
            latest_words(b, now),
        ),
        None => if builds is Some {
            ("-"@, ""@, screen::colored(Color::DarkGray), "(no builds)"@)
        } else {
            ("…"@, ""@, screen::colored(Color::DarkGray), "…"@)
        },
    };
    seq![
        (
            if expanded {
                "▼ "@
            } else {
                "▶ "@
            },
            screen::colored(
                if selected {
                    Color::Cyan
                } else {
                    Color::DarkGray
                },
            ),
        ),
        (
            text::padded_right(text::first_chars(name, 39), 40),
            screen::bolded(
                screen::colored(
                    if selected {
                        Color::Cyan
                    } else {
                        Color::Plain
                    },
                ),
            ),
        ),
        (glyph + " "@, style),
        (text::padded_right(label, 11), style),
        (latest, screen::colored(Color::Gray)),
    ]
}

/// The contents of an optional reference to some builds.
pub open spec fn builds_ref(b: Option<&Vec<CodeBuildRecord>>) -> Option<Vec<CodeBuildRecord>> {
    match b {
        Some(v) => Some(*v),
        None => None,
    }
}

fn summary_line_of(
    name: &str,
    selected: bool,
    expanded: bool,
    builds: Option<&Vec<CodeBuildRecord>>,
    now: i64,
) -> (r: Line)
    ensures
        r@ == summary_line(name@, selected, expanded, builds_ref(builds), now),
{
    let (glyph, label, style, latest) = match builds {
        Some(v) => {
            if v.len() > 0 {
                let b = &v[0];
                (b.status.glyph(), b.status.label(), status_color(b.status), format_latest(b, now))
            } else {
                ("-", "", color(Color::DarkGray), owned("(no builds)"))
            }
        },
        None => ("…", "", color(Color::DarkGray), owned("…")),
    };
    let shown = pad_right(take_chars(name, 39).as_str(), 40);
    let glyph = cat2(glyph, " ");
    let label = pad_right(label, 11);
    let r = Line::blank().with(
        if expanded { "▼ " } else { "▶ " },
        color(if selected { Color::Cyan } else { Color::DarkGray }),
    ).with(shown.as_str(), bold(color(if selected { Color::Cyan } else { Color::Plain }))).with(
        glyph.as_str(),
        style,
    ).with(label.as_str(), style).with(latest.as_str(), color(Color::Gray));
    assert(r@ =~= summary_line(name@, selected, expanded, builds_ref(builds), now));
    r
}

/// A name and a value below a project, where there is a value.
pub open spec fn fact(name: Seq<char>, value: Option<String>, shade: Color) -> Seq<Seq<(Seq<char>, Style)>> {
    match value {
        Some(v) => seq![seq![(name, screen::colored(Color::DarkGray)), (v@, screen::colored(shade))]],
        None => tabs::no_lines(),
    }
}

fn add_fact(out: &mut Vec<Line>, name: &str, value: &Option<String>, shade: Color)
    ensures
        screen::drawn(final(out)@) == screen::drawn(old(out)@) + fact(name@, *value, shade),
{
    match value {
        Some(v) => add_row(out, line2(name, color(Color::DarkGray), v.as_str(), color(shade))),
        None => {
            assert(screen::drawn(out@) + tabs::no_lines() =~= screen::drawn(out@));
        },
    }
}

/// The line about what a project is built from.
pub open spec fn source_line(d: ProjectDetail) -> Seq<(Seq<char>, Style)> {
    seq![
        ("    Source  "@, screen::colored(Color::DarkGray)),
        (text::or_empty(d.source_type), screen::colored(Color::Yellow)),
        ("  "@, plain()),
        (text::or_empty(d.source_location), screen::colored(Color::Gray)),
    ]
}

/// The line about where a project is built, where that is known.
pub open spec fn environment_lines(d: ProjectDetail) -> Seq<Seq<(Seq<char>, Style)>> {
    match d.environment_image {
        Some(img) => seq![
            seq![
                ("    Environment  "@, screen::colored(Color::DarkGray)),
                (img@, screen::colored(Color::White)),
                ("  "@, plain()),
                (text::or_empty(d.compute_type), screen::colored(Color::DarkGray)),
            ],
        ],
        None => tabs::no_lines(),
    }
}

/// The line of a build below its project.
pub open spec fn build_line(b: CodeBuildRecord, now: i64) -> Seq<(Seq<char>, Style)> {
    let gray = screen::colored(Color::DarkGray);
    seq![
        ("      "@, plain()),
        (
            codebuild::status_glyph(b.status) + " "@,
            screen::colored(status_shade(b.status)),
        ),
        (
            "#"@ + text::padded_right(numeral::decimal(b.build_number as nat), 6) + " "@,
            screen::colored(Color::White),
        ),
        (duration_words(b.duration_ms), gray),
        ("  "@, plain()),
        (when_words(b.started_at_ms, now), gray),
        ("  "@, plain()),
        (
            text::first_chars(text::or_empty(b.source_version), 12),
            screen::colored(Color::Yellow),
        ),
    ]
}

fn build_line_of(b: &CodeBuildRecord, now: i64) -> (r: Line)
    ensures
        r@ == build_line(*b, now),
{
    let gray = color(Color::DarkGray);
    let none = color(Color::Plain);
    let glyph = cat2(b.status.glyph(), " ");
    let number = cat3("#", pad_right(dec(b.build_number).as_str(), 6).as_str(), " ");
    let version = take_chars(text_or_empty(&b.source_version), 12);
    let r = Line::blank().with("      ", none).with(glyph.as_str(), status_color(b.status)).with(
        number.as_str(),
        color(Color::White),
    ).with(format_duration(b.duration_ms).as_str(), gray).with("  ", none).with(
        format_when(b.started_at_ms, now).as_str(),
        gray,
    ).with("  ", none).with(version.as_str(), color(Color::Yellow));
    assert(r@ =~= build_line(*b, now));
    r
}

/// The lines of the recent builds of a project.
pub open spec fn builds_lines(builds: Option<Vec<CodeBuildRecord>>, now: i64) -> Seq<Seq<(Seq<char>, Style)>> {
    let gray = screen::colored(Color::DarkGray);
    match builds {
        Some(v) => if v@.len() > 0 {
            Seq::new(v@.len(), |i: int| build_line(v@[i], now))
        } else {
            seq![seq![("      "@, plain()), ("(no builds yet)"@, gray)]]
        },
        None => seq![seq![("      "@, plain()), ("loading builds…"@, gray)]],
    }
}

fn add_builds(out: &mut Vec<Line>, builds: Option<&Vec<CodeBuildRecord>>, now: i64)
    ensures
        screen::drawn(final(out)@) == screen::drawn(old(out)@) + builds_lines(builds_ref(builds), now),
{
    let gray = color(Color::DarkGray);
    let none = color(Color::Plain);
    match builds {
        Some(v) => {
            if v.len() > 0 {
                let ghost start = screen::drawn(out@);
                let ghost all = builds_lines(builds_ref(builds), now);
                let mut i: usize = 0;
                assert(start + all.take(0) =~= start);
                while i < v.len()
                    invariant
                        i <= v.len(),
                        builds_ref(builds) == Some(*v),
                        v.len() > 0,
                        all == builds_lines(builds_ref(builds), now),
                        screen::drawn(out@) == start + all.take(i as int),
                    decreases v.len() - i,
                {
                    add_row(out, build_line_of(&v[i], now));
                    assert(all.take(i + 1) =~= all.take(i as int) + seq![build_line(v@[i as int], now)]);
                    assert(screen::drawn(out@) =~= start + all.take(i + 1));
                    i = i + 1;
                }
                assert(all.take(v@.len() as int) =~= all);
            } else {
                add_row(out, line2("      ", none, "(no builds yet)", gray));
            }
        },
        None => add_row(out, line2("      ", none, "loading builds…", gray)),
    }
}

/// The lines below an expanded project.
pub open spec fn detail_lines(
    detail: Option<ProjectDetail>,
    builds: Option<Vec<CodeBuildRecord>>,
    now: i64,
) -> Seq<Seq<(Seq<char>, Style)>> {
    match detail {
        None => seq![
            seq![("    "@, plain()), ("loading detail…"@, screen::colored(Color::DarkGray))],
        ] + seq![tabs::gap()],
        Some(d) => seq![source_line(d)] + fact("    Buildspec  "@, d.buildspec, Color::White)
            + environment_lines(d) + fact("    Log group  "@, d.log_group, Color::White) + fact(
            "    Service role  "@,
            d.service_role,
            Color::DarkGray,
        ) + seq![tabs::gap()] + seq![
            seq![
                ("    Recent builds"@, screen::bolded(screen::colored(Color::DarkGray))),
            ],
        ] + builds_lines(builds, now) + seq![tabs::gap()],
    }
}

/// The contents of an optional reference to a project.
pub open spec fn detail_ref(d: Option<&ProjectDetail>) -> Option<ProjectDetail> {
    match d {
        Some(x) => Some(*x),
        None => None,
    }
}

fn add_detail_lines(
    out: &mut Vec<Line>,
    detail: Option<&ProjectDetail>,
    builds: Option<&Vec<CodeBuildRecord>>,
    now: i64,
)
    ensures
        screen::drawn(final(out)@) == screen::drawn(old(out)@) + detail_lines(
            detail_ref(detail),
            builds_ref(builds),
            now,
        ),
{
    let ghost start = screen::drawn(out@);
    let gray = color(Color::DarkGray);
    let none = color(Color::Plain);
    match detail {
        None => {
            add_row(out, line2("    ", none, "loading detail…", gray));
            add_row(out, gap_line());
        },
        Some(d) => {
            let first = Line::blank().with("    Source  ", gray).with(
                text_or_empty(&d.source_type),
                color(Color::Yellow),
            ).with("  ", none).with(text_or_empty(&d.source_location), color(Color::Gray));
            assert(first@ =~= source_line(*d));
            add_row(out, first);
            add_fact(out, "    Buildspec  ", &d.buildspec, Color::White);
            let ghost before = screen::drawn(out@);
            match &d.environment_image {
                Some(img) => {
                    let l = Line::blank().with("    Environment  ", gray).with(
                        img.as_str(),
                        color(Color::White),
                    ).with("  ", none).with(text_or_empty(&d.compute_type), gray);
                    assert(seq![l@] =~= environment_lines(*d)) by {
                        assert(l@ =~= environment_lines(*d)[0]);
                    }
                    add_row(out, l);
                },
                None => {},
            }
            assert(screen::drawn(out@) =~= before + environment_lines(*d));
            add_fact(out, "    Log group  ", &d.log_group, Color::White);
            add_fact(out, "    Service role  ", &d.service_role, Color::DarkGray);
            add_row(out, gap_line());
            add_row(out, line1("    Recent builds", bold(gray)));
            add_builds(out, builds, now);
            add_row(out, gap_line());
        },
    }
    assert(screen::drawn(out@) =~= start + detail_lines(detail_ref(detail), builds_ref(builds), now));
}

/// The lines of the project at row `i`.
pub open spec fn row_lines(a: AppV, i: int, now: i64) -> Seq<Seq<(Seq<char>, Style)>> {
    let name = a.projects[i]@;
    let detail = table::looked_up(a.detail_cache, name);
    let builds = table::looked_up(a.builds_cache, name);
    let expanded = a.expanded.contains(name);
    let first = seq![summary_line(name, i == a.selected, expanded, builds, now)];
    if expanded {
        first + detail_lines(detail, builds, now)
    } else {
        first
    }
}

/// The lines of the first `n` projects.
pub open spec fn all_rows(a: AppV, n: int, now: i64) -> Seq<Seq<(Seq<char>, Style)>>
    decreases n,
{
    if n <= 0 {
        Seq::empty()
    } else {
        all_rows(a, n - 1, now) + row_lines(a, n - 1, now)
    }
}

/// How many lines the projects take.
pub open spec fn total_rows(a: AppV, now: i64) -> int {
    all_rows(a, a.projects.len() as int, now).len() as int
}

/// The lines of the list: those of the projects, or a remark where there are
/// none.
pub open spec fn list_lines(a: AppV, now: i64) -> Seq<Seq<(Seq<char>, Style)>> {
    let rows = all_rows(a, a.projects.len() as int, now);
    if a.projects.len() == 0 && !a.pending_projects {
        rows.push(seq![("  (no projects in this region)"@, screen::colored(Color::DarkGray))])
    } else {
        rows
    }
}

/// The state after the list has been drawn at line `y` in `height` lines.
pub open spec fn drawn_list(a: AppV, now: i64, y: int, height: int) -> AppV {
    let scroll = rows::clamped_scroll(a.scroll_offset, total_rows(a, now), height);
    AppV {
        scroll_offset: scroll,
        row_hits: rows::hits(
            |i: int| all_rows(a, i, now).len() as int,
            a.projects.len() as int,
            scroll,
            y,
            height,
        ),
        ..a
    }
}

proof fn lemma_rows_grow(a: AppV, i: int, n: int, now: i64)
    requires
        0 <= i <= n,
    ensures
        all_rows(a, i, now).len() + (n - i) <= all_rows(a, n, now).len(),
    decreases n - i,
{
    if i < n {
        lemma_rows_grow(a, i, n - 1, now);
    }
}

/// The lines of all projects, and where each begins; the last number is where
/// the last one ends.
fn list_rows(app: &App, now: i64) -> (r: (Vec<Line>, Vec<usize>))
    ensures
        screen::drawn(r.0@) == all_rows(app@, app@.projects.len() as int, now),
        r.1.len() == app@.projects.len() + 1,
        forall|j: int| 0 <= j < r.1.len() ==> (#[trigger] r.1@[j]) == all_rows(app@, j, now).len(),
{
    let ghost a = app@;
    let mut out = start_lines();
    let mut bounds: Vec<usize> = vec![0];
    let mut i: usize = 0;
    while i < app.projects.len()
        invariant
            a == app@,
            i <= app.projects.len(),
            bounds.len() == i + 1,
            screen::drawn(out@) == all_rows(a, i as int, now),
            forall|j: int| 0 <= j <= i ==> (#[trigger] bounds@[j]) == all_rows(a, j, now).len(),
        decreases app.projects.len() - i,
    {
        let name = &app.projects[i];
        let expanded = app.expanded.contains(name);
        let detail = app.detail_cache.get(name);
        let builds = app.builds_cache.get(name);
        let l = summary_line_of(name.as_str(), i == app.selected, expanded, builds, now);
        let ghost before = screen::drawn(out@);
        add_row(&mut out, l);
        if expanded {
            add_detail_lines(&mut out, detail, builds, now);
        }
        assert(screen::drawn(out@) =~= before + row_lines(a, i as int, now));
        bounds.push(out.len());
        i = i + 1;
    }
    (out, bounds)
}

/// Draws the list below its headings, in an area that begins at line `area_y`
/// and has `area_height` lines: gives its lines, and notes where its rows are.
/// `now` is the time in milliseconds since the epoch.
pub fn draw_list(app: &mut App, area_y: u16, area_height: u16, now: i64) -> (r: Vec<Line>)
    requires
        area_y < u16::MAX,
        area_y + area_height <= u16::MAX,
    ensures
        screen::drawn(r@) == list_lines(old(app)@, now),
        final(app)@ == drawn_list(
            old(app)@,
            now,
            area_y + 1,
            if area_height > 0 {
                area_height - 1
            } else {
                0
            },
        ),
{
    let y: u16 = area_y + 1;
    let height: u16 = if area_height > 0 { area_height - 1 } else { 0 };
    let ghost a = app@;
    let (lines, bounds) = list_rows(app, now);
    let mut out = lines;
    let total: usize = out.len();
    if app.projects.len() == 0 && !app.pending_projects {
        let ghost before = screen::drawn(out@);
        add_row(&mut out, line1("  (no projects in this region)", color(Color::DarkGray)));
        assert(screen::drawn(out@) =~= before.push(
            seq![("  (no projects in this region)"@, screen::colored(Color::DarkGray))],
        ));
    }
    let scroll: u16 = clamp_scroll(app.scroll_offset, total, height);
    let ghost end = |i: int| all_rows(a, i, now).len() as int;
    proof {
        assert forall|i: int| 0 <= i < bounds.len() - 1 implies #[trigger] end(i) <= end(i + 1) by {
            lemma_rows_grow(a, i, i + 1, now);
        }
    }
    app.row_hits = rows_on_screen(&bounds, scroll, y, height, Ghost(end));
    app.scroll_offset = scroll;
    out
}

/// The status line: the status with the keys, and the region.
pub fn status_lines(app: &App) -> (r: (Line, Line))
    ensures
        r.0@ == tabs::status_row(
            app.status@,
            " ↑↓/jk move · Enter/Space/click expand · s start build · r refresh · q quit "@,
        ),
        r.1@ == seq![(rows::region_text(text::opt_view(app.cfg.region)), screen::colored(Color::Yellow))],
{
    (
        status_line(
            app.status.as_str(),
            " ↑↓/jk move · Enter/Space/click expand · s start build · r refresh · q quit ",
        ),
        region_line(&app.cfg.region),
    )
}

} // verus!
