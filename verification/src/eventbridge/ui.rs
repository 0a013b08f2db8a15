//! What the schedules browser draws.

use vstd::prelude::*;

use crate::eventbridge::app;
use crate::eventbridge::app::{App, AppV, Mode};
use crate::eventbridge::config;
use crate::eventbridge::config::extract_json_path;
use crate::eventbridge::edit;
use crate::eventbridge::edit::EditFocus;
use crate::eventbridge::schedule_expr;
use crate::eventbridge::schedule_expr::humanize;
use crate::eventbridge::schedules::{DetailV, ScheduleDetail, ScheduleSummary};
use crate::json;
use crate::rows;
use crate::rows::{clamp_scroll, region_line, rows_on_screen};
use crate::screen;
use crate::screen::{add_line, bold, color, dim, line1, line2, Color, Line, Style};
use crate::text;
use crate::text::{
    cat2, cat3, chars_of, lines, owned, pad_right, shorten, split, str_eq, take_chars,
};

verus! {

/// The plain style.
pub open spec fn plain() -> Style {
    screen::colored(Color::Plain)
}

fn plain_style() -> (r: Style)
    ensures
        r == plain(),
{
    color(Color::Plain)
}

/// The value of a column: what stands in a target input at a path, or a dash.
pub open spec fn column(input: Seq<char>, path: Seq<char>, width: int) -> Seq<char> {
    let found = match json::json_in_text(input) {
        Some(v) => config::text_at_path(v, path),
        None => None,
    };
    text::shortened(
        match found {
            Some(t) => t,
            None => "-"@,
        },
        width,
    )
}

/// The ENV and BRANCH columns of a schedule: an ellipsis while it has not been
/// read, a dash where it has no target input.
pub open spec fn env_branch(
    cached: Option<DetailV>,
    env_path: Seq<char>,
    branch_path: Seq<char>,
) -> (Seq<char>, Seq<char>) {
    match cached {
        None => ("…"@, "…"@),
        Some(d) => match d.target.input {
            None => ("-"@, "-"@),
            Some(input) => (column(input, env_path, 8), column(input, branch_path, 20)),
        },
    }
}

fn column_of(input: &str, path: &str, width: usize) -> (r: String)
    ensures
        r@ == column(input@, path@, width as int),
{
    match extract_json_path(input, path) {
        Some(t) => shorten(t.as_str(), width),
        None => shorten("-", width),
    }
}

/// The contents of an optional reference to a schedule.
pub open spec fn detail_ref(d: Option<&ScheduleDetail>) -> Option<DetailV> {
    match d {
        Some(d) => Some(d@),
        None => None,
    }
}

pub fn extract_env_branch(cached: Option<&ScheduleDetail>, env_path: &str, branch_path: &str) -> (r: (
    String,
    String,
))
    ensures
        (r.0@, r.1@) == env_branch(detail_ref(cached), env_path@, branch_path@),
{
    match cached {
        None => (owned("…"), owned("…")),
        Some(d) => match &d.target.input {
            None => (owned("-"), owned("-")),
            Some(input) => (
                column_of(input.as_str(), env_path, 8),
                column_of(input.as_str(), branch_path, 20),
            ),
        },
    }
}

/// `s` if it has at most `max` characters, else its beginning and an ellipsis.
pub fn truncate(s: &str, max: usize) -> (r: String)
    ensures
        r@ == text::shortened(s@, max as int),
{
    shorten(s, max)
}

/// The headings of the columns.
pub open spec fn header() -> Seq<(Seq<char>, Style)> {
    seq![
        (
            "  "@ + text::padded_right("NAME"@, 32) + " "@ + text::padded_right("STATE"@, 10) + " "@
                + text::padded_right("ENV"@, 8) + " "@ + text::padded_right("BRANCH"@, 20) + " "@
                + text::padded_right("SCHEDULE"@, 40),
            screen::bolded(screen::colored(Color::DarkGray)),
        ),
    ]
}

pub fn header_line() -> (r: Line)
    ensures
        r@ == header(),
{
    let a = cat3("  ", pad_right("NAME", 32).as_str(), " ");
    let b = cat3(a.as_str(), pad_right("STATE", 10).as_str(), " ");
    let c = cat3(b.as_str(), pad_right("ENV", 8).as_str(), " ");
    let d = cat3(c.as_str(), pad_right("BRANCH", 20).as_str(), " ");
    let e = cat2(d.as_str(), pad_right("SCHEDULE", 40).as_str());
    line1(e.as_str(), bold(color(Color::DarkGray)))
}

/// The colour of a schedule's state.
pub open spec fn state_color(state: Seq<char>) -> Color {
    if state == "ENABLED"@ {
        Color::Green
    } else if state == "DISABLED"@ {
        Color::DarkGray
    } else {
        Color::Yellow
    }
}

fn state_color_of(state: &str) -> (r: Color)
    ensures
        r == state_color(state@),
{
    if str_eq(state, "ENABLED") {
        Color::Green
    } else if str_eq(state, "DISABLED") {
        Color::DarkGray
    } else {
        Color::Yellow
    }
}

/// The line of a schedule in the list.
pub open spec fn summary_line(
    s: ScheduleSummary,
    selected: bool,
    expanded: bool,
    cached: Option<DetailV>,
    env_path: Seq<char>,
    branch_path: Seq<char>,
) -> Seq<(Seq<char>, Style)> {
    let cols = env_branch(cached, env_path, branch_path);
    let human = match cached {
        Some(d) => schedule_expr::humanized(d.schedule_expression, d.schedule_expression_timezone),
        None => "…"@,
    };
    seq![
        (
            if expanded {
                "▼ "@
            } else {
                "▶ "@
            },
            screen::colored(
                if selected {
                    Color::Cyan
                } else {
                    Color::DarkGray
                },
            ),
        ),
        (
            text::padded_right(text::first_chars(s.name@, 31), 32),
            screen::bolded(
                screen::colored(
                    if selected {
                        Color::Cyan
                    } else {
                        Color::Plain
                    },
                ),
            ),
        ),
        (text::padded_right(s.state@, 10) + " "@, screen::colored(state_color(s.state@))),
        (text::padded_right(cols.0, 8) + " "@, screen::colored(Color::Yellow)),
        (text::padded_right(cols.1, 20) + " "@, screen::colored(Color::Cyan)),
        (human, screen::colored(Color::Gray)),
    ]
}

/// The lines of a target input, each moved to the right.
pub open spec fn input_lines(ls: Seq<Seq<char>>) -> Seq<Seq<(Seq<char>, Style)>> {
    Seq::new(
        ls.len(),
        |i: int| seq![("      "@, plain()), (ls[i], screen::colored(Color::Gray))],
    )
}

/// The lines below an expanded schedule.
pub open spec fn detail_lines(cached: Option<DetailV>) -> Seq<Seq<(Seq<char>, Style)>> {
    let gray = screen::colored(Color::DarkGray);
    match cached {
        None => seq![
            seq![("    "@, plain()), ("loading detail…"@, gray)],
            seq![(""@, plain())],
        ],
        Some(d) => {
            let input = match d.target.input {
                Some(s) => s,
                None => Seq::empty(),
            };
            seq![
                seq![
                    ("    "@, plain()),
                    ("Group  "@, gray),
                    (d.group_name, screen::colored(Color::Yellow)),
                    ("    "@, plain()),
                    ("TZ  "@, gray),
                    (d.schedule_expression_timezone, plain()),
                ],
                seq![
                    ("    "@, plain()),
                    ("Schedule expression  "@, gray),
                    (d.schedule_expression, screen::colored(Color::White)),
                ],
                seq![("    Target Input (JSON)"@, gray)],
            ] + (if input.len() == 0 {
                seq![seq![("      "@, plain()), ("(none)"@, gray)]]
            } else {
                input_lines(text::text_lines(input))
            }) + seq![seq![(""@, plain())]]
        },
    }
}

/// The lines of the schedule at row `i`.
pub open spec fn row_lines(a: AppV, i: int) -> Seq<Seq<(Seq<char>, Style)>> {
    let s = a.schedules[i];
    let k = app::key_of(s);
    let cached = if a.detail_cache.dom().contains(k) {
        Some(a.detail_cache[k])
    } else {
        None
    };
    let expanded = a.expanded.contains(k);
    let first = seq![
        summary_line(s, i == a.selected, expanded, cached, a.cfg.env_path@, a.cfg.branch_path@),
    ];
    if expanded {
        first + detail_lines(cached)
    } else {
        first
    }
}

/// The lines of the first `n` schedules.
pub open spec fn all_rows(a: AppV, n: int) -> Seq<Seq<(Seq<char>, Style)>>
    decreases n,
{
    if n <= 0 {
        Seq::empty()
    } else {
        all_rows(a, n - 1) + row_lines(a, n - 1)
    }
}

/// How many lines the schedules take.
pub open spec fn total_rows(a: AppV) -> int {
    all_rows(a, a.schedules.len() as int).len() as int
}

/// The lines of the list: those of the schedules, or a remark where there are
/// none.
pub open spec fn list_lines(a: AppV) -> Seq<Seq<(Seq<char>, Style)>> {
    let rows = all_rows(a, a.schedules.len() as int);
    if a.schedules.len() == 0 && !a.pending_list {
        rows.push(seq![("  (no schedules in this region)"@, screen::colored(Color::DarkGray))])
    } else {
        rows
    }
}

fn summary_line_of(
    s: &ScheduleSummary,
    selected: bool,
    expanded: bool,
    cached: Option<&ScheduleDetail>,
    env_path: &str,
    branch_path: &str,
) -> (r: Line)
    ensures
        r@ == summary_line(*s, selected, expanded, detail_ref(cached), env_path@, branch_path@),
{
    let (env, branch) = extract_env_branch(cached, env_path, branch_path);
    let human = match cached {
        Some(d) => humanize(d.schedule_expression.as_str(), d.schedule_expression_timezone.as_str()),
        None => owned("…"),
    };
    let name = pad_right(take_chars(s.name.as_str(), 31).as_str(), 32);
    let state = cat2(pad_right(s.state.as_str(), 10).as_str(), " ");
    let env = cat2(pad_right(env.as_str(), 8).as_str(), " ");
    let branch = cat2(pad_right(branch.as_str(), 20).as_str(), " ");
    let r = Line::blank().with(
        if expanded { "▼ " } else { "▶ " },
        color(if selected { Color::Cyan } else { Color::DarkGray }),
    ).with(name.as_str(), bold(color(if selected { Color::Cyan } else { Color::Plain }))).with(
        state.as_str(),
        color(state_color_of(s.state.as_str())),
    ).with(env.as_str(), color(Color::Yellow)).with(branch.as_str(), color(Color::Cyan)).with(
        human.as_str(),
        color(Color::Gray),
    );
    assert(r@ =~= summary_line(*s, selected, expanded, detail_ref(cached), env_path@, branch_path@));
    r
}

fn add_detail_lines(out: &mut Vec<Line>, cached: Option<&ScheduleDetail>)
    ensures
        screen::drawn(final(out)@) == screen::drawn(old(out)@) + detail_lines(detail_ref(cached)),
{
    let gray = color(Color::DarkGray);
    let none = plain_style();
    let ghost start = screen::drawn(out@);
    match cached {
        None => {
            add_line(out, line2("    ", none, "loading detail…", gray));
            add_line(out, line1("", none));
        },
        Some(d) => {
            let first = Line::blank().with("    ", none).with("Group  ", gray).with(
                d.group_name.as_str(),
                color(Color::Yellow),
            ).with("    ", none).with("TZ  ", gray).with(d.schedule_expression_timezone.as_str(), none);
            let second = Line::blank().with("    ", none).with("Schedule expression  ", gray).with(
                d.schedule_expression.as_str(),
                color(Color::White),
            );
            let ghost g = screen::colored(Color::DarkGray);
            assert(first@ =~= seq![
                ("    "@, plain()),
                ("Group  "@, g),
                (d@.group_name, screen::colored(Color::Yellow)),
                ("    "@, plain()),
                ("TZ  "@, g),
                (d@.schedule_expression_timezone, plain()),
            ]);
            assert(second@ =~= seq![
                ("    "@, plain()),
                ("Schedule expression  "@, g),
                (d@.schedule_expression, screen::colored(Color::White)),
            ]);
            add_line(out, first);
            add_line(out, second);
            add_line(out, line1("    Target Input (JSON)", gray));
            let input = match &d.target.input {
                Some(s) => s.as_str(),
                None => "",
            };
            proof {
                reveal_strlit("");
            }
            let ghost mid = screen::drawn(out@);
            if input.is_empty() {
                add_line(out, line2("      ", none, "(none)", gray));
                assert(screen::drawn(out@) =~= mid + seq![
                    seq![("      "@, plain()), ("(none)"@, g)],
                ]);
            } else {
                let ls = lines(input);
                let ghost texts = text::text_lines(input@);
                let mut i: usize = 0;
                assert(mid + input_lines(texts).take(0) =~= mid);
                while i < ls.len()
                    invariant
                        i <= ls.len(),
                        none == plain(),
                        text::views(ls@) == texts,
                        screen::drawn(out@) == mid + input_lines(texts).take(i as int),
                    decreases ls.len() - i,
                {
                    add_line(out, line2("      ", none, ls[i].as_str(), color(Color::Gray)));
                    assert(texts[i as int] == ls@[i as int]@);
                    assert(input_lines(texts).take(i + 1) =~= input_lines(texts).take(i as int).push(
                        input_lines(texts)[i as int],
                    ));
                    assert(screen::drawn(out@) =~= mid + input_lines(texts).take(i + 1));
                    i = i + 1;
                }
                assert(input_lines(texts).take(texts.len() as int) =~= input_lines(texts));
            }
            add_line(out, line1("", none));
        },
    }
    assert(screen::drawn(out@) =~= start + detail_lines(detail_ref(cached)));
}

/// The state after the list has been drawn at line `y` in `height` lines.
pub open spec fn drawn_list(a: AppV, y: int, height: int) -> AppV {
    let scroll = rows::clamped_scroll(a.scroll_offset, total_rows(a), height);
    AppV {
        scroll_offset: scroll,
        row_hits: rows::hits(
            |i: int| all_rows(a, i).len() as int,
            a.schedules.len() as int,
            scroll,
            y,
            height,
        ),
        ..a
    }
}

proof fn lemma_rows_grow(a: AppV, i: int, n: int)
    requires
        0 <= i <= n,
    ensures
        all_rows(a, i).len() + (n - i) <= all_rows(a, n).len(),
    decreases n - i,
{
    if i < n {
        lemma_rows_grow(a, i, n - 1);
    }
}

/// The lines of all schedules, and where each begins; the last number is where
/// the last one ends.
fn list_rows(app: &App) -> (r: (Vec<Line>, Vec<usize>))
    ensures
        screen::drawn(r.0@) == all_rows(app@, app@.schedules.len() as int),
        r.1.len() == app@.schedules.len() + 1,
        forall|j: int| 0 <= j < r.1.len() ==> (#[trigger] r.1@[j]) == all_rows(app@, j).len(),
{
    let ghost a = app@;
    let mut out: Vec<Line> = Vec::new();
    let mut bounds: Vec<usize> = vec![0];
    let mut i: usize = 0;
    assert(screen::drawn(out@) =~= all_rows(a, 0));
    while i < app.schedules.len()
        invariant
            a == app@,
            i <= app.schedules.len(),
            bounds.len() == i + 1,
            screen::drawn(out@) == all_rows(a, i as int),
            forall|j: int| 0 <= j <= i ==> (#[trigger] bounds@[j]) == all_rows(a, j).len(),
        decreases app.schedules.len() - i,
    {
        let s = &app.schedules[i];
        let key = (s.name.clone(), s.group_name.clone());
        let expanded = app.expanded.contains(&key);
        let cached = app.detail_cache.get(&key);
        let l = summary_line_of(
            s,
            i == app.selected,
            expanded,
            cached,
            app.cfg.env_path.as_str(),
            app.cfg.branch_path.as_str(),
        );
        let ghost before = screen::drawn(out@);
        add_line(&mut out, l);
        if expanded {
            add_detail_lines(&mut out, cached);
        }
        assert(screen::drawn(out@) =~= before + row_lines(a, i as int));
        bounds.push(out.len());
        i = i + 1;
    }
    (out, bounds)
}

/// Draws the list below its headings, in an area that begins at line `area_y`
/// and has `area_height` lines: gives its lines, and notes where its rows are.
pub fn draw_list(app: &mut App, area_y: u16, area_height: u16) -> (r: Vec<Line>)
    requires
        area_y < u16::MAX,
        area_y + area_height <= u16::MAX,
    ensures
        screen::drawn(r@) == list_lines(old(app)@),
        final(app)@ == drawn_list(
            old(app)@,
            area_y + 1,
            if area_height > 0 {
                area_height - 1
            } else {
                0
            },
        ),
        final(app).edit == old(app).edit,
{
    let y: u16 = area_y + 1;
    let height: u16 = if area_height > 0 { area_height - 1 } else { 0 };
    let ghost a = app@;
    let (lines, bounds) = list_rows(app);
    let mut out = lines;
    let total: usize = out.len();
    if app.schedules.len() == 0 && !app.pending_list {
        add_line(&mut out, line1("  (no schedules in this region)", color(Color::DarkGray)));
    }
    let scroll: u16 = clamp_scroll(app.scroll_offset, total, height);
    let ghost end = |i: int| all_rows(a, i).len() as int;
    proof {
        assert forall|i: int| 0 <= i < bounds.len() - 1 implies #[trigger] end(i) <= end(i + 1) by {
            lemma_rows_grow(a, i, i + 1);
        }
    }
    app.row_hits = rows_on_screen(&bounds, scroll, y, height, Ghost(end));
    app.scroll_offset = scroll;
    out
}

/// The title of the editor.
pub fn edit_title(app: &App) -> (r: String)
    ensures
        r@ == " Edit — "@ + app@.selected_name() + " "@,
{
    cat3(" Edit — ", app.selected_name().as_str(), " ")
}

/// A heading of the editor; the one of the field with the focus is marked.
pub open spec fn heading(focused: bool, marked: Seq<char>, unmarked: Seq<char>) -> Seq<(Seq<char>, Style)> {
    seq![
        (
            if focused {
                marked
            } else {
                unmarked
            },
            screen::bolded(
                screen::colored(
                    if focused {
                        Color::Cyan
                    } else {
                        Color::DarkGray
                    },
                ),
            ),
        ),
    ]
}

/// The lines of a text that is edited.
pub open spec fn field_lines(ls: Seq<Seq<char>>) -> Seq<Seq<(Seq<char>, Style)>> {
    Seq::new(
        ls.len(),
        |i: int| seq![("    "@, plain()), (ls[i], screen::colored(Color::White))],
    )
}

/// The lines of the editor: the expression, what it means, and the input.
pub open spec fn overlay_lines(a: AppV) -> Seq<Seq<(Seq<char>, Style)>> {
    let tz = match a.detail {
        Some(d) => d.schedule_expression_timezone,
        None => Seq::empty(),
    };
    seq![
        heading(
            a.edit.focus == EditFocus::Expression,
            "▸ Schedule expression"@,
            "  Schedule expression"@,
        ),
        seq![("    "@, plain()), (a.edit.expression.text, screen::colored(Color::White))],
        seq![
            ("    "@, plain()),
            (
                schedule_expr::humanized(a.edit.expression.text, tz),
                screen::colored(Color::DarkGray),
            ),
        ],
        seq![(""@, plain())],
        heading(
            a.edit.focus == EditFocus::Input,
            "▸ Target Input (JSON)"@,
            "  Target Input (JSON)"@,
        ),
    ] + field_lines(text::split_at_char(a.edit.input.text, '\n'))
}

/// How many `c` there are in `s`.
pub open spec fn count_char(s: Seq<char>, c: char) -> int
    decreases s.len(),
{
    if s.len() == 0 {
        0
    } else {
        count_char(s.drop_last(), c) + (if s.last() == c {
            1int
        } else {
            0
        })
    }
}

/// Where the cursor stands among the lines of the editor: column and line. The
/// numbers are counted modulo two to the sixteenth, as a terminal counts.
pub open spec fn cursor_cell(a: AppV) -> (int, int) {
    match a.edit.focus {
        EditFocus::Expression => (4 + a.edit.expression.pos % 0x1_0000, 1),
        EditFocus::Input => {
            let f = a.edit.input;
            (
                4 + (f.pos - edit::line_start(f.text, f.pos)) % 0x1_0000,
                5 + count_char(f.text.take(f.pos), '\n') % 0x1_0000,
            )
        },
    }
}

/// A cell moved into an area, and held inside it.
pub open spec fn held(origin: int, extent: int, at: int) -> int {
    let limit = origin + (if extent > 0 {
        extent - 1
    } else {
        0
    });
    let there = if origin + at > u16::MAX {
        u16::MAX as int
    } else {
        origin + at
    };
    if there <= limit {
        there
    } else {
        limit
    }
}

fn heading_line(focused: bool, marked: &str, unmarked: &str) -> (r: Line)
    ensures
        r@ == heading(focused, marked@, unmarked@),
{
    let c = if focused { Color::Cyan } else { Color::DarkGray };
    line1(if focused { marked } else { unmarked }, bold(color(c)))
}

/// The lines of the editor.
pub fn edit_overlay_lines(app: &App) -> (r: Vec<Line>)
    ensures
        screen::drawn(r@) == overlay_lines(app@),
{
    let none = plain_style();
    let mut out: Vec<Line> = Vec::new();
    let on_expression = app.edit.focus == EditFocus::Expression;
    let on_input = app.edit.focus == EditFocus::Input;
    add_line(&mut out, heading_line(on_expression, "▸ Schedule expression", "  Schedule expression"));
    add_line(&mut out, line2("    ", none, app.edit.expression.as_str(), color(Color::White)));
    let tz = match &app.detail {
        Some(d) => d.schedule_expression_timezone.clone(),
        None => String::new(),
    };
    let human = humanize(app.edit.expression.as_str(), tz.as_str());
    add_line(&mut out, line2("    ", none, human.as_str(), color(Color::DarkGray)));
    add_line(&mut out, line1("", none));
    add_line(&mut out, heading_line(on_input, "▸ Target Input (JSON)", "  Target Input (JSON)"));
    let ghost head = screen::drawn(out@);
    let ls = split(app.edit.input.as_str(), '\n');
    let ghost texts = text::split_at_char(app.edit.input@, '\n');
    let mut i: usize = 0;
    assert(head + field_lines(texts).take(0) =~= head);
    while i < ls.len()
        invariant
            i <= ls.len(),
            none == plain(),
            text::views(ls@) == texts,
            screen::drawn(out@) == head + field_lines(texts).take(i as int),
        decreases ls.len() - i,
    {
        add_line(&mut out, line2("    ", none, ls[i].as_str(), color(Color::White)));
        assert(texts[i as int] == ls@[i as int]@);
        assert(field_lines(texts).take(i + 1) =~= field_lines(texts).take(i as int).push(
            field_lines(texts)[i as int],
        ));
        assert(screen::drawn(out@) =~= head + field_lines(texts).take(i + 1));
        i = i + 1;
    }
    assert(field_lines(texts).take(texts.len() as int) =~= field_lines(texts));
    assert(screen::drawn(out@) =~= overlay_lines(app@));
    out
}

fn newlines_before(v: &Vec<char>, p: usize) -> (r: usize)
    requires
        p <= v.len(),
    ensures
        r == count_char(v@.take(p as int), '\n'),
        r <= p,
{
    let mut n: usize = 0;
    let mut i: usize = 0;
    assert(v@.take(0) =~= Seq::empty());
    while i < p
        invariant
            i <= p <= v.len(),
            n == count_char(v@.take(i as int), '\n'),
            n <= i,
        decreases p - i,
    {
        assert(v@.take(i + 1).drop_last() =~= v@.take(i as int));
        if v[i] == '\n' {
            n = n + 1;
        }
        i = i + 1;
    }
    n
}

/// The last column and the last line of an area can be counted, and so can the
/// column and the line of the cursor.
pub open spec fn cursor_fits(a: AppV, x: u16, y: u16, width: u16, height: u16) -> bool {
    &&& x + width <= u16::MAX + 1
    &&& y + height <= u16::MAX + 1
    &&& cursor_cell(a).0 <= u16::MAX
    &&& cursor_cell(a).1 <= u16::MAX
}

/// The column and the line of the cursor.
fn cell_of_cursor(app: &App) -> (r: (u32, u32))
    requires
        app.edit.wf(),
    ensures
        r.0 == cursor_cell(app@).0,
        r.1 == cursor_cell(app@).1,
{
    let col: usize = app.edit.visual_col();
    let p: usize = app.edit.pos_in_focus();
    let (text, _) = app.edit.focused();
    match app.edit.focus {
        EditFocus::Expression => (4 + ((p % 0x1_0000) as u32), 1),
        EditFocus::Input => {
            let n: usize = newlines_before(&chars_of(text), p);
            (4 + ((col % 0x1_0000) as u32), 5 + ((n % 0x1_0000) as u32))
        },
    }
}

/// Whether the terminal's cursor can be put somewhere in an area at (`x`, `y`)
/// that is `width` wide and `height` high.
pub fn edit_cursor_fits(app: &App, x: u16, y: u16, width: u16, height: u16) -> (r: bool)
    requires
        app.edit.wf(),
    ensures
        r == cursor_fits(app@, x, y, width, height),
{
    let (cx, cy): (u32, u32) = cell_of_cursor(app);
    (x as u32) + (width as u32) <= 0x1_0000 && (y as u32) + (height as u32) <= 0x1_0000 && cx <= 0xffff
        && cy <= 0xffff
}

/// Where the terminal's cursor is put, in an area at (`x`, `y`) that is
/// `width` wide and `height` high.
pub fn edit_cursor(app: &App, x: u16, y: u16, width: u16, height: u16) -> (r: (u16, u16))
    requires
        app.edit.wf(),
        cursor_fits(app@, x, y, width, height),
    ensures
        r.0 == held(x as int, width as int, cursor_cell(app@).0),
        r.1 == held(y as int, height as int, cursor_cell(app@).1),
{
    let (cx, cy): (u32, u32) = cell_of_cursor(app);
    let right: u16 = x + width.saturating_sub(1);
    let bottom: u16 = y + height.saturating_sub(1);
    let px: u16 = x.saturating_add(cx as u16);
    let py: u16 = y.saturating_add(cy as u16);
    (if px <= right { px } else { right }, if py <= bottom { py } else { bottom })
}

/// The keys that can be pressed.
pub open spec fn hint(mode: Mode) -> Seq<char> {
    match mode {
        Mode::Browse =>
            " ↑↓/jk move · Enter/Space/click expand · e edit · t enable/disable · r refresh · q quit "@,
        Mode::Edit => " Tab focus · Ctrl+S save · Esc cancel "@,
        Mode::Saving => " saving… "@,
    }
}

/// The status line: the status with the keys, and the region.
pub fn status_lines(app: &App) -> (r: (Line, Line))
    ensures
        r.0@ == seq![
            (" "@ + app.status@ + " "@, screen::colored(Color::White)),
            (hint(app.mode), screen::dimmed(screen::colored(Color::DarkGray))),
        ],
        r.1@ == seq![(rows::region_text(text::opt_view(app.cfg.region)), screen::colored(Color::Yellow))],
{
    let hint = match app.mode {
        Mode::Browse =>
            " ↑↓/jk move · Enter/Space/click expand · e edit · t enable/disable · r refresh · q quit ",
        Mode::Edit => " Tab focus · Ctrl+S save · Esc cancel ",
        Mode::Saving => " saving… ",
    };
    let status = cat3(" ", app.status.as_str(), " ");
    (
        line2(status.as_str(), color(Color::White), hint, dim(color(Color::DarkGray))),
        region_line(&app.cfg.region),
    )
}

} // verus!
