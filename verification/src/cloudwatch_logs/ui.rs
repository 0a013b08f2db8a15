//! What the logs browser draws.

use vstd::prelude::*;

use crate::cloudwatch_logs::app::{App, TabState, TabV};
use crate::cloudwatch_logs::log_tail::{LineSeverity, PaneV};
use crate::numeral;
use crate::numeral::dec_size;
use crate::screen;
use crate::screen::{color, line1, Color, Line, Style};
use crate::tabs;
use crate::tabs::{add_row, start_lines, status_line};
use crate::text;
use crate::text::{cat2, cat4, cat5, contains, owned};

verus! {

/// The label of tab `i`: its number, its name, and whether its log is followed.
pub open spec fn tab_label(i: int, t: TabV) -> Seq<char> {
    numeral::decimal((i + 1) as nat) + "."@ + t.name + (if t.pane is Some {
        " · tailing"@
    } else {
        ""@
    })
}

/// The labels of all tabs.
pub fn tab_labels(app: &App) -> (r: Vec<String>)
    ensures
        r.len() == app.tabs.len(),
        forall|i: int| 0 <= i < r.len() ==> (#[trigger] r@[i])@ == tab_label(i, app.tabs@[i]@),
{
    let mut out: Vec<String> = Vec::new();
    let mut i: usize = 0;
    while i < app.tabs.len()
        invariant
            i <= app.tabs.len(),
            out.len() == i,
            forall|k: int| 0 <= k < i ==> (#[trigger] out@[k])@ == tab_label(k, app.tabs@[k]@),
        decreases app.tabs.len() - i,
    {
        let t = &app.tabs[i];
        let suffix = if t.data.pane.is_some() { " · tailing" } else { "" };
        out.push(cat4(dec_size(i + 1).as_str(), ".", t.name.as_str(), suffix));
        i = i + 1;
    }
    out
}

/// The colour of a line.
pub open spec fn shade(s: LineSeverity) -> Color {
    match s {
        LineSeverity::Error => Color::Red,
        LineSeverity::Warn => Color::Yellow,
        LineSeverity::Info => Color::Cyan,
        LineSeverity::Debug => Color::DarkGray,
        LineSeverity::Plain => Color::Gray,
    }
}

fn shade_of(s: LineSeverity) -> (r: Color)
    ensures
        r == shade(s),
{
    match s {
        LineSeverity::Error => Color::Red,
        LineSeverity::Warn => Color::Yellow,
        LineSeverity::Info => Color::Cyan,
        LineSeverity::Debug => Color::DarkGray,
        LineSeverity::Plain => Color::Gray,
    }
}

/// The first line on the screen, where `rows` lines fit.
pub open spec fn first_line(p: PaneV, rows: int) -> int {
    let total = p.lines.len() as int;
    if p.scroll == usize::MAX {
        if total > rows {
            total - rows
        } else {
            0
        }
    } else {
        let room = if rows > 1 {
            rows
        } else {
            1
        };
        let most = if total > room {
            total - room
        } else {
            0
        };
        if p.scroll < most {
            p.scroll
        } else {
            most
        }
    }
}

/// The lines on the screen, where `rows` lines fit.
pub open spec fn shown_lines(p: PaneV, rows: int) -> Seq<Seq<(Seq<char>, Style)>> {
    let start = first_line(p, rows);
    let n = if p.lines.len() - start <= rows {
        p.lines.len() - start
    } else {
        rows
    };
    Seq::new(
        n as nat,
        |i: int| seq![(p.lines[start + i].text, screen::colored(shade(p.lines[start + i].severity)))],
    )
}

/// How many lines fit in an area with a frame.
pub open spec fn rows_in(height: u16) -> int {
    if height > 2 {
        height - 2
    } else {
        0
    }
}

/// The remark where the log of a tab cannot be followed. That there is no such
/// group is explained; everything else is shown as it is.
pub open spec fn error_text(t: TabV, e: Seq<char>) -> Seq<char> {
    if text::has_part(e, "ResourceNotFoundException"@) || text::has_part(e, "does not exist"@) {
        "log group `"@ + t.spec.log_group + "` not found in region "@ + (match t.spec.region {
            Some(r) => r,
            None => "<default>"@,
        })
            + "\n\nlikely causes:\n  • no logs written yet (resource hasn't run / built)\n  • different region — pass --region\n  • retention policy expired the group\n\npress q to quit and try again once logs exist"@
    } else {
        "error: "@ + e
    }
}

/// What a tab looks like: a remark in place of its log, or the lines of its log.
pub enum LogsPane {
    Message { text: String, shade: Color },
    Log { title: String, lines: Vec<Line> },
}

/// A `LogsPane` by its contents.
#[verifier::ext_equal]
pub enum LogsPaneV {
    Message { text: Seq<char>, shade: Color },
    Log { title: Seq<char>, lines: Seq<Seq<(Seq<char>, Style)>> },
}

impl View for LogsPane {
    type V = LogsPaneV;

    open spec fn view(&self) -> LogsPaneV {
        match *self {
            LogsPane::Message { text, shade } => LogsPaneV::Message { text: text@, shade },
            LogsPane::Log { title, lines } => LogsPaneV::Log {
                title: title@,
                lines: screen::drawn(lines@),
            },
        }
    }
}

/// What a tab looks like in `height` lines with its frame.
pub open spec fn logs_pane(t: TabV, height: u16) -> LogsPaneV {
    match t.last_error {
        Some(e) => LogsPaneV::Message { text: error_text(t, e), shade: Color::Red },
        None => match t.pane {
            None => LogsPaneV::Message {
                text: "(spawning `aws logs tail`…)"@,
                shade: Color::DarkGray,
            },
            Some(p) => LogsPaneV::Log {
                title: " "@ + t.name + " · "@ + (match p.log_stream {
                    Some(s) => s,
                    None => p.log_group,
                }) + " "@,
                lines: shown_lines(p, rows_in(height)),
            },
        },
    }
}

/// Draws a tab in `height` lines with its frame.
pub fn draw_logs(tab: &TabState, height: u16) -> (r: LogsPane)
    ensures
        r@ == logs_pane(tab@, height),
{
    if let Some(e) = &tab.data.last_error {
        let e = e.as_str();
        let t = if contains(e, "ResourceNotFoundException") || contains(e, "does not exist") {
            let region = match &tab.spec.region {
                Some(r) => r.as_str(),
                None => "<default>",
            };
            cat5(
                "log group `",
                tab.spec.log_group.as_str(),
                "` not found in region ",
                region,
                "\n\nlikely causes:\n  • no logs written yet (resource hasn't run / built)\n  • different region — pass --region\n  • retention policy expired the group\n\npress q to quit and try again once logs exist",
            )
        } else {
            cat2("error: ", e)
        };
        return LogsPane::Message { text: t, shade: Color::Red };
    }
    let pane = match &tab.data.pane {
        Some(p) => p,
        None => {
            return LogsPane::Message {
                text: owned("(spawning `aws logs tail`…)"),
                shade: Color::DarkGray,
            };
        },
    };
    let ghost p = pane@;
    let rows: usize = if height > 2 { (height - 2) as usize } else { 0 };
    let total: usize = pane.lines.len();
    let start: usize = if pane.scroll == usize::MAX {
        total.saturating_sub(rows)
    } else {
        let most: usize = total.saturating_sub(if rows > 1 { rows } else { 1 });
        if pane.scroll < most {
            pane.scroll
        } else {
            most
        }
    };
    assert(start == first_line(p, rows as int));
    let n: usize = if total - start <= rows { total - start } else { rows };
    let ghost all = shown_lines(p, rows as int);
    let mut lines = start_lines();
    let mut i: usize = 0;
    assert(screen::drawn(lines@) =~= all.take(0));
    while i < n
        invariant
            i <= n,
            start + n <= total,
            total == pane.lines.len(),
            p == pane@,
            start == first_line(p, rows as int),
            n == all.len(),
            all == shown_lines(p, rows as int),
            screen::drawn(lines@) == all.take(i as int),
        decreases n - i,
    {
        let l = &pane.lines[start + i];
        assert(p.lines[start + i] == l@);
        add_row(&mut lines, line1(l.text.as_str(), color(shade_of(l.severity))));
        assert(all.take(i + 1) =~= all.take(i as int) + seq![all[i as int]]);
        i = i + 1;
    }
    assert(all.take(n as int) =~= all);
    let about = match &pane.log_stream {
        Some(s) => s.as_str(),
        None => pane.log_group.as_str(),
    };
    LogsPane::Log { title: cat5(" ", tab.name.as_str(), " · ", about, " "), lines }
}

/// The status line.
pub fn draw_status(app: &App) -> (r: Line)
    ensures
        r@ == tabs::status_row(
            app.status@,
            " 1-9 tab · ↑↓/jk scroll · o console · y line · q quit "@,
        ),
{
    status_line(app.status.as_str(), " 1-9 tab · ↑↓/jk scroll · o console · y line · q quit ")
}

/// While a log is followed its newest line is on the screen, if any line fits.
pub proof fn law_newest_line_is_shown(p: PaneV, rows: int)
    requires
        p.scroll == usize::MAX,
        p.lines.len() > 0,
        rows > 0,
    ensures
        shown_lines(p, rows).len() > 0,
        shown_lines(p, rows).last()[0].0 == p.lines.last().text,
{
}

} // verus!
