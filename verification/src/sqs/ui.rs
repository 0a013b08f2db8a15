//! What the queues browser draws.

use vstd::prelude::*;

use crate::clock;
use crate::numeral;
use crate::numeral::{dec, dec_size};
use crate::screen;
use crate::screen::{color, dim, line1, Color, Line, Style};
use crate::sqs::app::{App, TabState};
use crate::sqs::sqs;
use crate::sqs::sqs::{fmt_duration_secs, fmt_epoch_secs, Queue};
use crate::tabs;
use crate::tabs::{
    add_detail, add_indented, add_opt, add_row, add_section, body_rows, gap_line, placeholder_line,
    row_line, show_rows, start_lines, status_line, Pane,
};
use crate::text;
use crate::text::{cat2, cat3, lines, shorten};

verus! {

/// The number of messages of one kind, or 0.
pub open spec fn count(q: Queue, key: Seq<char>) -> nat {
    match q.attributes {
        Some(a) => sqs::or_zero(sqs::as_number(a.attr(key))),
        None => 0,
    }
}

/// The colour of a queue: yellow where many messages wait or are in flight.
pub open spec fn queue_color(q: Queue) -> Color {
    if q.attributes is None {
        Color::DarkGray
    } else if count(q, "ApproximateNumberOfMessages"@) > 1000 || count(
        q,
        "ApproximateNumberOfMessagesNotVisible"@,
    ) > 100 {
        Color::Yellow
    } else {
        Color::Gray
    }
}

pub fn state_color_for(q: &Queue) -> (r: Style)
    ensures
        r == screen::colored(queue_color(*q)),
{
    match &q.attributes {
        None => color(Color::DarkGray),
        Some(a) => {
            let visible: u64 = match a.approximate_messages() {
                Some(n) => n,
                None => 0,
            };
            let in_flight: u64 = match a.approximate_messages_not_visible() {
                Some(n) => n,
                None => 0,
            };
            if visible > 1000 || in_flight > 100 {
                color(Color::Yellow)
            } else {
                color(Color::Gray)
            }
        },
    }
}

/// The line of the queue at row `i`.
pub open spec fn queue_row(q: Seq<Queue>, selected: int, i: int) -> Seq<(Seq<char>, Style)> {
    tabs::plain_row(
        i == selected,
        text::after_last(q[i].url@, '/'),
        28,
        sqs::queue_label(q[i]),
        screen::colored(queue_color(q[i])),
    )
}

/// The list of queues in a frame that is `height` lines high.
pub fn draw_list(tab: &TabState, height: u16) -> (r: Pane)
    ensures
        match tabs::placeholder(tab.data@, "(none)"@) {
            Some(l) => r.title@ == " queues "@ && screen::drawn(r.lines@) == seq![l],
            None => {
                &&& r.title@ == " queues ("@ + numeral::decimal(tab.data@.items.len()) + ") "@
                &&& screen::drawn(r.lines@) == tabs::shown_rows(
                    |i: int| queue_row(tab.data@.items, tab.data@.selected, i),
                    tab.data@.selected,
                    tab.data@.items.len() as int,
                    if height >= 2 {
                        height - 2
                    } else {
                        0
                    },
                )
            },
        },
{
    match placeholder_line(&tab.data, "(none)") {
        Some(l) => {
            let mut out = start_lines();
            add_row(&mut out, l);
            assert(screen::drawn(out@) =~= seq![l@]);
            Pane { title: text::owned(" queues "), lines: out }
        },
        None => {
            let items = &tab.data.items;
            let n: usize = items.len();
            let selected: usize = tab.data.selected;
            let draw = |i: usize| -> (l: Line)
                requires
                    i < items.len(),
                ensures
                    l@ == queue_row(items@, selected as int, i as int),
            {
                let q = &items[i];
                let name = q.primary_label();
                let about = q.secondary_label();
                row_line(i == selected, name.as_str(), 28, about.as_str(), state_color_for(q))
            };
            let rows = show_rows(
                n,
                selected,
                body_rows(height),
                draw,
                Ghost(|i: int| queue_row(tab.data@.items, tab.data@.selected, i)),
            );
            Pane { title: cat3(" queues (", dec_size(n).as_str(), ") "), lines: rows }
        },
    }
}

/// A number in decimal, or a dash.
pub open spec fn number_or_dash(n: Option<nat>) -> Seq<char> {
    match n {
        Some(k) => numeral::decimal(k),
        None => "—"@,
    }
}

fn number_text(n: Option<u64>) -> (r: String)
    ensures
        forall|k: Option<nat>| sqs::is_u64(n, k) ==> r@ == number_or_dash(k),
{
    match n {
        Some(k) => dec(k),
        None => text::owned("—"),
    }
}

/// A number in decimal where it is greater than 0.
pub open spec fn if_positive(n: Option<nat>) -> Option<Seq<char>> {
    match n {
        Some(k) => if k > 0 {
            Some(numeral::decimal(k))
        } else {
            None
        },
        None => None,
    }
}

fn positive_text(n: Option<u64>) -> (r: Option<String>)
    ensures
        forall|k: Option<nat>| sqs::is_u64(n, k) ==> text::opt_view(r) == if_positive(k),
{
    match n {
        Some(k) => {
            if k > 0 {
                Some(dec(k))
            } else {
                None
            }
        },
        None => None,
    }
}

/// A span of seconds in words, where there is one.
pub open spec fn span_of(n: Option<nat>) -> Option<Seq<char>> {
    match n {
        Some(k) => Some(clock::span_words(k)),
        None => None,
    }
}

fn span_opt(n: Option<u64>) -> (r: Option<String>)
    ensures
        forall|k: Option<nat>| sqs::is_u64(n, k) ==> text::opt_view(r) == span_of(k),
{
    match n {
        Some(k) => Some(fmt_duration_secs(k)),
        None => None,
    }
}

/// A point in time, where it can be read.
pub open spec fn time_of(s: Option<Seq<char>>) -> Option<Seq<char>> {
    match s {
        Some(t) => match numeral::parsed_signed(t) {
            Some(n) => clock::utc_minute(n as i64),
            None => None,
        },
        None => None,
    }
}

fn time_opt(s: Option<&str>) -> (r: Option<String>)
    ensures
        text::opt_view(r) == time_of(text::opt_str_view(s)),
{
    match s {
        Some(t) => fmt_epoch_secs(t),
        None => None,
    }
}

/// The heading of a section.
pub open spec fn heading(t: Seq<char>) -> Seq<Seq<(Seq<char>, Style)>> {
    seq![tabs::gap(), seq![(t, screen::colored(Color::DarkGray))]]
}

fn add_heading(out: &mut Vec<Line>, t: &str)
    ensures
        screen::drawn(final(out)@) == screen::drawn(old(out)@) + heading(t@),
{
    screen::add_line(out, gap_line());
    screen::add_line(out, line1(t, color(Color::DarkGray)));
    assert(screen::drawn(out@) =~= screen::drawn(old(out)@) + heading(t@));
}

/// The section about the policy that names the dead letter queue.
pub open spec fn policy_lines(policy: Option<Seq<char>>) -> Seq<Seq<(Seq<char>, Style)>> {
    match policy {
        Some(p) => heading(" ↓ Redrive policy (this queue's DLQ) "@) + tabs::indented(
            text::text_lines(p),
            6,
            screen::colored(Color::Gray),
        ),
        None => tabs::no_lines(),
    }
}

/// The section about the queues whose dead letter queue this one is.
pub open spec fn source_lines(sources: Seq<Seq<char>>) -> Seq<Seq<(Seq<char>, Style)>> {
    if sources.len() == 0 {
        tabs::no_lines()
    } else {
        heading(" ↑ DLQ for ("@ + numeral::decimal(sources.len()) + ") "@) + tabs::indented(
            sources,
            sources.len() as int,
            screen::colored(Color::Cyan),
        )
    }
}

/// The section about the ARN.
pub open spec fn arn_lines(arn: Option<Seq<char>>) -> Seq<Seq<(Seq<char>, Style)>> {
    match arn {
        Some(a) => tabs::section(" ARN "@, a, screen::dimmed(screen::colored(Color::Gray))),
        None => tabs::no_lines(),
    }
}

/// The details of a queue.
pub open spec fn detail_lines(q: Queue) -> Seq<Seq<(Seq<char>, Style)>> {
    let head = tabs::no_lines() + seq![tabs::detail_row("Name"@, 22, text::after_last(q.url@, '/'))]
        + seq![
        tabs::detail_row(
            "Type"@,
            22,
            if text::has_suffix(q.url@, ".fifo"@) {
                "FIFO"@
            } else {
                "Standard"@
            },
        ),
    ];
    match q.attributes {
        None => head + seq![tabs::gap()] + seq![
            seq![
                ("(loading attributes…)"@, screen::dimmed(screen::colored(Color::DarkGray))),
            ],
        ],
        Some(a) => head + heading(" Backlog "@) + seq![
            tabs::detail_row(
                "ApproxNumMessages"@,
                22,
                number_or_dash(sqs::as_number(a.attr("ApproximateNumberOfMessages"@))),
            ),
        ] + seq![
            tabs::detail_row(
                "ApproxNotVisible"@,
                22,
                number_or_dash(sqs::as_number(a.attr("ApproximateNumberOfMessagesNotVisible"@))),
            ),
        ] + tabs::opt_row(
            "ApproxDelayed"@,
            22,
            if_positive(sqs::as_number(a.attr("ApproximateNumberOfMessagesDelayed"@))),
        ) + heading(" Config "@) + tabs::opt_row(
            "VisibilityTimeout"@,
            22,
            span_of(sqs::as_number(a.attr("VisibilityTimeout"@))),
        ) + tabs::opt_row(
            "MessageRetention"@,
            22,
            span_of(sqs::as_number(a.attr("MessageRetentionPeriod"@))),
        ) + tabs::opt_row("DelaySeconds"@, 22, span_of(sqs::as_number(a.attr("DelaySeconds"@))))
            + tabs::opt_row(
            "ReceiveWait"@,
            22,
            span_of(sqs::as_number(a.attr("ReceiveMessageWaitTimeSeconds"@))),
        ) + tabs::opt_row(
            "MaxMessageSize"@,
            22,
            kilobytes(sqs::as_number(a.attr("MaximumMessageSize"@))),
        ) + tabs::opt_row("Created"@, 22, time_of(a.attr("CreatedTimestamp"@))) + tabs::opt_row(
            "LastModified"@,
            22,
            time_of(a.attr("LastModifiedTimestamp"@)),
        ) + policy_lines(a.attr("RedrivePolicy"@)) + source_lines(text::views(q.redrive_sources@))
            + arn_lines(a.attr("QueueArn"@)),
    }
}

/// A number of bytes in whole kilobytes.
pub open spec fn kilobytes(n: Option<nat>) -> Option<Seq<char>> {
    match n {
        Some(k) => Some(numeral::decimal(k / 1024) + " KB"@),
        None => None,
    }
}

fn kilobytes_opt(n: Option<u64>) -> (r: Option<String>)
    ensures
        forall|k: Option<nat>| sqs::is_u64(n, k) ==> text::opt_view(r) == kilobytes(k),
{
    match n {
        Some(k) => Some(cat2(dec(k / 1024).as_str(), " KB")),
        None => None,
    }
}

fn add_opt_text(out: &mut Vec<Line>, name: &str, value: Option<String>)
    ensures
        screen::drawn(final(out)@) == screen::drawn(old(out)@) + tabs::opt_row(
            name@,
            22,
            text::opt_view(value),
        ),
{
    match value {
        Some(v) => add_opt(out, name, 22, Some(v.as_str())),
        None => add_opt(out, name, 22, None),
    }
}

/// The details of the selected queue.
pub fn draw_detail(queue: Option<&Queue>) -> (r: Vec<Line>)
    ensures
        screen::drawn(r@) == (match queue {
            None => seq![seq![("(no queue selected)"@, screen::colored(Color::DarkGray))]],
            Some(q) => detail_lines(*q),
        }),
{
    let mut out = start_lines();
    let q = match queue {
        None => {
            add_row(&mut out, line1("(no queue selected)", color(Color::DarkGray)));
            assert(screen::drawn(out@) =~= seq![
                seq![("(no queue selected)"@, screen::colored(Color::DarkGray))],
            ]);
            return out;
        },
        Some(q) => q,
    };
    add_detail(&mut out, "Name", 22, q.name());
    add_detail(&mut out, "Type", 22, if q.is_fifo() { "FIFO" } else { "Standard" });
    let a = match &q.attributes {
        None => {
            add_row(&mut out, gap_line());
            add_row(&mut out, line1("(loading attributes…)", dim(color(Color::DarkGray))));
            return out;
        },
        Some(a) => a,
    };
    add_heading(&mut out, " Backlog ");
    let n = number_text(a.approximate_messages());
    add_detail(&mut out, "ApproxNumMessages", 22, n.as_str());
    let n = number_text(a.approximate_messages_not_visible());
    add_detail(&mut out, "ApproxNotVisible", 22, n.as_str());
    add_opt_text(&mut out, "ApproxDelayed", positive_text(a.approximate_messages_delayed()));
    add_heading(&mut out, " Config ");
    add_opt_text(&mut out, "VisibilityTimeout", span_opt(a.visibility_timeout()));
    add_opt_text(&mut out, "MessageRetention", span_opt(a.message_retention_period()));
    add_opt_text(&mut out, "DelaySeconds", span_opt(a.delay_seconds()));
    add_opt_text(&mut out, "ReceiveWait", span_opt(a.receive_message_wait_time_seconds()));
    add_opt_text(&mut out, "MaxMessageSize", kilobytes_opt(a.maximum_message_size()));
    add_opt_text(&mut out, "Created", time_opt(a.get("CreatedTimestamp")));
    add_opt_text(&mut out, "LastModified", time_opt(a.get("LastModifiedTimestamp")));
    let ghost before = screen::drawn(out@);
    match a.redrive_policy() {
        Some(p) => {
            add_heading(&mut out, " ↓ Redrive policy (this queue's DLQ) ");
            add_indented(&mut out, &lines(p), 6, color(Color::Gray));
        },
        None => {},
    }
    assert(screen::drawn(out@) =~= before + policy_lines(a.attr("RedrivePolicy"@)));
    let ghost before = screen::drawn(out@);
    let n: usize = q.redrive_sources.len();
    if n > 0 {
        let t = cat3(" ↑ DLQ for (", dec_size(n).as_str(), ") ");
        add_heading(&mut out, t.as_str());
        add_indented(&mut out, &q.redrive_sources, n, color(Color::Cyan));
    }
    assert(screen::drawn(out@) =~= before + source_lines(text::views(q.redrive_sources@)));
    let ghost before = screen::drawn(out@);
    match a.arn() {
        Some(s) => add_section(&mut out, " ARN ", s, dim(color(Color::Gray))),
        None => {},
    }
    assert(screen::drawn(out@) =~= before + arn_lines(a.attr("QueueArn"@)));
    out
}

/// The status line.
pub fn draw_status(app: &App) -> (r: Line)
    ensures
        r@ == tabs::status_row(
            app.status@,
            " 1-9 tab · ↑↓/jk move · o console · y URL · Y ARN · A all+DLQ · r refresh · q quit "@,
        ),
{
    status_line(
        app.status.as_str(),
        " 1-9 tab · ↑↓/jk move · o console · y URL · Y ARN · A all+DLQ · r refresh · q quit ",
    )
}

/// `s` if it has at most `max` characters, else its beginning and an ellipsis.
pub fn truncate(s: &str, max: usize) -> (r: String)
    ensures
        r@ == text::shortened(s@, max as int),
{
    shorten(s, max)
}

} // verus!
