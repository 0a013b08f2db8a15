//! What the topics browser draws.

use vstd::prelude::*;

use crate::numeral;
use crate::numeral::{dec, dec_size};
use crate::screen;
use crate::screen::{bold, color, dim, line1, Color, Line, Style};
use crate::sns::app;
use crate::sns::app::{App, Item, TabSpec, TabState};
use crate::sns::sns;
use crate::sns::sns::{topic_name_from_arn, Subscription, Topic};
use crate::tabs;
use crate::tabs::{
    add_detail, add_indented, add_opt, add_row, add_section, body_rows, gap_line, placeholder_line,
    row_line, show_rows, start_lines, status_line, Pane,
};
use crate::text;
use crate::text::{cat3, lines, owned, shorten, str_eq};

verus! {

/// The line in which a test message is written.
pub open spec fn publish_bar(message: Seq<char>) -> Seq<(Seq<char>, Style)> {
    seq![
        (" P "@, screen::bolded(screen::colored(Color::Green))),
        (message, screen::colored(Color::White)),
        (" █"@, screen::dimmed(screen::colored(Color::Green))),
        ("   (Enter to publish · Esc to cancel)"@, screen::dimmed(screen::colored(Color::DarkGray))),
    ]
}

/// The line in which a test message is written, while one is.
pub fn draw_publish_bar(app: &App) -> (r: Option<Line>)
    ensures
        match app.publish_editing {
            Some(b) => r matches Some(l) && l@ == publish_bar(b@),
            None => r is None,
        },
{
    match &app.publish_editing {
        Some(b) => {
            let l = Line::blank().with(" P ", bold(color(Color::Green))).with(
                b.as_str(),
                color(Color::White),
            ).with(" █", dim(color(Color::Green))).with(
                "   (Enter to publish · Esc to cancel)",
                dim(color(Color::DarkGray)),
            );
            assert(l@ =~= publish_bar(b@));
            Some(l)
        },
        None => None,
    }
}

/// The colour of an item: yellow where a confirmation is waited for.
pub open spec fn item_color(x: Item) -> Color {
    match x {
        Item::Topic(t) => match t.attributes {
            None => Color::DarkGray,
            Some(a) => if sns::or_zero(sns::as_number(a.attr("SubscriptionsPending"@))) > 0 {
                Color::Yellow
            } else {
                Color::Gray
            },
        },
        Item::Subscription(s) => if sns::pending(s) {
            Color::Yellow
        } else {
            Color::Gray
        },
    }
}

pub fn state_color_for(x: &Item) -> (r: Style)
    ensures
        r == screen::colored(item_color(*x)),
{
    match x {
        Item::Topic(t) => match &t.attributes {
            None => color(Color::DarkGray),
            Some(a) => {
                let pending: u64 = match a.subscriptions_pending() {
                    Some(n) => n,
                    None => 0,
                };
                if pending > 0 {
                    color(Color::Yellow)
                } else {
                    color(Color::Gray)
                }
            },
        },
        Item::Subscription(s) => {
            if s.is_pending_confirmation() {
                color(Color::Yellow)
            } else {
                color(Color::Gray)
            }
        },
    }
}

/// The line of the item at row `i`.
pub open spec fn item_row(v: Seq<Item>, selected: int, i: int) -> Seq<(Seq<char>, Style)> {
    tabs::plain_row(
        i == selected,
        app::item_name(v[i]),
        28,
        app::item_label(v[i]),
        screen::colored(item_color(v[i])),
    )
}

/// The title of the list.
pub open spec fn list_title(spec: app::SpecV, n: nat) -> Seq<char> {
    if spec.kind == "topics"@ {
        " topics ("@ + numeral::decimal(n) + ") "@
    } else if spec.kind == "subscriptions"@ {
        " subs · "@ + (match spec.topic_arn {
            Some(a) => text::after_last(a, ':'),
            None => "?"@,
        }) + " ("@ + numeral::decimal(n) + ") "@
    } else {
        " items ("@ + numeral::decimal(n) + ") "@
    }
}

fn title_of(spec: &TabSpec, n: usize) -> (r: String)
    ensures
        r@ == list_title(spec@, n as nat),
{
    let count = dec_size(n);
    if str_eq(spec.kind.as_str(), "topics") {
        cat3(" topics (", count.as_str(), ") ")
    } else if str_eq(spec.kind.as_str(), "subscriptions") {
        let name = match &spec.topic_arn {
            Some(a) => topic_name_from_arn(a.as_str()),
            None => "?",
        };
        text::cat5(" subs · ", name, " (", count.as_str(), ") ")
    } else {
        cat3(" items (", count.as_str(), ") ")
    }
}

/// The list in a frame that is `height` lines high.
pub fn draw_list(tab: &TabState, height: u16) -> (r: Pane)
    ensures
        match tabs::placeholder(tab.data@, "(none)"@) {
            Some(l) => r.title@ == " items "@ && screen::drawn(r.lines@) == seq![l],
            None => {
                &&& r.title@ == list_title(tab.spec@, tab.data@.items.len())
                &&& screen::drawn(r.lines@) == tabs::shown_rows(
                    |i: int| item_row(tab.data@.items, tab.data@.selected, i),
                    tab.data@.selected,
                    tab.data@.items.len() as int,
                    if height >= 2 {
                        height - 2
                    } else {
                        0
                    },
                )
            },
        },
{
    match placeholder_line(&tab.data, "(none)") {
        Some(l) => {
            let mut out = start_lines();
            add_row(&mut out, l);
            assert(screen::drawn(out@) =~= seq![l@]);
            Pane { title: owned(" items "), lines: out }
        },
        None => {
            let items = &tab.data.items;
            let n: usize = items.len();
            let selected: usize = tab.data.selected;
            let draw = |i: usize| -> (l: Line)
                requires
                    i < items.len(),
                ensures
                    l@ == item_row(items@, selected as int, i as int),
            {
                let x = &items[i];
                let name = x.primary_label();
                let about = x.secondary_label();
                row_line(i == selected, name.as_str(), 28, about.as_str(), state_color_for(x))
            };
            let rows = show_rows(
                n,
                selected,
                body_rows(height),
                draw,
                Ghost(|i: int| item_row(tab.data@.items, tab.data@.selected, i)),
            );
            Pane { title: title_of(&tab.spec, n), lines: rows }
        },
    }
}

/// A number in decimal, or a dash.
pub open spec fn number_or_dash(n: Option<nat>) -> Seq<char> {
    match n {
        Some(k) => numeral::decimal(k),
        None => "—"@,
    }
}

fn number_text(n: Option<u64>) -> (r: String)
    ensures
        forall|k: Option<nat>| sns::is_u64(n, k) ==> r@ == number_or_dash(k),
{
    match n {
        Some(k) => dec(k),
        None => owned("—"),
    }
}

/// A number in decimal where it is greater than 0.
pub open spec fn if_positive(n: Option<nat>) -> Option<Seq<char>> {
    match n {
        Some(k) => if k > 0 {
            Some(numeral::decimal(k))
        } else {
            None
        },
        None => None,
    }
}

fn add_positive(out: &mut Vec<Line>, name: &str, n: Option<u64>)
    ensures
        forall|k: Option<nat>|
            #![auto]
            sns::is_u64(n, k) ==> screen::drawn(final(out)@) == screen::drawn(old(out)@) + tabs::opt_row(
                name@,
                18,
                if_positive(k),
            ),
{
    match n {
        Some(k) => {
            if k > 0 {
                let t = dec(k);
                add_opt(out, name, 18, Some(t.as_str()));
            } else {
                add_opt(out, name, 18, None);
            }
        },
        None => add_opt(out, name, 18, None),
    }
}

/// The section about the delivery policy.
pub open spec fn policy_lines(policy: Option<Seq<char>>) -> Seq<Seq<(Seq<char>, Style)>> {
    match policy {
        Some(p) => seq![
            tabs::gap(),
            seq![(" Delivery policy "@, screen::colored(Color::DarkGray))],
        ] + tabs::indented(text::text_lines(p), 8, screen::colored(Color::Gray)),
        None => tabs::no_lines(),
    }
}

/// The details of a topic.
pub open spec fn topic_lines(t: Topic) -> Seq<Seq<(Seq<char>, Style)>> {
    let head = tabs::no_lines() + seq![tabs::detail_row("Name"@, 18, text::after_last(t.arn@, ':'))] + seq![
        tabs::detail_row(
            "Type"@,
            18,
            if sns::is_fifo_topic(t) {
                "FIFO"@
            } else {
                "Standard"@
            },
        ),
    ];
    match t.attributes {
        None => head + seq![tabs::gap()] + seq![
            seq![
                ("(loading attributes…)"@, screen::dimmed(screen::colored(Color::DarkGray))),
            ],
        ],
        Some(a) => head + tabs::opt_row("Display name"@, 18, a.attr("DisplayName"@)) + tabs::opt_row(
            "Owner"@,
            18,
            a.attr("Owner"@),
        ) + seq![
            tabs::detail_row(
                "Confirmed subs"@,
                18,
                number_or_dash(sns::as_number(a.attr("SubscriptionsConfirmed"@))),
            ),
        ] + tabs::opt_row(
            "Pending subs"@,
            18,
            if_positive(sns::as_number(a.attr("SubscriptionsPending"@))),
        ) + tabs::opt_row(
            "Deleted subs"@,
            18,
            if_positive(sns::as_number(a.attr("SubscriptionsDeleted"@))),
        ) + tabs::opt_row("KMS key"@, 18, a.attr("KmsMasterKeyId"@)) + tabs::opt_row(
            "Signature ver"@,
            18,
            a.attr("SignatureVersion"@),
        ) + policy_lines(a.attr("DeliveryPolicy"@)) + tabs::section(
            " ARN "@,
            t.arn@,
            screen::dimmed(screen::colored(Color::Gray)),
        ),
    }
}

fn topic_detail(t: &Topic) -> (r: Vec<Line>)
    ensures
        screen::drawn(r@) == topic_lines(*t),
{
    let mut out = start_lines();
    add_detail(&mut out, "Name", 18, t.name());
    add_detail(&mut out, "Type", 18, if t.is_fifo() { "FIFO" } else { "Standard" });
    let a = match &t.attributes {
        None => {
            add_row(&mut out, gap_line());
            add_row(&mut out, line1("(loading attributes…)", dim(color(Color::DarkGray))));
            return out;
        },
        Some(a) => a,
    };
    add_opt(&mut out, "Display name", 18, a.display_name());
    add_opt(&mut out, "Owner", 18, a.owner());
    let n = number_text(a.subscriptions_confirmed());
    add_detail(&mut out, "Confirmed subs", 18, n.as_str());
    add_positive(&mut out, "Pending subs", a.subscriptions_pending());
    add_positive(&mut out, "Deleted subs", a.subscriptions_deleted());
    add_opt(&mut out, "KMS key", 18, a.kms_master_key_id());
    add_opt(&mut out, "Signature ver", 18, a.signature_version());
    let ghost before = screen::drawn(out@);
    match a.delivery_policy() {
        Some(p) => {
            add_row(&mut out, gap_line());
            add_row(&mut out, line1(" Delivery policy ", color(Color::DarkGray)));
            add_indented(&mut out, &lines(p), 8, color(Color::Gray));
        },
        None => {},
    }
    assert(screen::drawn(out@) =~= before + policy_lines(a.attr("DeliveryPolicy"@)));
    add_section(&mut out, " ARN ", t.arn.as_str(), dim(color(Color::Gray)));
    out
}

/// The topic of a subscription: its name, and its ARN in a section.
pub open spec fn topic_of_lines(topic: Option<String>) -> Seq<Seq<(Seq<char>, Style)>> {
    match topic {
        Some(a) => seq![tabs::detail_row("Topic"@, 18, text::after_last(a@, ':'))] + tabs::section(
            " Topic ARN "@,
            a@,
            screen::dimmed(screen::colored(Color::Gray)),
        ),
        None => tabs::no_lines(),
    }
}

/// The ARN of a subscription that has been confirmed.
pub open spec fn subscription_arn_lines(s: Subscription) -> Seq<Seq<(Seq<char>, Style)>> {
    if sns::pending(s) {
        tabs::no_lines()
    } else {
        tabs::section(
            " Subscription ARN "@,
            s.arn@,
            screen::dimmed(screen::colored(Color::Gray)),
        )
    }
}

/// A text, or a dash.
pub open spec fn or_dash(o: Option<String>) -> Seq<char> {
    match o {
        Some(s) => s@,
        None => "—"@,
    }
}

/// The details of a subscription.
pub open spec fn subscription_lines(s: Subscription) -> Seq<Seq<(Seq<char>, Style)>> {
    tabs::no_lines() + seq![tabs::detail_row("Protocol"@, 18, or_dash(s.protocol))] + seq![
        tabs::detail_row("Endpoint"@, 18, or_dash(s.endpoint)),
    ] + seq![
        tabs::detail_row(
            "Status"@,
            18,
            if sns::pending(s) {
                "Pending confirmation"@
            } else {
                "Confirmed"@
            },
        ),
    ] + tabs::opt_row("Owner"@, 18, text::opt_view(s.owner)) + topic_of_lines(s.topic_arn)
        + subscription_arn_lines(s)
}

fn subscription_detail(s: &Subscription) -> (r: Vec<Line>)
    ensures
        screen::drawn(r@) == subscription_lines(*s),
{
    let mut out = start_lines();
    let protocol = match &s.protocol {
        Some(p) => p.as_str(),
        None => "—",
    };
    add_detail(&mut out, "Protocol", 18, protocol);
    let endpoint = match &s.endpoint {
        Some(e) => e.as_str(),
        None => "—",
    };
    add_detail(&mut out, "Endpoint", 18, endpoint);
    let pending = s.is_pending_confirmation();
    add_detail(&mut out, "Status", 18, if pending { "Pending confirmation" } else { "Confirmed" });
    match &s.owner {
        Some(o) => add_opt(&mut out, "Owner", 18, Some(o.as_str())),
        None => add_opt(&mut out, "Owner", 18, None),
    }
    let ghost before = screen::drawn(out@);
    match &s.topic_arn {
        Some(a) => {
            add_detail(&mut out, "Topic", 18, topic_name_from_arn(a.as_str()));
            add_section(&mut out, " Topic ARN ", a.as_str(), dim(color(Color::Gray)));
        },
        None => {},
    }
    assert(screen::drawn(out@) =~= before + topic_of_lines(s.topic_arn));
    let ghost before = screen::drawn(out@);
    if !pending {
        add_section(&mut out, " Subscription ARN ", s.arn.as_str(), dim(color(Color::Gray)));
    }
    assert(screen::drawn(out@) =~= before + subscription_arn_lines(*s));
    out
}

/// The details of the selected item.
pub fn draw_detail(item: Option<&Item>) -> (r: Vec<Line>)
    ensures
        screen::drawn(r@) == (match item {
            None => seq![seq![("(no item selected)"@, screen::colored(Color::DarkGray))]],
            Some(x) => match *x {
                Item::Topic(t) => topic_lines(t),
                Item::Subscription(s) => subscription_lines(s),
            },
        }),
{
    match item {
        None => {
            let mut out = start_lines();
            add_row(&mut out, line1("(no item selected)", color(Color::DarkGray)));
            assert(screen::drawn(out@) =~= seq![
                seq![("(no item selected)"@, screen::colored(Color::DarkGray))],
            ]);
            out
        },
        Some(x) => match x {
            Item::Topic(t) => topic_detail(t),
            Item::Subscription(s) => subscription_detail(s),
        },
    }
}

/// The status line.
pub fn draw_status(app: &App) -> (r: Line)
    ensures
        r@ == tabs::status_row(
            app.status@,
            " 1-9 tab · ↑↓/jk move · o console · y ARN · Y endpoint · L jump (sqs/lambda) · P publish · r refresh · q quit "@,
        ),
{
    status_line(
        app.status.as_str(),
        " 1-9 tab · ↑↓/jk move · o console · y ARN · Y endpoint · L jump (sqs/lambda) · P publish · r refresh · q quit ",
    )
}

/// `s` if it has at most `max` characters, else its beginning and an ellipsis.
pub fn truncate(s: &str, max: usize) -> (r: String)
    ensures
        r@ == text::shortened(s@, max as int),
{
    shorten(s, max)
}

} // verus!
