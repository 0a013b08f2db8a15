//! What the user pools browser draws.

use vstd::prelude::*;

use crate::clock;
use crate::clock::Moment;
use crate::cognito::app::{App, SpecV, TabSpec, TabState};
use crate::cognito::cognito;
use crate::cognito::cognito::{fmt_epoch, AttributeType, Item, User, UserPool};
use crate::json;
use crate::json::Json;
use crate::numeral;
use crate::numeral::dec_size;
use crate::screen;
use crate::screen::{bold, color, dim, line1, line2, Color, Line, Style};
use crate::tabs;
use crate::tabs::{
    add_detail, add_opt, add_row, body_rows, gap_line, placeholder_line, row_line, show_rows,
    start_lines, status_line, Pane,
};
use crate::text;
use crate::text::{cat2, cat3, cat5, last_piece, owned, pad_right, shorten, str_eq, text_or_empty};

verus! {

/// The line in which a query is typed, or the filter is shown, where there is
/// one of them.
pub open spec fn search_row(query: Option<Seq<char>>, filter: Option<Seq<char>>) -> Option<
    Seq<(Seq<char>, Style)>,
> {
    let faint = screen::dimmed(screen::colored(Color::DarkGray));
    match (query, filter) {
        (Some(q), _) => Some(
            seq![
                (" / "@, screen::bolded(screen::colored(Color::Cyan))),
                (q, screen::colored(Color::White)),
                (" █"@, screen::dimmed(screen::colored(Color::Cyan))),
                ("   (Enter to commit · Esc to cancel)"@, faint),
            ],
        ),
        (None, Some(f)) => Some(
            seq![
                (" filter: "@, faint),
                (f, screen::colored(Color::Cyan)),
                ("   (Esc to clear)"@, faint),
            ],
        ),
        (None, None) => None,
    }
}

/// The line in which a query is typed, or the filter is shown.
pub fn draw_search_bar(app: &App) -> (r: Option<Line>)
    ensures
        match r {
            Some(l) => search_row(
                text::opt_view(app.query_editing),
                text::opt_view(app.active_filter),
            ) == Some(l@),
            None => search_row(
                text::opt_view(app.query_editing),
                text::opt_view(app.active_filter),
            ) is None,
        },
{
    let faint = dim(color(Color::DarkGray));
    if let Some(q) = &app.query_editing {
        let l = Line::blank().with(" / ", bold(color(Color::Cyan))).with(
            q.as_str(),
            color(Color::White),
        ).with(" █", dim(color(Color::Cyan))).with("   (Enter to commit · Esc to cancel)", faint);
        assert(l@ =~= search_row(Some(q@), text::opt_view(app.active_filter))->0);
        return Some(l);
    }
    if let Some(f) = &app.active_filter {
        let l = Line::blank().with(" filter: ", faint).with(f.as_str(), color(Color::Cyan)).with(
            "   (Esc to clear)",
            faint,
        );
        assert(l@ =~= search_row(None, Some(f@))->0);
        return Some(l);
    }
    None
}

/// The colour of an item: users who cannot sign in stand out.
pub open spec fn state_shade(x: Item) -> Color {
    match x {
        Item::Pool(_) => Color::Gray,
        Item::User(u) => if u.enabled == Some(false) {
            Color::DarkGray
        } else {
            match u.status {
                Some(s) => if s@ == "FORCE_CHANGE_PASSWORD"@ || s@ == "RESET_REQUIRED"@ || s@
                    == "UNCONFIRMED"@ || s@ == "UNKNOWN"@ {
                    Color::Yellow
                } else {
                    Color::Gray
                },
                None => Color::Gray,
            }
        },
    }
}

pub fn state_color_for(x: &Item) -> (r: Style)
    ensures
        r == screen::colored(state_shade(*x)),
{
    match x {
        Item::Pool(_) => color(Color::Gray),
        Item::User(u) => {
            if let Some(false) = u.enabled {
                return color(Color::DarkGray);
            }
            match &u.status {
                Some(s) => {
                    let s = s.as_str();
                    if str_eq(s, "FORCE_CHANGE_PASSWORD") || str_eq(s, "RESET_REQUIRED") || str_eq(
                        s,
                        "UNCONFIRMED",
                    ) || str_eq(s, "UNKNOWN") {
                        color(Color::Yellow)
                    } else {
                        color(Color::Gray)
                    }
                },
                None => color(Color::Gray),
            }
        },
    }
}

/// The line of the item at row `i`.
pub open spec fn item_row(x: Seq<Item>, selected: int, i: int) -> Seq<(Seq<char>, Style)> {
    tabs::plain_row(
        i == selected,
        cognito::primary(x[i]),
        28,
        cognito::secondary(x[i]),
        screen::colored(state_shade(x[i])),
    )
}

/// The title of the list.
pub open spec fn list_title(s: SpecV, n: nat) -> Seq<char> {
    if s.kind == "pools"@ {
        " pools ("@ + numeral::decimal(n) + ") "@
    } else if s.kind == "users"@ {
        " users · "@ + (match s.user_pool_id {
            Some(p) => p,
            None => "?"@,
        }) + " ("@ + numeral::decimal(n) + ") "@
    } else {
        " items ("@ + numeral::decimal(n) + ") "@
    }
}

fn title_of(s: &TabSpec, n: usize) -> (r: String)
    ensures
        r@ == list_title(s@, n as nat),
{
    let count = dec_size(n);
    if str_eq(s.kind.as_str(), "pools") {
        cat3(" pools (", count.as_str(), ") ")
    } else if str_eq(s.kind.as_str(), "users") {
        let pool = match &s.user_pool_id {
            Some(p) => p.as_str(),
            None => "?",
        };
        cat5(" users · ", pool, " (", count.as_str(), ") ")
    } else {
        cat3(" items (", count.as_str(), ") ")
    }
}

/// The list in a frame that is `height` lines high.
pub fn draw_list(tab: &TabState, height: u16) -> (r: Pane)
    ensures
        match tabs::placeholder(tab.data@, "(none)"@) {
            Some(l) => r.title@ == " items "@ && screen::drawn(r.lines@) == seq![l],
            None => {
                &&& r.title@ == list_title(tab.spec@, tab.data@.items.len())
                &&& screen::drawn(r.lines@) == tabs::shown_rows(
                    |i: int| item_row(tab.data@.items, tab.data@.selected, i),
                    tab.data@.selected,
                    tab.data@.items.len() as int,
                    if height >= 2 {
                        height - 2
                    } else {
                        0
                    },
                )
            },
        },
{
    match placeholder_line(&tab.data, "(none)") {
        Some(l) => {
            let mut out = start_lines();
            add_row(&mut out, l);
            assert(screen::drawn(out@) =~= seq![l@]);
            Pane { title: owned(" items "), lines: out }
        },
        None => {
            let items = &tab.data.items;
            let n: usize = items.len();
            let selected: usize = tab.data.selected;
            let draw = |i: usize| -> (l: Line)
                requires
                    i < items.len(),
                ensures
                    l@ == item_row(items@, selected as int, i as int),
            {
                let x = &items[i];
                let name = x.primary_label();
                let about = x.secondary_label();
                row_line(i == selected, name, 28, about.as_str(), state_color_for(x))
            };
            let rows = show_rows(
                n,
                selected,
                body_rows(height),
                draw,
                Ghost(|i: int| item_row(tab.data@.items, tab.data@.selected, i)),
            );
            Pane { title: title_of(&tab.spec, n), lines: rows }
        },
    }
}

/// A text, or a dash.
pub open spec fn or_dash(o: Option<String>) -> Seq<char> {
    match o {
        Some(s) => s@,
        None => "—"@,
    }
}

fn text_or_dash(o: &Option<String>) -> (r: &str)
    ensures
        r@ == or_dash(*o),
{
    match o {
        Some(s) => s.as_str(),
        None => "—",
    }
}

/// A point in time in words, where there is one.
pub open spec fn date_words(d: Option<Moment>) -> Option<Seq<char>> {
    match d {
        Some(m) => Some(clock::moment_words(m)),
        None => None,
    }
}

fn add_date(out: &mut Vec<Line>, name: &str, d: &Option<Moment>)
    ensures
        screen::drawn(final(out)@) == screen::drawn(old(out)@) + tabs::opt_row(name@, 16, date_words(*d)),
{
    match d {
        Some(m) => {
            let t = fmt_epoch(m);
            add_opt(out, name, 16, Some(t.as_str()));
        },
        None => add_opt(out, name, 16, None),
    }
}

/// A function that is called on an occasion: the occasion, and the last part of
/// its ARN.
pub open spec fn trigger_row(name: Seq<char>, arn: json::JsonV) -> Seq<(Seq<char>, Style)> {
    seq![
        (" "@ + text::padded_right(name, 24), screen::colored(Color::Cyan)),
        (
            text::after_last(
                match json::text_in(arn) {
                    Some(s) => s,
                    None => ""@,
                },
                ':',
            ),
            screen::dimmed(screen::colored(Color::Gray)),
        ),
    ]
}

/// How many lines of `n` there are where `most` fit.
pub open spec fn at_most(n: nat, most: int) -> nat {
    (if n <= most {
        n as int
    } else {
        most
    }) as nat
}

/// The lines about the functions of a user pool, where it has some.
pub open spec fn trigger_lines(l: Option<json::JsonV>) -> Seq<Seq<(Seq<char>, Style)>> {
    match l {
        Some(json::JsonV::Object(m)) => if m.len() > 0 {
            seq![
                tabs::gap(),
                seq![
                    (
                        " Lambda triggers ("@ + numeral::decimal(m.len()) + ") "@,
                        screen::colored(Color::DarkGray),
                    ),
                ],
            ] + Seq::new(at_most(m.len(), 10), |i: int| trigger_row(m[i].0, m[i].1))
        } else {
            tabs::no_lines()
        },
        _ => tabs::no_lines(),
    }
}

/// The contents of an optional JSON value.
pub open spec fn opt_json(j: Option<Json>) -> Option<json::JsonV> {
    match j {
        Some(v) => Some(v@),
        None => None,
    }
}

fn add_triggers(out: &mut Vec<Line>, l: &Option<Json>)
    ensures
        screen::drawn(final(out)@) == screen::drawn(old(out)@) + trigger_lines(opt_json(*l)),
{
    let ghost start = screen::drawn(out@);
    let ghost want = trigger_lines(opt_json(*l));
    if let Some(Json::Object(m)) = l {
        let ghost mv = json::members_view(m@);
        assert(opt_json(*l) == Some(json::JsonV::Object(mv))) by {
            json::lemma_object_view(*m);
        }
        if m.len() > 0 {
            add_row(out, gap_line());
            let head = cat3(" Lambda triggers (", dec_size(m.len()).as_str(), ") ");
            add_row(out, line1(head.as_str(), color(Color::DarkGray)));
            let n: usize = if m.len() <= 10 { m.len() } else { 10 };
            let ghost first = screen::drawn(out@);
            let ghost all = Seq::new(at_most(mv.len(), 10), |i: int| trigger_row(mv[i].0, mv[i].1));
            let mut i: usize = 0;
            assert(first + all.take(0) =~= first);
            while i < n
                invariant
                    i <= n <= m.len(),
                    n == all.len(),
                    mv == json::members_view(m@),
                    all == Seq::new(at_most(mv.len(), 10), |i: int| trigger_row(mv[i].0, mv[i].1)),
                    screen::drawn(out@) == first + all.take(i as int),
                decreases n - i,
            {
                assert(mv[i as int] == (m@[i as int].0@, m@[i as int].1@));
                let name = cat2(" ", pad_right(m[i].0.as_str(), 24).as_str());
                let arn = match m[i].1.as_text() {
                    Some(s) => s,
                    None => "",
                };
                let tail = short_arn_tail(arn);
                let row = line2(
                    name.as_str(),
                    color(Color::Cyan),
                    tail.as_str(),
                    dim(color(Color::Gray)),
                );
                assert(row@ =~= all[i as int]);
                add_row(out, row);
                assert(all.take(i + 1) =~= all.take(i as int) + seq![all[i as int]]);
                assert(screen::drawn(out@) =~= first + all.take(i + 1));
                i = i + 1;
            }
            assert(all.take(n as int) =~= all);
        }
    }
    assert(screen::drawn(out@) =~= start + want);
}

/// The details of a user pool.
pub open spec fn pool_lines(p: UserPool) -> Seq<Seq<(Seq<char>, Style)>> {
    tabs::no_lines() + seq![tabs::detail_row("Name"@, 16, p.name@)] + seq![
        tabs::detail_row("ID"@, 16, p.id@),
    ] + seq![tabs::detail_row("Status"@, 16, or_dash(p.status))] + tabs::opt_row(
        "Created"@,
        16,
        date_words(p.creation_date),
    ) + tabs::opt_row("Last modified"@, 16, date_words(p.last_modified_date)) + trigger_lines(
        opt_json(p.lambda_config),
    )
}

/// Whether a user may sign in, in a word.
pub open spec fn enabled_word(e: Option<bool>) -> Seq<char> {
    match e {
        Some(true) => "true"@,
        Some(false) => "FALSE"@,
        None => "—"@,
    }
}

/// The line of an attribute.
pub open spec fn attribute_row(a: AttributeType) -> Seq<(Seq<char>, Style)> {
    seq![
        (
            " "@ + text::padded_right(text::shortened(a.name@, 22), 22),
            screen::colored(Color::Cyan),
        ),
        (text::or_empty(a.value), screen::colored(Color::Gray)),
    ]
}

/// The lines about the attributes of a user, where there are some.
pub open spec fn attribute_lines(a: Seq<AttributeType>) -> Seq<Seq<(Seq<char>, Style)>> {
    if a.len() > 0 {
        seq![
            tabs::gap(),
            seq![
                (
                    " Attributes ("@ + numeral::decimal(a.len()) + ") "@,
                    screen::colored(Color::DarkGray),
                ),
            ],
        ] + Seq::new(at_most(a.len(), 15), |i: int| attribute_row(a[i]))
    } else {
        tabs::no_lines()
    }
}

fn add_attributes(out: &mut Vec<Line>, a: &Vec<AttributeType>)
    ensures
        screen::drawn(final(out)@) == screen::drawn(old(out)@) + attribute_lines(a@),
{
    let ghost start = screen::drawn(out@);
    if a.len() > 0 {
        add_row(out, gap_line());
        let head = cat3(" Attributes (", dec_size(a.len()).as_str(), ") ");
        add_row(out, line1(head.as_str(), color(Color::DarkGray)));
        let n: usize = if a.len() <= 15 { a.len() } else { 15 };
        let ghost first = screen::drawn(out@);
        let ghost all = Seq::new(at_most(a@.len(), 15), |i: int| attribute_row(a@[i]));
        let mut i: usize = 0;
        assert(first + all.take(0) =~= first);
        while i < n
            invariant
                i <= n <= a.len(),
                n == all.len(),
                all == Seq::new(at_most(a@.len(), 15), |i: int| attribute_row(a@[i])),
                screen::drawn(out@) == first + all.take(i as int),
            decreases n - i,
        {
            let name = cat2(" ", pad_right(shorten(a[i].name.as_str(), 22).as_str(), 22).as_str());
            let row = line2(
                name.as_str(),
                color(Color::Cyan),
                text_or_empty(&a[i].value),
                color(Color::Gray),
            );
            assert(row@ =~= all[i as int]);
            add_row(out, row);
            assert(all.take(i + 1) =~= all.take(i as int) + seq![all[i as int]]);
            assert(screen::drawn(out@) =~= first + all.take(i + 1));
            i = i + 1;
        }
        assert(all.take(n as int) =~= all);
    }
    assert(screen::drawn(out@) =~= start + attribute_lines(a@));
}

/// The details of a user.
pub open spec fn user_lines(u: User) -> Seq<Seq<(Seq<char>, Style)>> {
    tabs::no_lines() + seq![tabs::detail_row("Username"@, 16, u.username@)] + seq![
        tabs::detail_row("Status"@, 16, or_dash(u.status)),
    ] + seq![tabs::detail_row("Enabled"@, 16, enabled_word(u.enabled))] + tabs::opt_row(
        "Created"@,
        16,
        date_words(u.create_date),
    ) + tabs::opt_row("Modified"@, 16, date_words(u.last_modified_date)) + attribute_lines(u.attributes@)
}

/// The details of the selected item.
pub fn draw_detail(item: Option<&Item>) -> (r: Vec<Line>)
    ensures
        screen::drawn(r@) == (match item {
            None => seq![seq![("(no item selected)"@, screen::colored(Color::DarkGray))]],
            Some(Item::Pool(p)) => pool_lines(*p),
            Some(Item::User(u)) => user_lines(*u),
        }),
{
    let mut out = start_lines();
    match item {
        None => {
            add_row(&mut out, line1("(no item selected)", color(Color::DarkGray)));
            assert(screen::drawn(out@) =~= seq![
                seq![("(no item selected)"@, screen::colored(Color::DarkGray))],
            ]);
        },
        Some(Item::Pool(p)) => {
            add_detail(&mut out, "Name", 16, p.name.as_str());
            add_detail(&mut out, "ID", 16, p.id.as_str());
            add_detail(&mut out, "Status", 16, text_or_dash(&p.status));
            add_date(&mut out, "Created", &p.creation_date);
            add_date(&mut out, "Last modified", &p.last_modified_date);
            add_triggers(&mut out, &p.lambda_config);
        },
        Some(Item::User(u)) => {
            add_detail(&mut out, "Username", 16, u.username.as_str());
            add_detail(&mut out, "Status", 16, text_or_dash(&u.status));
            let word = match u.enabled {
                Some(true) => "true",
                Some(false) => "FALSE",
                None => "—",
            };
            add_detail(&mut out, "Enabled", 16, word);
            add_date(&mut out, "Created", &u.create_date);
            add_date(&mut out, "Modified", &u.last_modified_date);
            add_attributes(&mut out, &u.attributes);
        },
    }
    out
}

/// The status line.
pub fn draw_status(app: &App) -> (r: Line)
    ensures
        r@ == tabs::status_row(
            app.status@,
            " 1-9 tab · ↑↓/jk move · o console · y ID · / search · r refresh · q quit "@,
        ),
{
    status_line(
        app.status.as_str(),
        " 1-9 tab · ↑↓/jk move · o console · y ID · / search · r refresh · q quit ",
    )
}

/// `s` if it has at most `max` characters, else its beginning and an ellipsis.
pub fn truncate(s: &str, max: usize) -> (r: String)
    ensures
        r@ == text::shortened(s@, max as int),
{
    shorten(s, max)
}

/// What stands behind the last colon of an ARN.
pub fn short_arn_tail(arn: &str) -> (r: String)
    ensures
        r@ == text::after_last(arn@, ':'),
{
    owned(last_piece(arn, ':'))
}

} // verus!
