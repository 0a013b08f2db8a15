//! What the databases browser draws.

use vstd::prelude::*;

use crate::numeral;
use crate::numeral::{dec, dec_size};
use crate::rds::app;
use crate::rds::app::{App, TabSpec, TabState};
use crate::rds::rds;
use crate::rds::rds::{host_port_text, DbCluster, DbInstance, Item};
use crate::screen;
use crate::screen::{color, dim, line1, Color, Line, Style};
use crate::tabs;
use crate::tabs::{
    add_detail, add_opt, add_row, add_section, body_rows, placeholder_line, row_line, show_rows,
    start_lines, status_line, Pane,
};
use crate::text;
use crate::text::{cat2, cat3, contains, owned, shorten, str_eq};

verus! {

/// The colour of an item: yellow while it is changing, red where it cannot be
/// used.
pub open spec fn item_color(x: Item) -> Color {
    match x.state() {
        Some(s) => if s@ == "available"@ {
            Color::Gray
        } else if text::has_part(s@, "ing"@) {
            Color::Yellow
        } else if s@ == "stopped"@ || s@ == "inaccessible"@ {
            Color::Red
        } else {
            Color::Gray
        },
        None => Color::Gray,
    }
}

pub fn state_color_for(x: &Item) -> (r: Style)
    ensures
        r == screen::colored(item_color(*x)),
{
    let state = match x {
        Item::Instance(i) => &i.status,
        Item::Cluster(c) => &c.status,
    };
    match state {
        Some(s) => {
            let s = s.as_str();
            if str_eq(s, "available") {
                color(Color::Gray)
            } else if contains(s, "ing") {
                color(Color::Yellow)
            } else if str_eq(s, "stopped") || str_eq(s, "inaccessible") {
                color(Color::Red)
            } else {
                color(Color::Gray)
            }
        },
        None => color(Color::Gray),
    }
}

/// The line of the item at row `i`.
pub open spec fn item_row(v: Seq<Item>, selected: int, i: int) -> Seq<(Seq<char>, Style)> {
    tabs::plain_row(
        i == selected,
        v[i].id(),
        28,
        v[i].label(),
        screen::colored(item_color(v[i])),
    )
}

/// The title of the list.
pub open spec fn list_title(spec: app::SpecV, n: nat) -> Seq<char> {
    (if spec.kind == "instances"@ {
        " db instances ("@
    } else if spec.kind == "clusters"@ {
        " db clusters ("@
    } else {
        " items ("@
    }) + numeral::decimal(n) + ") "@
}

fn title_of(spec: &TabSpec, n: usize) -> (r: String)
    ensures
        r@ == list_title(spec@, n as nat),
{
    let head = if str_eq(spec.kind.as_str(), "instances") {
        " db instances ("
    } else if str_eq(spec.kind.as_str(), "clusters") {
        " db clusters ("
    } else {
        " items ("
    };
    cat3(head, dec_size(n).as_str(), ") ")
}

/// The list in a frame that is `height` lines high.
pub fn draw_list(tab: &TabState, height: u16) -> (r: Pane)
    ensures
        match tabs::placeholder(tab.data@, "(none)"@) {
            Some(l) => r.title@ == " items "@ && screen::drawn(r.lines@) == seq![l],
            None => {
                &&& r.title@ == list_title(tab.spec@, tab.data@.items.len())
                &&& screen::drawn(r.lines@) == tabs::shown_rows(
                    |i: int| item_row(tab.data@.items, tab.data@.selected, i),
                    tab.data@.selected,
                    tab.data@.items.len() as int,
                    if height >= 2 {
                        height - 2
                    } else {
                        0
                    },
                )
            },
        },
{
    match placeholder_line(&tab.data, "(none)") {
        Some(l) => {
            let mut out = start_lines();
            add_row(&mut out, l);
            assert(screen::drawn(out@) =~= seq![l@]);
            Pane { title: owned(" items "), lines: out }
        },
        None => {
            let items = &tab.data.items;
            let n: usize = items.len();
            let selected: usize = tab.data.selected;
            let draw = |i: usize| -> (l: Line)
                requires
                    i < items.len(),
                ensures
                    l@ == item_row(items@, selected as int, i as int),
            {
                let x = &items[i];
                let about = x.secondary_label();
                row_line(i == selected, x.primary_label(), 28, about.as_str(), state_color_for(x))
            };
            let rows = show_rows(
                n,
                selected,
                body_rows(height),
                draw,
                Ghost(|i: int| item_row(tab.data@.items, tab.data@.selected, i)),
            );
            Pane { title: title_of(&tab.spec, n), lines: rows }
        },
    }
}

/// The engine with its version, or a dash.
pub open spec fn engine_text(engine: Option<String>, version: Option<String>) -> Seq<char> {
    match (engine, version) {
        (Some(e), Some(v)) => e@ + " "@ + v@,
        (Some(e), None) => e@,
        _ => "—"@,
    }
}

fn engine_string(engine: &Option<String>, version: &Option<String>) -> (r: String)
    ensures
        r@ == engine_text(*engine, *version),
{
    match engine {
        Some(e) => match version {
            Some(v) => cat3(e.as_str(), " ", v.as_str()),
            None => e.clone(),
        },
        None => owned("—"),
    }
}

/// A text, or a dash.
pub open spec fn or_dash(o: Option<String>) -> Seq<char> {
    match o {
        Some(s) => s@,
        None => "—"@,
    }
}

fn dash_string(o: &Option<String>) -> (r: String)
    ensures
        r@ == or_dash(*o),
{
    match o {
        Some(s) => s.clone(),
        None => owned("—"),
    }
}

/// A truth value in words.
pub open spec fn bool_text(b: Option<bool>) -> Option<Seq<char>> {
    match b {
        Some(x) => Some(
            if x {
                "true"@
            } else {
                "false"@
            },
        ),
        None => None,
    }
}

fn bool_str(b: Option<bool>) -> (r: Option<&'static str>)
    ensures
        text::opt_str_view(r) == bool_text(b),
{
    match b {
        Some(x) => Some(if x { "true" } else { "false" }),
        None => None,
    }
}

fn add_opt_string(out: &mut Vec<Line>, name: &str, value: &Option<String>)
    ensures
        screen::drawn(final(out)@) == screen::drawn(old(out)@) + tabs::opt_row(
            name@,
            16,
            text::opt_view(*value),
        ),
{
    match value {
        Some(v) => add_opt(out, name, 16, Some(v.as_str())),
        None => add_opt(out, name, 16, None),
    }
}

/// The storage of an instance.
pub open spec fn storage_text(i: DbInstance) -> Option<Seq<char>> {
    match i.allocated_storage {
        Some(s) => Some(numeral::decimal(s as nat) + " GB · "@ + or_dash(i.storage_type)),
        None => None,
    }
}

/// The details of an instance.
pub open spec fn instance_lines(i: DbInstance) -> Seq<Seq<(Seq<char>, Style)>> {
    tabs::no_lines() + seq![tabs::detail_row("Identifier"@, 16, i.identifier@)] + seq![
        tabs::detail_row("Engine"@, 16, engine_text(i.engine, i.engine_version)),
    ] + tabs::opt_row("Class"@, 16, text::opt_view(i.instance_class)) + seq![
        tabs::detail_row("Status"@, 16, or_dash(i.status)),
    ] + tabs::opt_row("Endpoint"@, 16, rds::instance_endpoint(i)) + tabs::opt_row(
        "Storage"@,
        16,
        storage_text(i),
    ) + tabs::opt_row("Multi-AZ"@, 16, bool_text(i.multi_az)) + tabs::opt_row(
        "AZ"@,
        16,
        text::opt_view(i.az),
    ) + tabs::opt_row("Public"@, 16, bool_text(i.publicly_accessible)) + tabs::opt_row(
        "Master user"@,
        16,
        text::opt_view(i.master_username),
    ) + tabs::opt_row("Cluster"@, 16, text::opt_view(i.cluster_identifier)) + tabs::opt_row(
        "Created"@,
        16,
        text::opt_view(i.create_time),
    ) + tabs::section(" ARN "@, i.arn@, screen::dimmed(screen::colored(Color::Gray)))
}

fn instance_detail(i: &DbInstance) -> (r: Vec<Line>)
    ensures
        screen::drawn(r@) == instance_lines(*i),
{
    let mut out = start_lines();
    add_detail(&mut out, "Identifier", 16, i.identifier.as_str());
    let t = engine_string(&i.engine, &i.engine_version);
    add_detail(&mut out, "Engine", 16, t.as_str());
    add_opt_string(&mut out, "Class", &i.instance_class);
    let t = dash_string(&i.status);
    add_detail(&mut out, "Status", 16, t.as_str());
    add_opt_string(&mut out, "Endpoint", &i.endpoint_text());
    let storage = match i.allocated_storage {
        Some(s) => {
            let kind = dash_string(&i.storage_type);
            Some(cat3(dec(s as u64).as_str(), " GB · ", kind.as_str()))
        },
        None => None,
    };
    add_opt_string(&mut out, "Storage", &storage);
    add_opt(&mut out, "Multi-AZ", 16, bool_str(i.multi_az));
    add_opt_string(&mut out, "AZ", &i.az);
    add_opt(&mut out, "Public", 16, bool_str(i.publicly_accessible));
    add_opt_string(&mut out, "Master user", &i.master_username);
    add_opt_string(&mut out, "Cluster", &i.cluster_identifier);
    add_opt_string(&mut out, "Created", &i.create_time);
    add_section(&mut out, " ARN ", i.arn.as_str(), dim(color(Color::Gray)));
    out
}

/// Where a cluster can be reached for reading.
pub open spec fn reader_text(c: DbCluster) -> Option<Seq<char>> {
    match c.reader_endpoint {
        Some(h) => Some(rds::host_port(h@, c.port)),
        None => None,
    }
}

/// The storage of a cluster.
pub open spec fn allocated_text(c: DbCluster) -> Option<Seq<char>> {
    match c.allocated_storage {
        Some(s) => Some(numeral::decimal(s as nat) + " GB"@),
        None => None,
    }
}

/// The details of a cluster.
pub open spec fn cluster_lines(c: DbCluster) -> Seq<Seq<(Seq<char>, Style)>> {
    tabs::no_lines() + seq![tabs::detail_row("Identifier"@, 16, c.identifier@)] + seq![
        tabs::detail_row("Engine"@, 16, engine_text(c.engine, c.engine_version)),
    ] + tabs::opt_row("Mode"@, 16, text::opt_view(c.engine_mode)) + seq![
        tabs::detail_row("Status"@, 16, or_dash(c.status)),
    ] + tabs::opt_row("Endpoint"@, 16, rds::cluster_endpoint(c)) + tabs::opt_row(
        "Reader endpoint"@,
        16,
        reader_text(c),
    ) + tabs::opt_row("Database"@, 16, text::opt_view(c.database_name)) + tabs::opt_row(
        "Multi-AZ"@,
        16,
        bool_text(c.multi_az),
    ) + tabs::opt_row("Master user"@, 16, text::opt_view(c.master_username)) + tabs::opt_row(
        "Allocated"@,
        16,
        allocated_text(c),
    ) + tabs::opt_row("Created"@, 16, text::opt_view(c.create_time)) + tabs::section(
        " ARN "@,
        c.arn@,
        screen::dimmed(screen::colored(Color::Gray)),
    )
}

fn cluster_detail(c: &DbCluster) -> (r: Vec<Line>)
    ensures
        screen::drawn(r@) == cluster_lines(*c),
{
    let mut out = start_lines();
    add_detail(&mut out, "Identifier", 16, c.identifier.as_str());
    let t = engine_string(&c.engine, &c.engine_version);
    add_detail(&mut out, "Engine", 16, t.as_str());
    add_opt_string(&mut out, "Mode", &c.engine_mode);
    let t = dash_string(&c.status);
    add_detail(&mut out, "Status", 16, t.as_str());
    add_opt_string(&mut out, "Endpoint", &c.endpoint_text());
    let reader = match &c.reader_endpoint {
        Some(h) => Some(host_port_text(h.as_str(), c.port)),
        None => None,
    };
    add_opt_string(&mut out, "Reader endpoint", &reader);
    add_opt_string(&mut out, "Database", &c.database_name);
    add_opt(&mut out, "Multi-AZ", 16, bool_str(c.multi_az));
    add_opt_string(&mut out, "Master user", &c.master_username);
    let allocated = match c.allocated_storage {
        Some(s) => Some(cat2(dec(s as u64).as_str(), " GB")),
        None => None,
    };
    add_opt_string(&mut out, "Allocated", &allocated);
    add_opt_string(&mut out, "Created", &c.create_time);
    add_section(&mut out, " ARN ", c.arn.as_str(), dim(color(Color::Gray)));
    out
}

/// The details of the selected item.
pub fn draw_detail(item: Option<&Item>) -> (r: Vec<Line>)
    ensures
        screen::drawn(r@) == (match item {
            None => seq![seq![("(no item selected)"@, screen::colored(Color::DarkGray))]],
            Some(x) => match *x {
                Item::Instance(i) => instance_lines(i),
                Item::Cluster(c) => cluster_lines(c),
            },
        }),
{
    match item {
        None => {
            let mut out = start_lines();
            add_row(&mut out, line1("(no item selected)", color(Color::DarkGray)));
            assert(screen::drawn(out@) =~= seq![
                seq![("(no item selected)"@, screen::colored(Color::DarkGray))],
            ]);
            out
        },
        Some(x) => match x {
            Item::Instance(i) => instance_detail(i),
            Item::Cluster(c) => cluster_detail(c),
        },
    }
}

/// The status line.
pub fn draw_status(app: &App) -> (r: Line)
    ensures
        r@ == tabs::status_row(
            app.status@,
            " 1-9 tab · ↑↓/jk move · o console · y ARN · E endpoint · L logs · D db · r refresh · q quit "@,
        ),
{
    status_line(
        app.status.as_str(),
        " 1-9 tab · ↑↓/jk move · o console · y ARN · E endpoint · L logs · D db · r refresh · q quit ",
    )
}

/// `s` if it has at most `max` characters, else its beginning and an ellipsis.
pub fn truncate(s: &str, max: usize) -> (r: String)
    ensures
        r@ == text::shortened(s@, max as int),
{
    shorten(s, max)
}

} // verus!
