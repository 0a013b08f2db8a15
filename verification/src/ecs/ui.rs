//! What the services browser draws.

use vstd::prelude::*;

use crate::ecs::app::{App, SpecV, TabSpec, TabState};
use crate::ecs::ecs;
use crate::ecs::ecs::{
    count_or_zero, task_definition_short, Cluster, Deployment, Item, Service, ServiceEvent,
};
use crate::numeral;
use crate::numeral::{dec, dec_size};
use crate::offsets;
use crate::offsets::take_bytes;
use crate::screen;
use crate::screen::{color, dim, line1, line2, Color, Line, Style};
use crate::tabs;
use crate::tabs::{
    add_detail, add_opt, add_row, add_section, body_rows, gap_line, placeholder_line, row_line, show_rows,
    start_lines, status_line, Pane,
};
use crate::text;
use crate::text::{
    cat2, cat3, cat5, cat6, change_char, join, owned, pad_right, shorten, str_eq, text_or_empty,
};

verus! {

/// The status of an item, and how its newest deployment goes.
pub open spec fn states(x: Item) -> (Seq<char>, Seq<char>) {
    match x {
        Item::Cluster(c) => (text::or_empty(c.status), ""@),
        Item::Service(s) => (
            text::or_empty(s.status),
            if s.deployments@.len() > 0 {
                text::or_empty(s.deployments@[0].rollout_state)
            } else {
                ""@
            },
        ),
    }
}

/// The colour of an item: a deployment that has failed comes before all else.
pub open spec fn state_shade(x: Item) -> Color {
    let (status, rollout) = states(x);
    if rollout == "FAILED"@ {
        Color::Red
    } else if rollout == "IN_PROGRESS"@ {
        Color::Yellow
    } else if status == "DRAINING"@ {
        Color::Yellow
    } else if status == "INACTIVE"@ {
        Color::DarkGray
    } else {
        Color::Gray
    }
}

pub fn state_color_for(x: &Item) -> (r: Style)
    ensures
        r == screen::colored(state_shade(*x)),
{
    let (status, rollout) = match x {
        Item::Cluster(c) => (text_or_empty(&c.status), ""),
        Item::Service(s) => (
            text_or_empty(&s.status),
            if s.deployments.len() > 0 { text_or_empty(&s.deployments[0].rollout_state) } else { "" },
        ),
    };
    if str_eq(rollout, "FAILED") {
        color(Color::Red)
    } else if str_eq(rollout, "IN_PROGRESS") {
        color(Color::Yellow)
    } else if str_eq(status, "DRAINING") {
        color(Color::Yellow)
    } else if str_eq(status, "INACTIVE") {
        color(Color::DarkGray)
    } else {
        color(Color::Gray)
    }
}

/// The line of the item at row `i`.
pub open spec fn item_row(x: Seq<Item>, selected: int, i: int) -> Seq<(Seq<char>, Style)> {
    tabs::plain_row(
        i == selected,
        ecs::primary(x[i]),
        28,
        ecs::secondary(x[i]),
        screen::colored(state_shade(x[i])),
    )
}

/// The title of the list.
pub open spec fn list_title(s: SpecV, n: nat) -> Seq<char> {
    if s.kind == "clusters"@ {
        " clusters ("@ + numeral::decimal(n) + ") "@
    } else if s.kind == "services"@ {
        " services · "@ + (match s.cluster {
            Some(p) => p,
            None => "?"@,
        }) + " ("@ + numeral::decimal(n) + ") "@
    } else {
        " items ("@ + numeral::decimal(n) + ") "@
    }
}

fn title_of(s: &TabSpec, n: usize) -> (r: String)
    ensures
        r@ == list_title(s@, n as nat),
{
    let count = dec_size(n);
    if str_eq(s.kind.as_str(), "clusters") {
        cat3(" clusters (", count.as_str(), ") ")
    } else if str_eq(s.kind.as_str(), "services") {
        let cluster = match &s.cluster {
            Some(p) => p.as_str(),
            None => "?",
        };
        cat5(" services · ", cluster, " (", count.as_str(), ") ")
    } else {
        cat3(" items (", count.as_str(), ") ")
    }
}

/// The list in a frame that is `height` lines high.
pub fn draw_list(tab: &TabState, height: u16) -> (r: Pane)
    ensures
        match tabs::placeholder(tab.data@, "(none)"@) {
            Some(l) => r.title@ == " items "@ && screen::drawn(r.lines@) == seq![l],
            None => {
                &&& r.title@ == list_title(tab.spec@, tab.data@.items.len())
                &&& screen::drawn(r.lines@) == tabs::shown_rows(
                    |i: int| item_row(tab.data@.items, tab.data@.selected, i),
                    tab.data@.selected,
                    tab.data@.items.len() as int,
                    if height >= 2 {
                        height - 2
                    } else {
                        0
                    },
                )
            },
        },
{
    match placeholder_line(&tab.data, "(none)") {
        Some(l) => {
            let mut out = start_lines();
            add_row(&mut out, l);
            assert(screen::drawn(out@) =~= seq![l@]);
            Pane { title: owned(" items "), lines: out }
        },
        None => {
            let items = &tab.data.items;
            let n: usize = items.len();
            let selected: usize = tab.data.selected;
            let draw = |i: usize| -> (l: Line)
                requires
                    i < items.len(),
                ensures
                    l@ == item_row(items@, selected as int, i as int),
            {
                let x = &items[i];
                let name = x.primary_label();
                let about = x.secondary_label();
                row_line(i == selected, name, 28, about.as_str(), state_color_for(x))
            };
            let rows = show_rows(
                n,
                selected,
                body_rows(height),
                draw,
                Ghost(|i: int| item_row(tab.data@.items, tab.data@.selected, i)),
            );
            Pane { title: title_of(&tab.spec, n), lines: rows }
        },
    }
}

/// A text, or a dash.
pub open spec fn or_dash(o: Option<String>) -> Seq<char> {
    match o {
        Some(s) => s@,
        None => "—"@,
    }
}

fn text_or_dash(o: &Option<String>) -> (r: &str)
    ensures
        r@ == or_dash(*o),
{
    match o {
        Some(s) => s.as_str(),
        None => "—",
    }
}

/// A number, or a dash.
pub open spec fn count_words(n: Option<u64>) -> Seq<char> {
    match n {
        Some(k) => numeral::decimal(k as nat),
        None => "—"@,
    }
}

fn count_text(n: Option<u64>) -> (r: String)
    ensures
        r@ == count_words(n),
{
    match n {
        Some(k) => dec(k),
        None => owned("—"),
    }
}

/// A number that is not 0.
pub open spec fn some_count(n: Option<u64>) -> Option<Seq<char>> {
    if ecs::or_zero(n) > 0 {
        Some(numeral::decimal(ecs::or_zero(n) as nat))
    } else {
        None
    }
}

fn add_count(out: &mut Vec<Line>, name: &str, n: Option<u64>)
    ensures
        screen::drawn(final(out)@) == screen::drawn(old(out)@) + tabs::opt_row(name@, 14, some_count(n)),
{
    let k: u64 = count_or_zero(n);
    if k > 0 {
        let t = dec(k);
        add_opt(out, name, 14, Some(t.as_str()));
    } else {
        add_opt(out, name, 14, None);
    }
}

fn add_opt_string(out: &mut Vec<Line>, name: &str, value: &Option<String>)
    ensures
        screen::drawn(final(out)@) == screen::drawn(old(out)@) + tabs::opt_row(
            name@,
            14,
            text::opt_view(*value),
        ),
{
    match value {
        Some(v) => add_opt(out, name, 14, Some(v.as_str())),
        None => add_opt(out, name, 14, None),
    }
}

/// The details of a cluster.
pub open spec fn cluster_lines(c: Cluster) -> Seq<Seq<(Seq<char>, Style)>> {
    tabs::no_lines() + seq![tabs::detail_row("Name"@, 14, c.name@)] + seq![
        tabs::detail_row("Status"@, 14, or_dash(c.status)),
    ] + seq![tabs::detail_row("Services"@, 14, count_words(c.active_services))] + seq![
        tabs::detail_row("Running tasks"@, 14, count_words(c.running_tasks)),
    ] + tabs::opt_row("Pending tasks"@, 14, some_count(c.pending_tasks)) + tabs::opt_row(
        "EC2 instances"@,
        14,
        some_count(c.container_instances),
    ) + tabs::opt_row(
        "Providers"@,
        14,
        if c.capacity_providers@.len() > 0 {
            Some(text::joined(text::views(c.capacity_providers@), ", "@))
        } else {
            None
        },
    ) + tabs::section(" ARN "@, c.arn@, screen::dimmed(screen::colored(Color::Gray)))
}

/// How many tasks of a service run of how many, and how many are about to.
pub open spec fn tasks_words(s: Service) -> Seq<char> {
    let of = numeral::decimal(ecs::or_zero(s.running_count) as nat) + "/"@ + numeral::decimal(
        ecs::or_zero(s.desired_count) as nat,
    );
    if ecs::or_zero(s.pending_count) > 0 {
        of + " (pending "@ + numeral::decimal(ecs::or_zero(s.pending_count) as nat) + ")"@
    } else {
        of
    }
}

/// The name of a task definition, where there is one.
pub open spec fn task_words(td: Option<String>) -> Option<Seq<char>> {
    match td {
        Some(t) => Some(text::after_last(t@, '/')),
        None => None,
    }
}

/// The colour of a deployment.
pub open spec fn rollout_shade(rollout: Seq<char>) -> Color {
    if rollout == "FAILED"@ {
        Color::Red
    } else if rollout == "IN_PROGRESS"@ {
        Color::Yellow
    } else if rollout == "COMPLETED"@ {
        Color::Green
    } else {
        Color::Gray
    }
}

/// The lines of a deployment; how it goes is said as long as it is not done.
pub open spec fn deployment_lines(d: Deployment) -> Seq<Seq<(Seq<char>, Style)>> {
    let rollout = text::or_empty(d.rollout_state);
    let status = match d.status {
        Some(s) => s@,
        None => "?"@,
    };
    let td = match d.task_definition {
        Some(t) => text::after_last(t@, '/'),
        None => "—"@,
    };
    seq![
        seq![
            (
                " "@ + text::padded_right(status, 10) + " "@,
                screen::colored(rollout_shade(rollout)),
            ),
            (text::padded_right(td, 24) + " "@, screen::colored(Color::White)),
            (
                numeral::decimal(ecs::or_zero(d.running_count) as nat) + "/"@ + numeral::decimal(
                    ecs::or_zero(d.desired_count) as nat,
                ),
                screen::colored(Color::Gray),
            ),
        ],
    ] + (if rollout.len() > 0 && rollout != "COMPLETED"@ {
        seq![
            seq![
                (
                    "     rollout: "@ + rollout,
                    screen::dimmed(screen::colored(Color::DarkGray)),
                ),
            ],
        ]
    } else {
        tabs::no_lines()
    })
}

fn add_deployment(out: &mut Vec<Line>, d: &Deployment)
    ensures
        screen::drawn(final(out)@) == screen::drawn(old(out)@) + deployment_lines(*d),
{
    let ghost start = screen::drawn(out@);
    let rollout = text_or_empty(&d.rollout_state);
    let status = match &d.status {
        Some(s) => s.as_str(),
        None => "?",
    };
    let td = match &d.task_definition {
        Some(t) => task_definition_short(t.as_str()),
        None => owned("—"),
    };
    let shade = if str_eq(rollout, "FAILED") {
        Color::Red
    } else if str_eq(rollout, "IN_PROGRESS") {
        Color::Yellow
    } else if str_eq(rollout, "COMPLETED") {
        Color::Green
    } else {
        Color::Gray
    };
    let first = cat3(" ", pad_right(status, 10).as_str(), " ");
    let second = cat2(pad_right(td.as_str(), 24).as_str(), " ");
    let third = cat3(
        dec(count_or_zero(d.running_count)).as_str(),
        "/",
        dec(count_or_zero(d.desired_count)).as_str(),
    );
    let l = Line::blank().with(first.as_str(), color(shade)).with(
        second.as_str(),
        color(Color::White),
    ).with(third.as_str(), color(Color::Gray));
    assert(l@ =~= deployment_lines(*d)[0]);
    add_row(out, l);
    if !rollout.is_empty() && !str_eq(rollout, "COMPLETED") {
        let t = cat2("     rollout: ", rollout);
        add_row(out, line1(t.as_str(), dim(color(Color::DarkGray))));
    }
    assert(screen::drawn(out@) =~= start + deployment_lines(*d));
}

/// The lines of the first `n` deployments.
pub open spec fn first_deployments(d: Seq<Deployment>, n: int) -> Seq<Seq<(Seq<char>, Style)>>
    decreases n,
{
    if n <= 0 {
        Seq::empty()
    } else {
        first_deployments(d, n - 1) + deployment_lines(d[n - 1])
    }
}

/// The smaller of two numbers.
pub open spec fn at_most(n: nat, most: int) -> int {
    if n <= most {
        n as int
    } else {
        most
    }
}

/// The lines about the deployments of a service, where it has some.
pub open spec fn deployments_lines(d: Seq<Deployment>) -> Seq<Seq<(Seq<char>, Style)>> {
    if d.len() > 0 {
        seq![tabs::gap()] + seq![
            seq![
                (
                    " Deployments ("@ + numeral::decimal(d.len()) + ") "@,
                    screen::colored(Color::DarkGray),
                ),
            ],
        ] + first_deployments(d, at_most(d.len(), 3))
    } else {
        tabs::no_lines()
    }
}

fn add_deployments(out: &mut Vec<Line>, d: &Vec<Deployment>)
    ensures
        screen::drawn(final(out)@) == screen::drawn(old(out)@) + deployments_lines(d@),
{
    let ghost start = screen::drawn(out@);
    if d.len() > 0 {
        add_row(out, gap_line());
        let head = cat3(" Deployments (", dec_size(d.len()).as_str(), ") ");
        add_row(out, line1(head.as_str(), color(Color::DarkGray)));
        let n: usize = if d.len() <= 3 { d.len() } else { 3 };
        let ghost first = screen::drawn(out@);
        let mut i: usize = 0;
        assert(first + first_deployments(d@, 0) =~= first);
        while i < n
            invariant
                i <= n <= d.len(),
                screen::drawn(out@) == first + first_deployments(d@, i as int),
            decreases n - i,
        {
            add_deployment(out, &d[i]);
            assert(screen::drawn(out@) =~= first + first_deployments(d@, i + 1));
            i = i + 1;
        }
    }
    assert(screen::drawn(out@) =~= start + deployments_lines(d@));
}

/// A point in time to the second, with a space in front of the hour; a text that
/// is too short stays as it is.
pub open spec fn second_words(ts: Seq<char>) -> Seq<char> {
    match offsets::first_bytes(ts, 19) {
        Some(head) => text::with_char(head, 'T', ' '),
        None => ts,
    }
}

/// A point in time to the second; a text that is too short stays as it is.
pub fn short_timestamp(ts: &str) -> (r: String)
    ensures
        r@ == second_words(ts@),
{
    match take_bytes(ts, 19) {
        Some(head) => change_char(head, 'T', ' '),
        None => owned(ts),
    }
}

/// The line of an event.
pub open spec fn event_row(e: ServiceEvent) -> Seq<(Seq<char>, Style)> {
    let ts = match e.created_at {
        Some(t) => second_words(t@),
        None => ""@,
    };
    seq![
        (
            " "@ + text::padded_right(ts, 19) + " "@,
            screen::dimmed(screen::colored(Color::DarkGray)),
        ),
        (text::shortened(text::or_empty(e.message), 64), screen::colored(Color::Gray)),
    ]
}

fn event_line(e: &ServiceEvent) -> (r: Line)
    ensures
        r@ == event_row(*e),
{
    let ts = match &e.created_at {
        Some(t) => short_timestamp(t.as_str()),
        None => owned(""),
    };
    let first = cat3(" ", pad_right(ts.as_str(), 19).as_str(), " ");
    let message = shorten(text_or_empty(&e.message), 64);
    line2(first.as_str(), dim(color(Color::DarkGray)), message.as_str(), color(Color::Gray))
}

/// The lines about what happened to a service lately, where something did.
pub open spec fn events_lines(e: Seq<ServiceEvent>) -> Seq<Seq<(Seq<char>, Style)>> {
    if e.len() > 0 {
        seq![tabs::gap()] + seq![seq![(" Recent events "@, screen::colored(Color::DarkGray))]]
            + Seq::new(at_most(e.len(), 5) as nat, |i: int| event_row(e[i]))
    } else {
        tabs::no_lines()
    }
}

fn add_events(out: &mut Vec<Line>, e: &Vec<ServiceEvent>)
    ensures
        screen::drawn(final(out)@) == screen::drawn(old(out)@) + events_lines(e@),
{
    let ghost start = screen::drawn(out@);
    if e.len() > 0 {
        add_row(out, gap_line());
        add_row(out, line1(" Recent events ", color(Color::DarkGray)));
        let n: usize = if e.len() <= 5 { e.len() } else { 5 };
        let ghost first = screen::drawn(out@);
        let ghost all = Seq::new(at_most(e@.len(), 5) as nat, |i: int| event_row(e@[i]));
        let mut i: usize = 0;
        assert(first + all.take(0) =~= first);
        while i < n
            invariant
                i <= n <= e.len(),
                n == all.len(),
                all == Seq::new(at_most(e@.len(), 5) as nat, |i: int| event_row(e@[i])),
                screen::drawn(out@) == first + all.take(i as int),
            decreases n - i,
        {
            add_row(out, event_line(&e[i]));
            assert(all.take(i + 1) =~= all.take(i as int) + seq![all[i as int]]);
            assert(screen::drawn(out@) =~= first + all.take(i + 1));
            i = i + 1;
        }
        assert(all.take(n as int) =~= all);
    }
    assert(screen::drawn(out@) =~= start + events_lines(e@));
}

/// The details of a service.
pub open spec fn service_lines(s: Service) -> Seq<Seq<(Seq<char>, Style)>> {
    tabs::no_lines() + seq![tabs::detail_row("Name"@, 14, s.name@)] + seq![
        tabs::detail_row("Status"@, 14, or_dash(s.status)),
    ] + seq![tabs::detail_row("Tasks"@, 14, tasks_words(s))] + tabs::opt_row(
        "Task def"@,
        14,
        task_words(s.task_definition),
    ) + tabs::opt_row("Launch type"@, 14, text::opt_view(s.launch_type)) + tabs::opt_row(
        "Platform"@,
        14,
        text::opt_view(s.platform_version),
    ) + tabs::opt_row("Created"@, 14, text::opt_view(s.created_at)) + deployments_lines(s.deployments@)
        + events_lines(s.events@) + tabs::section(
        " ARN "@,
        s.arn@,
        screen::dimmed(screen::colored(Color::Gray)),
    )
}

fn add_service(out: &mut Vec<Line>, s: &Service)
    requires
        screen::drawn(old(out)@) == tabs::no_lines(),
    ensures
        screen::drawn(final(out)@) == service_lines(*s),
{
    add_detail(out, "Name", 14, s.name.as_str());
    add_detail(out, "Status", 14, text_or_dash(&s.status));
    let pending: u64 = count_or_zero(s.pending_count);
    let running = dec(count_or_zero(s.running_count));
    let desired = dec(count_or_zero(s.desired_count));
    let tasks = if pending > 0 {
        cat6(running.as_str(), "/", desired.as_str(), " (pending ", dec(pending).as_str(), ")")
    } else {
        cat3(running.as_str(), "/", desired.as_str())
    };
    add_detail(out, "Tasks", 14, tasks.as_str());
    match &s.task_definition {
        Some(t) => {
            let words = task_definition_short(t.as_str());
            add_opt(out, "Task def", 14, Some(words.as_str()));
        },
        None => add_opt(out, "Task def", 14, None),
    }
    add_opt_string(out, "Launch type", &s.launch_type);
    add_opt_string(out, "Platform", &s.platform_version);
    add_opt_string(out, "Created", &s.created_at);
    add_deployments(out, &s.deployments);
    add_events(out, &s.events);
    add_section(out, " ARN ", s.arn.as_str(), dim(color(Color::Gray)));
}

/// The details of the selected item.
pub fn draw_detail(item: Option<&Item>) -> (r: Vec<Line>)
    ensures
        screen::drawn(r@) == (match item {
            None => seq![seq![("(no item selected)"@, screen::colored(Color::DarkGray))]],
            Some(Item::Cluster(c)) => cluster_lines(*c),
            Some(Item::Service(s)) => service_lines(*s),
        }),
{
    let mut out = start_lines();
    match item {
        None => {
            add_row(&mut out, line1("(no item selected)", color(Color::DarkGray)));
            assert(screen::drawn(out@) =~= seq![
                seq![("(no item selected)"@, screen::colored(Color::DarkGray))],
            ]);
        },
        Some(Item::Cluster(c)) => {
            add_detail(&mut out, "Name", 14, c.name.as_str());
            add_detail(&mut out, "Status", 14, text_or_dash(&c.status));
            add_detail(&mut out, "Services", 14, count_text(c.active_services).as_str());
            add_detail(&mut out, "Running tasks", 14, count_text(c.running_tasks).as_str());
            add_count(&mut out, "Pending tasks", c.pending_tasks);
            add_count(&mut out, "EC2 instances", c.container_instances);
            if c.capacity_providers.len() > 0 {
                let t = join(&c.capacity_providers, ", ");
                add_opt(&mut out, "Providers", 14, Some(t.as_str()));
            } else {
                add_opt(&mut out, "Providers", 14, None);
            }
            add_section(&mut out, " ARN ", c.arn.as_str(), dim(color(Color::Gray)));
        },
        Some(Item::Service(s)) => add_service(&mut out, s),
    }
    out
}

/// The status line.
pub fn draw_status(app: &App) -> (r: Line)
    ensures
        r@ == tabs::status_row(
            app.status@,
            " 1-9 tab · ↑↓/jk move · o console · y ARN · L logs · R ECR · r refresh · q quit "@,
        ),
{
    status_line(
        app.status.as_str(),
        " 1-9 tab · ↑↓/jk move · o console · y ARN · L logs · R ECR · r refresh · q quit ",
    )
}

/// `s` if it has at most `max` characters, else its beginning and an ellipsis.
pub fn truncate(s: &str, max: usize) -> (r: String)
    ensures
        r@ == text::shortened(s@, max as int),
{
    shorten(s, max)
}

/// A deployment that has failed is red, whatever the status of its service.
pub proof fn law_failed_rollout_is_red(s: Service)
    requires
        s.deployments@.len() > 0,
        text::or_empty(s.deployments@[0].rollout_state) == "FAILED"@,
    ensures
        state_shade(Item::Service(s)) == Color::Red,
{
}

} // verus!
