//! What the images browser draws.

use vstd::prelude::*;

use crate::ecr::app::{App, SpecV, TabSpec, TabState};
use crate::ecr::ecr;
use crate::ecr::ecr::{
    fmt_bytes, short_digest, short_timestamp, ImageDetail, Item, Repository, ScanFindingsSummary, ScanStatus,
};
use crate::numeral;
use crate::numeral::{dec, dec_size, dec_wide};
use crate::screen;
use crate::screen::{color, dim, line1, line2, Color, Line, Style};
use crate::tabs;
use crate::tabs::{
    add_detail, add_opt, add_row, add_section, body_rows, gap_line, placeholder_line, row_line, show_rows,
    start_lines, status_line, Pane,
};
use crate::text;
use crate::text::{cat2, cat3, cat5, join, owned, pad_right, shorten, str_eq};

verus! {

/// The colour of an item: an image shows what its scan has found.
pub open spec fn vuln_shade(x: Item) -> Color {
    match x {
        Item::Repository(_) => Color::Gray,
        Item::Image(i) => match i.scan_summary {
            None => Color::Gray,
            Some(s) => if ecr::findings(s, "CRITICAL"@) > 0 {
                Color::Red
            } else if ecr::findings(s, "HIGH"@) > 0 {
                Color::Yellow
            } else if ecr::all_findings(s) == 0 {
                Color::Green
            } else {
                Color::Gray
            },
        },
    }
}

pub fn vuln_color_for(x: &Item) -> (r: Style)
    ensures
        r == screen::colored(vuln_shade(*x)),
{
    match x {
        Item::Repository(_) => color(Color::Gray),
        Item::Image(i) => match &i.scan_summary {
            None => color(Color::Gray),
            Some(s) => {
                if s.critical() > 0 {
                    color(Color::Red)
                } else if s.high() > 0 {
                    color(Color::Yellow)
                } else if s.wide_total() == 0 {
                    color(Color::Green)
                } else {
                    color(Color::Gray)
                }
            },
        },
    }
}

/// The line of the item at row `i`.
pub open spec fn item_row(x: Seq<Item>, selected: int, i: int) -> Seq<(Seq<char>, Style)> {
    tabs::plain_row(
        i == selected,
        ecr::primary(x[i]),
        24,
        ecr::secondary(x[i]),
        screen::colored(vuln_shade(x[i])),
    )
}

/// The title of the list.
pub open spec fn list_title(s: SpecV, n: nat) -> Seq<char> {
    if s.kind == "repositories"@ {
        " repositories ("@ + numeral::decimal(n) + ") "@
    } else if s.kind == "images"@ {
        " images · "@ + (match s.repository {
            Some(p) => p,
            None => "?"@,
        }) + " ("@ + numeral::decimal(n) + ") "@
    } else {
        " items ("@ + numeral::decimal(n) + ") "@
    }
}

fn title_of(s: &TabSpec, n: usize) -> (r: String)
    ensures
        r@ == list_title(s@, n as nat),
{
    let count = dec_size(n);
    if str_eq(s.kind.as_str(), "repositories") {
        cat3(" repositories (", count.as_str(), ") ")
    } else if str_eq(s.kind.as_str(), "images") {
        let repo = match &s.repository {
            Some(p) => p.as_str(),
            None => "?",
        };
        cat5(" images · ", repo, " (", count.as_str(), ") ")
    } else {
        cat3(" items (", count.as_str(), ") ")
    }
}

/// The list in a frame that is `height` lines high.
pub fn draw_list(tab: &TabState, height: u16) -> (r: Pane)
    ensures
        match tabs::placeholder(tab.data@, "(none)"@) {
            Some(l) => r.title@ == " items "@ && screen::drawn(r.lines@) == seq![l],
            None => {
                &&& r.title@ == list_title(tab.spec@, tab.data@.items.len())
                &&& screen::drawn(r.lines@) == tabs::shown_rows(
                    |i: int| item_row(tab.data@.items, tab.data@.selected, i),
                    tab.data@.selected,
                    tab.data@.items.len() as int,
                    if height >= 2 {
                        height - 2
                    } else {
                        0
                    },
                )
            },
        },
{
    match placeholder_line(&tab.data, "(none)") {
        Some(l) => {
            let mut out = start_lines();
            add_row(&mut out, l);
            assert(screen::drawn(out@) =~= seq![l@]);
            Pane { title: owned(" items "), lines: out }
        },
        None => {
            let items = &tab.data.items;
            let n: usize = items.len();
            let selected: usize = tab.data.selected;
            let draw = |i: usize| -> (l: Line)
                requires
                    i < items.len(),
                ensures
                    l@ == item_row(items@, selected as int, i as int),
            {
                let x = &items[i];
                let name = x.primary_label();
                let about = x.secondary_label();
                row_line(i == selected, name.as_str(), 24, about.as_str(), vuln_color_for(x))
            };
            let rows = show_rows(
                n,
                selected,
                body_rows(height),
                draw,
                Ghost(|i: int| item_row(tab.data@.items, tab.data@.selected, i)),
            );
            Pane { title: title_of(&tab.spec, n), lines: rows }
        },
    }
}

/// Whether images are scanned when they are pushed.
pub open spec fn scan_on_push(r: Repository) -> Option<Seq<char>> {
    match r.scanning {
        Some(c) => match c.scan_on_push {
            Some(b) => Some(
                if b {
                    "true"@
                } else {
                    "false"@
                },
            ),
            None => None,
        },
        None => None,
    }
}

/// The details of a repository.
pub open spec fn repository_lines(r: Repository) -> Seq<Seq<(Seq<char>, Style)>> {
    tabs::no_lines() + seq![tabs::detail_row("Name"@, 14, r.name@)] + tabs::opt_row(
        "URI"@,
        14,
        text::opt_view(r.uri),
    ) + tabs::opt_row("Registry"@, 14, text::opt_view(r.registry_id)) + tabs::opt_row(
        "Tag mutability"@,
        14,
        text::opt_view(r.tag_mutability),
    ) + tabs::opt_row("Scan on push"@, 14, scan_on_push(r)) + tabs::opt_row(
        "Created"@,
        14,
        text::opt_view(r.created_at),
    ) + tabs::section(" ARN "@, r.arn@, screen::dimmed(screen::colored(Color::Gray)))
}

fn add_opt_string(out: &mut Vec<Line>, name: &str, value: &Option<String>)
    ensures
        screen::drawn(final(out)@) == screen::drawn(old(out)@) + tabs::opt_row(
            name@,
            14,
            text::opt_view(*value),
        ),
{
    match value {
        Some(v) => add_opt(out, name, 14, Some(v.as_str())),
        None => add_opt(out, name, 14, None),
    }
}

/// The line of the findings of a severity, where there are some.
pub open spec fn severity_row(label: Seq<char>, n: u64, shade: Color) -> Seq<Seq<(Seq<char>, Style)>> {
    if n == 0 {
        tabs::no_lines()
    } else {
        seq![
            seq![
                (" "@ + text::padded_right(label, 10), screen::colored(shade)),
                (numeral::decimal(n as nat), screen::colored(Color::White)),
            ],
        ]
    }
}

fn add_severity(out: &mut Vec<Line>, label: &str, n: u64, shade: Color)
    ensures
        screen::drawn(final(out)@) == screen::drawn(old(out)@) + severity_row(label@, n, shade),
{
    if n == 0 {
        assert(screen::drawn(out@) + tabs::no_lines() =~= screen::drawn(out@));
    } else {
        let name = cat2(" ", pad_right(label, 10).as_str());
        add_row(out, line2(name.as_str(), color(shade), dec(n).as_str(), color(Color::White)));
    }
}

/// The lines about a scan.
pub open spec fn scan_lines(s: ScanFindingsSummary) -> Seq<Seq<(Seq<char>, Style)>> {
    let faint = screen::dimmed(screen::colored(Color::DarkGray));
    seq![tabs::gap()] + seq![
        seq![
            (
                " Vulnerability scan ("@ + numeral::decimal(ecr::all_findings(s) as nat) + " findings) "@,
                screen::colored(Color::DarkGray),
            ),
        ],
    ] + severity_row("CRITICAL"@, ecr::findings(s, "CRITICAL"@), Color::Red) + severity_row(
        "HIGH"@,
        ecr::findings(s, "HIGH"@),
        Color::Yellow,
    ) + severity_row("MEDIUM"@, ecr::findings(s, "MEDIUM"@), Color::Cyan) + severity_row(
        "LOW"@,
        ecr::findings(s, "LOW"@),
        Color::Gray,
    ) + severity_row("INFO"@, ecr::findings(s, "INFORMATIONAL"@), Color::DarkGray) + (if ecr::all_findings(s)
        == 0 {
        seq![seq![(" (clean — no findings)"@, screen::colored(Color::Green))]]
    } else {
        tabs::no_lines()
    }) + (match s.completed_at {
        Some(t) => seq![seq![(" scanned: "@ + ecr::minute_words(t@), faint)]],
        None => tabs::no_lines(),
    })
}

#[verifier::rlimit(60)]
#[verifier::spinoff_prover]
fn add_scan(out: &mut Vec<Line>, s: &ScanFindingsSummary)
    ensures
        screen::drawn(final(out)@) == screen::drawn(old(out)@) + scan_lines(*s),
{
    let ghost start = screen::drawn(out@);
    add_row(out, gap_line());
    let total: u128 = s.wide_total();
    let head = cat3(" Vulnerability scan (", dec_wide(total).as_str(), " findings) ");
    add_row(out, line1(head.as_str(), color(Color::DarkGray)));
    add_severity(out, "CRITICAL", s.critical(), Color::Red);
    add_severity(out, "HIGH", s.high(), Color::Yellow);
    add_severity(out, "MEDIUM", s.medium(), Color::Cyan);
    add_severity(out, "LOW", s.low(), Color::Gray);
    add_severity(out, "INFO", s.informational(), Color::DarkGray);
    if total == 0 {
        add_row(out, line1(" (clean — no findings)", color(Color::Green)));
    }
    if let Some(t) = &s.completed_at {
        let words = cat2(" scanned: ", short_timestamp(t.as_str()).as_str());
        add_row(out, line1(words.as_str(), dim(color(Color::DarkGray))));
    }
    assert(screen::drawn(out@) =~= start + scan_lines(*s));
}

/// The lines about how far a scan has come, where it has found nothing yet.
pub open spec fn scan_status_lines(s: Option<ScanStatus>) -> Seq<Seq<(Seq<char>, Style)>> {
    match s {
        Some(s) => match s.status {
            Some(w) => seq![tabs::gap()] + seq![
                seq![(" Scan: "@ + w@, screen::dimmed(screen::colored(Color::DarkGray)))],
            ],
            None => tabs::no_lines(),
        },
        None => tabs::no_lines(),
    }
}

/// The lines about the scan of an image.
pub open spec fn findings_lines(i: ImageDetail) -> Seq<Seq<(Seq<char>, Style)>> {
    match i.scan_summary {
        Some(s) => scan_lines(s),
        None => scan_status_lines(i.scan_status),
    }
}

fn add_findings(out: &mut Vec<Line>, i: &ImageDetail)
    ensures
        screen::drawn(final(out)@) == screen::drawn(old(out)@) + findings_lines(*i),
{
    let ghost start = screen::drawn(out@);
    match &i.scan_summary {
        Some(s) => add_scan(out, s),
        None => {
            if let Some(s) = &i.scan_status {
                if let Some(w) = &s.status {
                    add_row(out, gap_line());
                    let words = cat2(" Scan: ", w.as_str());
                    add_row(out, line1(words.as_str(), dim(color(Color::DarkGray))));
                }
            }
        },
    }
    assert(screen::drawn(out@) =~= start + findings_lines(*i));
}

/// The tags of an image in one text.
pub open spec fn tags_text(i: ImageDetail) -> Seq<char> {
    if i.tags@.len() > 0 {
        text::joined(text::views(i.tags@), ", "@)
    } else {
        "(untagged)"@
    }
}

/// What `f` makes of a text, where there is one.
pub open spec fn mapped(o: Option<String>, f: spec_fn(Seq<char>) -> Seq<char>) -> Option<Seq<char>> {
    match o {
        Some(s) => Some(f(s@)),
        None => None,
    }
}

/// The lines about the whole digest of an image.
pub open spec fn digest_lines(d: Option<String>) -> Seq<Seq<(Seq<char>, Style)>> {
    seq![tabs::gap()] + seq![seq![(" Full digest "@, screen::colored(Color::DarkGray))]] + (match d {
        Some(s) => seq![seq![(" "@ + s@, screen::dimmed(screen::colored(Color::Gray)))]],
        None => tabs::no_lines(),
    })
}

/// The details of an image.
pub open spec fn image_lines(i: ImageDetail) -> Seq<Seq<(Seq<char>, Style)>> {
    tabs::no_lines() + seq![tabs::detail_row("Repository"@, 14, i.repository_name@)] + seq![
        tabs::detail_row("Tags"@, 14, tags_text(i)),
    ] + tabs::opt_row(
        "Digest"@,
        14,
        mapped(i.digest, |d: Seq<char>| ecr::digest_words(d) + "…"@),
    ) + tabs::opt_row(
        "Size"@,
        14,
        match i.size_bytes {
            Some(n) => Some(numeral::byte_count(n as nat)),
            None => None,
        },
    ) + tabs::opt_row("Pushed"@, 14, mapped(i.pushed_at, |t: Seq<char>| ecr::minute_words(t)))
        + tabs::opt_row("Manifest"@, 14, text::opt_view(i.manifest_media_type)) + tabs::opt_row(
        "Artifact"@,
        14,
        text::opt_view(i.artifact_media_type),
    ) + findings_lines(i) + digest_lines(i.digest)
}

/// The details of the selected item.
pub fn draw_detail(item: Option<&Item>) -> (r: Vec<Line>)
    ensures
        screen::drawn(r@) == (match item {
            None => seq![seq![("(no item selected)"@, screen::colored(Color::DarkGray))]],
            Some(Item::Repository(p)) => repository_lines(*p),
            Some(Item::Image(i)) => image_lines(*i),
        }),
{
    let mut out = start_lines();
    match item {
        None => {
            add_row(&mut out, line1("(no item selected)", color(Color::DarkGray)));
            assert(screen::drawn(out@) =~= seq![
                seq![("(no item selected)"@, screen::colored(Color::DarkGray))],
            ]);
        },
        Some(Item::Repository(p)) => {
            add_detail(&mut out, "Name", 14, p.name.as_str());
            add_opt_string(&mut out, "URI", &p.uri);
            add_opt_string(&mut out, "Registry", &p.registry_id);
            add_opt_string(&mut out, "Tag mutability", &p.tag_mutability);
            let scan = match &p.scanning {
                Some(c) => match c.scan_on_push {
                    Some(true) => Some("true"),
                    Some(false) => Some("false"),
                    None => None,
                },
                None => None,
            };
            add_opt(&mut out, "Scan on push", 14, scan);
            add_opt_string(&mut out, "Created", &p.created_at);
            add_section(&mut out, " ARN ", p.arn.as_str(), dim(color(Color::Gray)));
        },
        Some(Item::Image(i)) => add_image(&mut out, i),
    }
    out
}

fn add_image(out: &mut Vec<Line>, i: &ImageDetail)
    requires
        screen::drawn(old(out)@) == tabs::no_lines(),
    ensures
        screen::drawn(final(out)@) == image_lines(*i),
{
    add_detail(out, "Repository", 14, i.repository_name.as_str());
    let tags = if i.tags.len() > 0 { join(&i.tags, ", ") } else { owned("(untagged)") };
    add_detail(out, "Tags", 14, tags.as_str());
    match &i.digest {
        Some(d) => {
            let t = cat2(short_digest(d.as_str()).as_str(), "…");
            add_opt(out, "Digest", 14, Some(t.as_str()));
        },
        None => add_opt(out, "Digest", 14, None),
    }
    match i.size_bytes {
        Some(n) => {
            let t = fmt_bytes(n);
            add_opt(out, "Size", 14, Some(t.as_str()));
        },
        None => add_opt(out, "Size", 14, None),
    }
    match &i.pushed_at {
        Some(t) => {
            let words = short_timestamp(t.as_str());
            add_opt(out, "Pushed", 14, Some(words.as_str()));
        },
        None => add_opt(out, "Pushed", 14, None),
    }
    add_opt_string(out, "Manifest", &i.manifest_media_type);
    add_opt_string(out, "Artifact", &i.artifact_media_type);
    add_findings(out, i);
    let ghost before = screen::drawn(out@);
    add_row(out, gap_line());
    add_row(out, line1(" Full digest ", color(Color::DarkGray)));
    if let Some(d) = &i.digest {
        let t = cat2(" ", d.as_str());
        add_row(out, line1(t.as_str(), dim(color(Color::Gray))));
    }
    assert(screen::drawn(out@) =~= before + digest_lines(i.digest));
}

/// The status line.
pub fn draw_status(app: &App) -> (r: Line)
    ensures
        r@ == tabs::status_row(
            app.status@,
            " 1-9 tab · ↑↓/jk move · o console · y ARN/URI · r refresh · q quit "@,
        ),
{
    status_line(
        app.status.as_str(),
        " 1-9 tab · ↑↓/jk move · o console · y ARN/URI · r refresh · q quit ",
    )
}

/// `s` if it has at most `max` characters, else its beginning and an ellipsis.
pub fn truncate(s: &str, max: usize) -> (r: String)
    ensures
        r@ == text::shortened(s@, max as int),
{
    shorten(s, max)
}

/// An image with critical findings is red, whatever else its scan has found.
pub proof fn law_critical_is_red(i: ImageDetail)
    requires
        i.scan_summary is Some,
        ecr::findings(i.scan_summary->0, "CRITICAL"@) > 0,
    ensures
        vuln_shade(Item::Image(i)) == Color::Red,
{
}

} // verus!
