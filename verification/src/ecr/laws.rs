//! What holds of the registry browser: how images are named, what is told of their
//! findings, and what the browser does.

use vstd::prelude::*;

use crate::command::Ran;
use crate::ecr::app;
use crate::ecr::app::{App, Fetch, SpecV, TabSpec, TabState, Yank};
use crate::ecr::config;
use crate::ecr::config::{Config, Tab};
use crate::ecr::ecr;
use crate::ecr::ecr::{ImageDetail, Item, Repository, ScanFindingsSummary};
use crate::ecr::keys;
use crate::ecr::keys::Action;
use crate::ecr::ui;
use crate::keys::Key;
use crate::numeral;
use crate::offsets;
use crate::order;
use crate::screen;
use crate::screen::{Color, Line, Style};
use crate::tabs;
use crate::tabs::Pane;
use crate::text;

verus! {

/// An image is pulled by its first tag, and without a tag by its digest.
pub proof fn law_image_is_pulled_by(i: &ImageDetail, r: String)
    requires
        call_ensures(app::image_pull_string, (i,), r),
    ensures
        i.tags@.len() > 0 ==> r@ == i.repository_name@ + ":"@ + i.tags@[0]@,
        i.tags@.len() == 0 && i.digest is Some ==> r@ == i.repository_name@ + "@"@ + i.digest->0@,
        i.tags@.len() == 0 && i.digest is None ==> r@ == i.repository_name@,
{
}

/// Of a digest the first twelve characters are shown, without the name of the hash.
pub proof fn law_short_digest(digest: &str, d: Seq<char>, r: String)
    requires
        call_ensures(ecr::short_digest, (digest,), r),
        digest@ == "sha256:"@ + d,
        vstd::utf8::is_ascii_chars(d),
    ensures
        d.len() >= 12 ==> r@ == d.take(12),
        d.len() < 12 ==> r@ == d,
{
    assert(digest@.take("sha256:"@.len() as int) =~= "sha256:"@);
    assert(digest@.skip("sha256:"@.len() as int) =~= d);
    offsets::law_first_bytes_of_plain_text(d, 12);
}

/// A time is shown to the minute, with a space between the day and the hour.
pub proof fn law_time_to_the_minute(ts: &str, day: Seq<char>, hour: Seq<char>, rest: Seq<char>, r: String)
    requires
        call_ensures(ecr::short_timestamp, (ts,), r),
        ts@ == day + "T"@ + hour + rest,
        day.len() == 10,
        hour.len() == 5,
        vstd::utf8::is_ascii_chars(ts@),
        !day.contains('T'),
        !hour.contains('T'),
    ensures
        r@ == day + " "@ + hour,
{
    reveal_strlit("T");
    reveal_strlit(" ");
    offsets::law_first_bytes_of_plain_text(ts@, 16);
    assert(ts@.take(16) =~= day + "T"@ + hour);
    assert forall|i: int| 0 <= i < 16 implies #[trigger] r@[i] == (day + " "@ + hour)[i] by {
        if i < 10 {
            assert(day.contains(day[i]));
        } else if i > 10 {
            assert(hour.contains(hour[i - 11]));
        }
    }
    assert(r@ =~= day + " "@ + hour);
}

/// A size is told as a number of bytes.
pub proof fn law_size_of_an_image(n: u64, r: String)
    requires
        call_ensures(ecr::fmt_bytes, (n,), r),
    ensures
        r@ == numeral::byte_count(n as nat),
{
}

/// The findings are counted by severity, and what is not named is nothing.
pub proof fn law_findings_by_severity(
    s: &ScanFindingsSummary,
    critical: u64,
    high: u64,
    medium: u64,
    low: u64,
    informational: u64,
    total: u64,
    wide: u128,
)
    requires
        call_ensures(ScanFindingsSummary::critical, (s,), critical),
        call_ensures(ScanFindingsSummary::high, (s,), high),
        call_ensures(ScanFindingsSummary::medium, (s,), medium),
        call_ensures(ScanFindingsSummary::low, (s,), low),
        call_ensures(ScanFindingsSummary::informational, (s,), informational),
        call_ensures(ScanFindingsSummary::total, (s,), total),
        call_ensures(ScanFindingsSummary::wide_total, (s,), wide),
    ensures
        s.counts@.dom().contains("CRITICAL"@) ==> critical == s.counts@["CRITICAL"@],
        !s.counts@.dom().contains("CRITICAL"@) ==> critical == 0,
        s.counts@.dom().contains("HIGH"@) ==> high == s.counts@["HIGH"@],
        !s.counts@.dom().contains("HIGH"@) ==> high == 0,
        s.counts@.dom().contains("MEDIUM"@) ==> medium == s.counts@["MEDIUM"@],
        !s.counts@.dom().contains("MEDIUM"@) ==> medium == 0,
        s.counts@.dom().contains("LOW"@) ==> low == s.counts@["LOW"@],
        !s.counts@.dom().contains("LOW"@) ==> low == 0,
        s.counts@.dom().contains("INFORMATIONAL"@) ==> informational == s.counts@["INFORMATIONAL"@],
        !s.counts@.dom().contains("INFORMATIONAL"@) ==> informational == 0,
        total == critical + high + medium + low + informational,
        wide == critical + high + medium + low + informational,
{
}

/// An image with critical findings is red, one with high ones yellow, and one without
/// any findings green.
pub proof fn law_colours_of_images(x: &Item, i: ImageDetail, r: Style)
    requires
        call_ensures(ui::vuln_color_for, (x,), r),
        *x == Item::Image(i),
    ensures
        i.scan_summary is None ==> r.fg == Color::Gray,
        i.scan_summary is Some ==> ({
            let c = i.scan_summary->0.counts@;
            &&& c.dom().contains("CRITICAL"@) && c["CRITICAL"@] > 0 ==> r.fg == Color::Red
            &&& !c.dom().contains("CRITICAL"@) && c.dom().contains("HIGH"@) && c["HIGH"@] > 0 ==> r.fg == Color::Yellow
            &&& c.dom() =~= Set::empty() ==> r.fg == Color::Green
        }),
{
}

/// A repository has no such colour.
pub proof fn law_colour_of_repositories(x: &Item, p: Repository, r: Style)
    requires
        call_ensures(ui::vuln_color_for, (x,), r),
        *x == Item::Repository(p),
    ensures
        r.fg == Color::Gray,
{
}

/// The name in the list: of a repository its own, of an image its first tag.
pub proof fn law_names_in_the_list(x: &Item, r: String)
    requires
        call_ensures(Item::primary_label, (x,), r),
    ensures
        x is Repository ==> r@ == x->Repository_0.name@,
        x is Image && x->Image_0.tags@.len() > 0 ==> r@ == x->Image_0.tags@[0]@,
        x is Image && x->Image_0.tags@.len() == 0 && x->Image_0.digest is Some ==> r@ == ecr::digest_words(
            x->Image_0.digest->0@,
        ),
{
}

/// Beside its name an image has its size and the time when it was pushed, then how many
/// more tags it has, and then a mark with its critical findings.
pub proof fn law_label_of_an_image(x: &Item, i: ImageDetail, n: u64, t: String, r: String)
    requires
        call_ensures(Item::secondary_label, (x,), r),
        *x == Item::Image(i),
        i.size_bytes == Some(n),
        i.pushed_at == Some(t),
    ensures
        ({
            let head = numeral::byte_count(n as nat) + " · "@ + ecr::minute_words(t@);
            let c = i.scan_summary->0.counts@;
            &&& i.tags@.len() <= 1 && i.scan_summary is None ==> r@ == head
            &&& i.tags@.len() > 1 && i.scan_summary is None ==> r@ == head + " · +"@ + numeral::decimal(
                (i.tags@.len() - 1) as nat,
            ) + " tag(s)"@
            &&& i.tags@.len() <= 1 && i.scan_summary is Some && c.dom().contains("CRITICAL"@) && c["CRITICAL"@] > 0
                ==> r@ == head + " · ⚠ "@ + numeral::decimal(c["CRITICAL"@] as nat) + "c"@
            &&& i.tags@.len() <= 1 && i.scan_summary is Some && !c.dom().contains("CRITICAL"@) && c.dom().contains(
                "HIGH"@,
            ) && c["HIGH"@] > 0 ==> r@ == head + " · ⚠ "@ + numeral::decimal(c["HIGH"@] as nat) + "h"@
        }),
{
    let head = numeral::byte_count(n as nat) + " · "@ + ecr::minute_words(t@);
    assert(head + Seq::<char>::empty() =~= head);
    if i.tags@.len() > 1 {
        let more = head + " · +"@ + numeral::decimal((i.tags@.len() - 1) as nat) + " tag(s)"@;
        assert(more + Seq::<char>::empty() =~= more);
    } else if i.scan_summary is Some {
        let c = i.scan_summary->0.counts@;
        if c.dom().contains("CRITICAL"@) && c["CRITICAL"@] > 0 {
            assert(r@ =~= head + " · ⚠ "@ + numeral::decimal(c["CRITICAL"@] as nat) + "c"@);
        } else if !c.dom().contains("CRITICAL"@) && c.dom().contains("HIGH"@) && c["HIGH"@] > 0 {
            assert(r@ =~= head + " · ⚠ "@ + numeral::decimal(c["HIGH"@] as nat) + "h"@);
        }
    }
}

/// Beside its name a repository tells whether its tags can change and whether its images
/// are scanned.
pub proof fn law_label_of_a_repository(x: &Item, p: Repository, m: String, r: String)
    requires
        call_ensures(Item::secondary_label, (x,), r),
        *x == Item::Repository(p),
        p.tag_mutability == Some(m),
        p.scanning is Some,
    ensures
        p.scanning->0.scan_on_push == Some(true) ==> r@ == text::ascii_lower(m@) + " · "@ + "scan-on-push"@,
        p.scanning->0.scan_on_push == Some(false) ==> r@ == text::ascii_lower(m@) + " · "@ + "no-scan"@,
        p.scanning->0.scan_on_push is None ==> r@ == text::ascii_lower(m@) + " · "@ + "?"@,
{
}

/// Images come with the one in front that was pushed last, and those without a time
/// behind the others.
pub proof fn law_newest_images_in_front(p: Vec<ImageDetail>, r: Vec<ImageDetail>, i: int, j: int)
    requires
        call_ensures(ecr::sort_images, (p,), r),
        0 <= i < j < r@.len(),
    ensures
        r@[i].pushed_at is Some && r@[j].pushed_at is Some ==> !text::before(
            r@[i].pushed_at->0@,
            r@[j].pushed_at->0@,
        ),
        r@[i].pushed_at is None ==> r@[j].pushed_at is None,
{
    ecr::law_newest_image_first(p@, i, j);
}

/// Repositories come in the order of their names.
pub proof fn law_repositories_by_name(p: Vec<Repository>, r: Vec<Repository>, i: int, j: int)
    requires
        call_ensures(ecr::sort_repositories, (p,), r),
        0 <= i < j < r@.len(),
    ensures
        !text::before(text::lowercased(r@[j].name@), text::lowercased(r@[i].name@)),
        r@.to_multiset() == p@.to_multiset(),
{
    let less = |a: Repository, b: Repository| order::lower_before(a.name@, b.name@);
    order::lemma_key_orders(less, |a: Repository| text::lowercased(a.name@));
    order::law_sorted(p@, less);
    assert(!less(r@[j], r@[i]));
}

/// The command lines for repositories and for the images of one.
pub proof fn law_command_lines(
    region: &str,
    token: &str,
    repository: &str,
    r: Vec<String>,
    s: Vec<String>,
)
    requires
        call_ensures(ecr::describe_repositories_args, (Some(region), Some(token)), r),
        call_ensures(ecr::describe_images_args, (repository, Some(region), Some(token)), s),
    ensures
        text::views(r@) =~= seq![
            "ecr"@,
            "describe-repositories"@,
            "--output"@,
            "json"@,
            "--region"@,
            region@,
            "--next-token"@,
            token@,
        ],
        text::views(s@) =~= seq![
            "ecr"@,
            "describe-images"@,
            "--repository-name"@,
            repository@,
            "--output"@,
            "json"@,
            "--region"@,
            region@,
            "--next-token"@,
            token@,
        ],
{
}

/// A tab lists repositories or the images of one; of another kind there is none.
pub proof fn law_tabs_of_the_settings(t: &Tab, region: Option<&str>, r: Result<TabSpec, String>)
    requires
        call_ensures(TabSpec::resolve, (t, region), r),
    ensures
        t.kind@ == "repositories"@ ==> r is Ok && r->Ok_0.kind@ == "repositories"@,
        t.kind@ == "images"@ && t.repository is Some && text::trimmed(t.repository->0@).len() > 0 ==> r is Ok
            && r->Ok_0.kind@ == "images"@ && text::opt_view(r->Ok_0.repository) == Some(t.repository->0@),
        t.kind@ == "images"@ && t.repository is None ==> r is Err,
        t.kind@ != "images"@ && t.kind@ != "repositories"@ ==> r is Err,
        r is Ok && t.region is Some ==> text::opt_view(r->Ok_0.region) == Some(t.region->0@),
        r is Ok && t.region is None ==> text::opt_view(r->Ok_0.region) == text::opt_str_view(region),
{
    reveal_strlit("images");
    reveal_strlit("repositories");
    reveal_strlit("");
    assert("images"@[0] == 'i' && "repositories"@[0] == 'r');
    text::law_trimmed_text_stays(Seq::empty());
    assert(text::trimmed(""@) =~= Seq::<char>::empty());
    if r is Ok {
        let v = r->Ok_0@;
        assert(v.kind == r->Ok_0.kind@);
    }
}

/// What a tab asks for.
pub proof fn law_request_of_a_tab(f: Fetch, spec: SpecV)
    requires
        app::is_fetch(f, spec),
    ensures
        spec.kind == "repositories"@ <==> f is Repositories,
        f is Images ==> f->repository@ == spec.repository->0 && text::opt_view(f->Images_region) == spec.region,
        f is Repositories ==> text::opt_view(f->Repositories_region) == spec.region,
        spec.kind == "repositories"@ ==> app::count_label(spec) == "repositories"@,
        spec.kind == "images"@ ==> app::count_label(spec) == "images"@,
{
    reveal_strlit("images");
    reveal_strlit("repositories");
    assert("images"@[0] == 'i' && "repositories"@[0] == 'r');
}

/// The page that is opened is that of the repository or of the image under the cursor.
pub proof fn law_page_that_is_opened(a: &mut App, region: Seq<char>, r: Option<String>)
    requires
        old(a).wf(),
        call_ensures(App::open_console, (a,), r),
        old(a).browser().active().spec@.region == Some(region),
        old(a).browser().list().focused() is Some,
    ensures
        ({
            let x = old(a).browser().list().focused()->0;
            &&& r is Some
            &&& x is Repository && x->Repository_0.registry_id is Some ==> r->0@ == "https://"@ + region
                + ".console.aws.amazon.com/ecr/private-registry/repositories/private/"@
                + x->Repository_0.registry_id->0@ + "/"@ + x->Repository_0.name@ + "?region="@ + region
            &&& x is Image ==> r->0@ == "https://"@ + region
                + ".console.aws.amazon.com/ecr/repositories/private/registry/"@ + x->Image_0.repository_name@
                + "/_/image?region="@ + region
        }),
{
}

/// What is copied names the item under the cursor: a repository by its ARN, an image by
/// its first tag.
pub proof fn law_what_is_copied(a: &mut App, r: Option<Yank>)
    requires
        old(a).wf(),
        call_ensures(App::yank_arn, (a,), r),
        old(a).browser().list().focused() is Some,
    ensures
        ({
            let x = old(a).browser().list().focused()->0;
            &&& x is Repository && x->Repository_0.arn@.len() > 0 ==> r is Some && r->0.payload@ == x->Repository_0.arn@
                && r->0.label@ == "ARN"@
            &&& x is Image && x->Image_0.tags@.len() > 0 ==> r is Some && r->0.payload@
                == x->Image_0.repository_name@ + ":"@ + x->Image_0.tags@[0]@ && r->0.label@ == "image pull URI"@
        }),
{
    reveal_strlit(":");
}

/// The details of a repository begin with its name and end with its ARN.
pub proof fn law_details_of_a_repository(x: &Item, p: Repository, r: Vec<Line>)
    requires
        call_ensures(ui::draw_detail, (Some(x),), r),
        *x == Item::Repository(p),
    ensures
        ({
            let d = screen::drawn(r@);
            &&& d.len() >= 4
            &&& d[0] == tabs::detail_row("Name"@, 14, p.name@)
            &&& p.uri is Some ==> d[1] == tabs::detail_row("URI"@, 14, p.uri->0@)
            &&& d[d.len() - 1][0].0 == " "@ + p.arn@
            &&& d[d.len() - 2][0].0 == " ARN "@
        }),
{
}

/// The details of an image begin with its repository and its tags.
pub proof fn law_details_of_an_image(x: &Item, i: ImageDetail, r: Vec<Line>)
    requires
        call_ensures(ui::draw_detail, (Some(x),), r),
        *x == Item::Image(i),
    ensures
        ({
            let d = screen::drawn(r@);
            &&& d.len() >= 2
            &&& d[0] == tabs::detail_row("Repository"@, 14, i.repository_name@)
            &&& i.tags@.len() > 0 ==> d[1] == tabs::detail_row(
                "Tags"@,
                14,
                text::joined(text::views(i.tags@), ", "@),
            )
            &&& i.tags@.len() == 0 ==> d[1] == tabs::detail_row("Tags"@, 14, "(untagged)"@)
            &&& i.digest is Some ==> d[2] == tabs::detail_row("Digest"@, 14, ecr::digest_words(i.digest->0@) + "…"@)
        }),
{
}

/// The findings of an image are listed by severity, and only those that there are.
pub proof fn law_findings_are_listed(s: ScanFindingsSummary, label: Seq<char>, n: u64, shade: Color)
    ensures
        n == 0 ==> ui::severity_row(label, n, shade).len() == 0,
        n > 0 ==> ui::severity_row(label, n, shade).len() == 1 && ui::severity_row(label, n, shade)[0][1].0
            == numeral::decimal(n as nat) && ui::severity_row(label, n, shade)[0][0].1.fg == shade,
        s.counts@.dom().contains("CRITICAL"@) && s.counts@["CRITICAL"@] > 0 ==> ui::scan_lines(s).len() >= 3
            && ui::scan_lines(s)[2] == ui::severity_row("CRITICAL"@, s.counts@["CRITICAL"@], Color::Red)[0],
        !s.counts@.dom().contains("CRITICAL"@) && s.counts@.dom().contains("HIGH"@) && s.counts@["HIGH"@] > 0
            ==> ui::scan_lines(s).len() >= 3 && ui::scan_lines(s)[2] == ui::severity_row(
            "HIGH"@,
            s.counts@["HIGH"@],
            Color::Yellow,
        )[0],
{
}

/// What the keys do.
pub proof fn law_keys(ctrl: bool, a: &App, y: Option<Action>, q: Option<Action>)
    requires
        a.wf(),
        call_ensures(keys::handle, (Key::Char('y'), ctrl, a), y),
        call_ensures(keys::handle, (Key::Char('q'), ctrl, a), q),
    ensures
        y == Some(Action::YankArn),
        q == Some(Action::Common(crate::keys::Common::Quit)),
{
}

/// Moving takes the cursor that far, but not out of the list, and leaves the list and
/// the tab alone.
pub proof fn law_moving_the_cursor(a: &mut App, delta: isize)
    requires
        old(a).wf(),
        call_ensures(App::move_selection, (a, delta), ()),
    ensures
        ({
            let l = old(a).browser().list();
            let r = final(a).browser().list();
            &&& final(a).browser().active_tab == old(a).browser().active_tab
            &&& r.items == l.items
            &&& 0 <= l.selected + delta < l.items.len() ==> r.selected == l.selected + delta
            &&& l.items.len() > 0 && l.selected + delta < 0 ==> r.selected == 0
            &&& l.items.len() > 0 && l.selected + delta >= l.items.len() ==> r.selected == l.items.len() - 1
        }),
{
}

/// A tab that is chosen is shown; a number behind the last tab changes nothing.
pub proof fn law_choosing_a_tab(a: &mut App, i: usize, r: Option<Fetch>)
    requires
        old(a).wf(),
        call_ensures(App::switch_tab, (a, i), r),
    ensures
        i < old(a).tabs@.len() ==> final(a).active_tab == i,
        i >= old(a).tabs@.len() ==> final(a).active_tab == old(a).active_tab && r is None,
        i < old(a).tabs@.len() ==> (r is Some <==> old(a).tabs@[i as int].data@.items.len() == 0
            && old(a).tabs@[i as int].data@.last_error is None),
{
    assert(final(a).browser().active_tab == final(a).active_tab);
    if i < old(a).tabs@.len() {
        assert(old(a).browser().tabs[i as int].data == old(a).tabs@[i as int].data@);
    }
}

/// A load that is begun is shown as such, and nothing is lost.
pub proof fn law_begun_load(a: &mut App, r: Fetch)
    requires
        old(a).wf(),
        call_ensures(App::refresh_active, (a,), r),
    ensures
        final(a).browser().list().loading,
        final(a).browser().list().items == old(a).browser().list().items,
        final(a).status@ == "loading "@ + old(a).browser().active().name + "…"@,
{
    assert(final(a).browser().status == final(a).status@);
}

/// What was loaded takes the place of the list; an error is told and keeps the list.
pub proof fn law_ended_load(a: &mut App, items: Vec<Item>, b: &mut App, e: String, now: u64)
    requires
        old(a).wf(),
        old(b).wf(),
        call_ensures(App::refresh_done, (a, Ok::<Vec<Item>, String>(items), now), ()),
        call_ensures(App::refresh_done, (b, Err::<Vec<Item>, String>(e), now), ()),
    ensures
        final(a).browser().list().items == items@,
        final(a).browser().list().last_loaded == Some(now),
        !final(a).browser().list().loading,
        final(a).browser().list().last_error is None,
        final(a).status@ == old(a).browser().active().name + ": "@ + numeral::decimal(items@.len()) + " "@
            + app::count_label(old(a).browser().active().spec@),
        final(b).browser().list().items == old(b).browser().list().items,
        !final(b).browser().list().loading,
        final(b).browser().list().last_error == Some(e@),
        final(b).status@ == "error: "@ + e@,
{
    assert(final(a).browser().status == final(a).status@);
    assert(final(b).browser().status == final(b).status@);
}

/// The list is loaded again by itself once it is as old as the interval says, unless the
/// interval is nothing or a load is under way.
pub proof fn law_loading_again(a: &mut App, now: u64, r: Option<Fetch>)
    requires
        old(a).wf(),
        call_ensures(App::tick, (a, now), r),
    ensures
        ({
            let l = old(a).browser().list();
            let every = old(a).cfg.refresh_interval_secs;
            &&& every == 0 || l.loading ==> r is None
            &&& every > 0 && !l.loading && l.last_loaded is None ==> r is Some
            &&& every > 0 && !l.loading && l.last_loaded is Some && now >= l.last_loaded->0 ==> (r is Some <==> now
                - l.last_loaded->0 >= 1000 * every)
            &&& final(a).browser().list().items == l.items
        }),
{
    let l = old(a).browser().list();
    if l.last_loaded is Some && now >= l.last_loaded->0 {
        let d = now - l.last_loaded->0;
        assert(d / 1000 >= old(a).cfg.refresh_interval_secs <==> d >= 1000 * old(a).cfg.refresh_interval_secs);
    }
}

proof fn lemma_tabs_error(t: Seq<Tab>, region: Option<Seq<char>>, n: int)
    requires
        0 <= n <= t.len(),
    ensures
        app::tabs_error(t, region, n) is None <==> forall|i: int|
            0 <= i < n ==> (#[trigger] app::resolved(t[i], region)) is Ok,
    decreases n,
{
    if n > 0 {
        lemma_tabs_error(t, region, n - 1);
        if app::tabs_error(t, region, n) is None {
            assert forall|i: int| 0 <= i < n implies (#[trigger] app::resolved(t[i], region)) is Ok by {
                if i == n - 1 {
                    assert(app::resolved(t[n - 1], region) is Ok);
                }
            }
        } else if app::tabs_error(t, region, n - 1) is None {
            assert(app::resolved(t[n - 1], region) is Err);
        }
    }
}

/// A browser begins with the first of its tabs, each under its name and empty; it does
/// not begin where one of them is refused.
pub proof fn law_fresh_browser(cfg: Config, r: Result<App, String>, i: int)
    requires
        cfg.tabs@.len() > 0,
        call_ensures(App::new, (cfg,), r),
    ensures
        r is Ok <==> forall|j: int|
            0 <= j < cfg.tabs@.len() ==> (#[trigger] app::resolved(cfg.tabs@[j], text::opt_view(cfg.region))) is Ok,
        r is Ok ==> r->Ok_0.active_tab == 0 && r->Ok_0.tabs@.len() == cfg.tabs@.len() && r->Ok_0.status@.len() == 0,
        r is Ok && 0 <= i < cfg.tabs@.len() ==> r->Ok_0.tabs@[i].name@ == cfg.tabs@[i].name@
            && r->Ok_0.tabs@[i].data@.items.len() == 0 && r->Ok_0.tabs@[i].data@.last_loaded is None
            && !r->Ok_0.tabs@[i].data@.loading,
{
    lemma_tabs_error(cfg.tabs@, text::opt_view(cfg.region), cfg.tabs@.len() as int);
    if r is Ok && 0 <= i < cfg.tabs@.len() {
        assert(app::fresh_tab(r->Ok_0.tabs@[i], cfg.tabs@[i], text::opt_view(cfg.region)));
    }
}

/// It is told which page was opened, or why none was.
pub proof fn law_opened_page_is_told(a: &mut App, url: &str, ok: &Result<(), String>, b: &mut App, e: String, bad: &Result<(), String>)
    requires
        *ok == Ok::<(), String>(()),
        *bad == Err::<(), String>(e),
        call_ensures(App::opened, (a, url, ok), ()),
        call_ensures(App::opened, (b, url, bad), ()),
    ensures
        final(a).status@ == "opened "@ + url@,
        final(b).status@ == "open failed: "@ + e@,
        final(a).active_tab == old(a).active_tab,
{
    assert(final(a).browser().status == final(a).status@);
    assert(final(b).browser().status == final(b).status@);
    assert(final(a).browser().active_tab == final(a).active_tab);
    assert(old(a).browser().active_tab == old(a).active_tab);
}

/// In place of a list stands its error; a list that fits is drawn row by row.
pub proof fn law_list_is_drawn(t: &TabState, height: u16, r: Pane, i: int)
    requires
        call_ensures(ui::draw_list, (t, height), r),
    ensures
        t.data@.last_error is Some ==> screen::drawn(r.lines@) == seq![
            seq![("error: "@ + t.data@.last_error->0, screen::colored(Color::Red))],
        ],
        t.data@.last_error is None && t.data@.items.len() == 0 && t.data@.loading ==> screen::drawn(r.lines@)[0][0].0
            == "(loading…)"@,
        t.data@.last_error is None && 0 < t.data@.items.len() <= height - 2 && 0 <= t.data@.selected
            < t.data@.items.len() ==> screen::drawn(r.lines@).len() == t.data@.items.len() && (0 <= i
            < t.data@.items.len() ==> screen::drawn(r.lines@)[i] == ui::item_row(
            t.data@.items,
            t.data@.selected,
            i,
        )),
{
}

proof fn lemma_first_error(t: Seq<Tab>, n: int)
    requires
        0 <= n <= t.len(),
    ensures
        config::first_error(t, n) is None <==> forall|i: int|
            0 <= i < n ==> (#[trigger] config::tab_error(t[i], i)) is None,
    decreases n,
{
    if n > 0 {
        lemma_first_error(t, n - 1);
        if config::first_error(t, n) is None {
            assert forall|i: int| 0 <= i < n implies (#[trigger] config::tab_error(t[i], i)) is None by {
                if i == n - 1 {
                    assert(config::tab_error(t[n - 1], n - 1) is None);
                }
            }
        } else if config::first_error(t, n - 1) is None {
            assert(config::tab_error(t[n - 1], n - 1) is Some);
        }
    }
}

/// Settings are good where there is a tab and each of them is good.
pub proof fn law_good_settings(c: &Config, r: Result<(), String>)
    requires
        call_ensures(Config::validate, (c,), r),
    ensures
        r is Ok <==> c.tabs@.len() > 0 && forall|i: int|
            0 <= i < c.tabs@.len() ==> (#[trigger] config::tab_error(c.tabs@[i], i)) is None,
        c.tabs@.len() == 0 ==> r is Err && r->Err_0@ == "config: at least one [[tabs]] entry required"@,
{
    lemma_first_error(c.tabs@, c.tabs@.len() as int);
}

/// A tab is good where it lists repositories, or names the one whose images it lists.
pub proof fn law_good_tabs(t: Tab, i: int)
    ensures
        t.kind@ == "repositories"@ ==> config::tab_error(t, i) is None,
        t.kind@ == "images"@ ==> (config::tab_error(t, i) is None <==> t.repository is Some && text::trimmed(
            t.repository->0@,
        ).len() > 0),
        t.kind@ != "repositories"@ && t.kind@ != "images"@ ==> config::tab_error(t, i) is Some,
{
    reveal_strlit("images");
    reveal_strlit("repositories");
    reveal_strlit("");
    assert("images"@[0] == 'i' && "repositories"@[0] == 'r');
    text::law_trimmed_text_stays(Seq::empty());
    assert(text::trimmed(""@) =~= Seq::<char>::empty());
}

/// The title of a list names what it lists and counts it.
pub proof fn law_titles(s: SpecV, n: nat)
    ensures
        s.kind == "repositories"@ ==> ui::list_title(s, n) == " repositories ("@ + numeral::decimal(n) + ") "@,
        s.kind == "images"@ && s.repository is Some ==> ui::list_title(s, n) == " images · "@ + s.repository->0 + " ("@
            + numeral::decimal(n) + ") "@,
{
    reveal_strlit("images");
    reveal_strlit("repositories");
    assert("images"@[0] == 'i' && "repositories"@[0] == 'r');
}

/// It is told what was copied, or why nothing was.
pub proof fn law_copy_is_told(
    a: &mut App,
    x: &Yank,
    ok: &Result<(), String>,
    b: &mut App,
    e: String,
    bad: &Result<(), String>,
)
    requires
        *ok == Ok::<(), String>(()),
        *bad == Err::<(), String>(e),
        call_ensures(App::arn_copied, (a, x, ok), ()),
        call_ensures(App::arn_copied, (b, x, bad), ()),
    ensures
        final(a).status@ == "copied "@ + x.label@ + " ("@ + numeral::decimal(vstd::utf8::encode_utf8(x.payload@).len()) + " chars)"@,
        final(b).status@ == "copy failed: "@ + e@,
{
    assert(final(a).browser().status == final(a).status@);
    assert(final(b).browser().status == final(b).status@);
}

/// What failed is told with what the command wrote.
pub proof fn law_failure_of_describe_repositories(ran: &Ran, e: String, r: Option<String>)
    requires
        call_ensures(ecr::describe_repositories_error, (ran,), r),
    ensures
        r is None <==> ran is Done,
        *ran == Ran::Failed(e) ==> r is Some && r->0@ == "aws ecr describe-repositories failed: "@ + text::trimmed(e@),
        *ran == Ran::NotStarted(e) ==> r is Some && r->0@ == "spawn `aws ecr describe-repositories`"@,
{
}

/// What failed is told with what the command wrote.
pub proof fn law_failure_of_describe_images(repository: &str, ran: &Ran, e: String, r: Option<String>)
    requires
        call_ensures(ecr::describe_images_error, (repository, ran), r),
    ensures
        r is None <==> ran is Done,
        *ran == Ran::Failed(e) ==> r is Some && r->0@ == "aws ecr describe-images failed for "@ + repository@ + ": "@ + text::trimmed(e@),
        *ran == Ran::NotStarted(e) ==> r is Some && r->0@ == "spawn `aws ecr describe-images` for "@ + repository@,
{
}

/// Why a tab is refused, with its name.
pub proof fn law_refused_tabs(t: &Tab, region: Option<&str>, r: Result<TabSpec, String>)
    requires
        call_ensures(TabSpec::resolve, (t, region), r),
    ensures
        t.kind@ != "repositories"@ && t.kind@ != "images"@ ==> r is Err && r->Err_0@ == "tab `"@ + t.name@ + "`: unknown kind "@ + text::quoted(
            t.kind@,
        ),
        t.kind@ == "images"@ && t.repository is None ==> r is Err && r->Err_0@ == "tab `"@ + t.name@
            + "`: kind=\"images\" requires `repository`"@,
{
    reveal_strlit("repositories");
    reveal_strlit("images");
    assert("repositories"@[0] == 'r' && "images"@[0] == 'i');
    text::law_trimmed_text_stays(Seq::empty());
    reveal_strlit("");
    assert(text::trimmed(""@) =~= Seq::<char>::empty());
}

proof fn lemma_refused_first(t: Seq<Tab>, region: Option<Seq<char>>, n: int, i: int)
    requires
        0 <= i < n <= t.len(),
        forall|j: int| 0 <= j < i ==> (#[trigger] app::resolved(t[j], region)) is Ok,
        app::resolved(t[i], region) is Err,
    ensures
        app::tabs_error(t, region, n) == Some(app::resolved(t[i], region)->Err_0),
    decreases n,
{
    if n - 1 > i {
        lemma_refused_first(t, region, n - 1, i);
    } else {
        lemma_tabs_error(t, region, i);
    }
}

/// Of several refused tabs the first is told.
pub proof fn law_first_refused_tab_is_told(cfg: Config, r: Result<App, String>, i: int)
    requires
        0 <= i < cfg.tabs@.len(),
        call_ensures(App::new, (cfg,), r),
        forall|j: int| 0 <= j < i ==> (#[trigger] app::resolved(cfg.tabs@[j], text::opt_view(cfg.region))) is Ok,
        app::resolved(cfg.tabs@[i], text::opt_view(cfg.region)) is Err,
    ensures
        r is Err,
        r->Err_0@ == app::resolved(cfg.tabs@[i], text::opt_view(cfg.region))->Err_0,
{
    lemma_refused_first(cfg.tabs@, text::opt_view(cfg.region), cfg.tabs@.len() as int, i);
}

/// The details of a repository that has them all.
pub proof fn law_more_details_of_a_repository(x: &Item, p: Repository, b: bool, r: Vec<Line>)
    requires
        call_ensures(ui::draw_detail, (Some(x),), r),
        *x == Item::Repository(p),
        p.uri is Some,
        p.registry_id is Some,
        p.tag_mutability is Some,
        p.scanning is Some && p.scanning->0.scan_on_push == Some(b),
        p.created_at is Some,
    ensures
        ({
            let d = screen::drawn(r@);
            &&& d.len() == 9
            &&& d[2] == tabs::detail_row("Registry"@, 14, p.registry_id->0@)
            &&& d[3] == tabs::detail_row("Tag mutability"@, 14, p.tag_mutability->0@)
            &&& d[4] == tabs::detail_row(
                "Scan on push"@,
                14,
                if b {
                    "true"@
                } else {
                    "false"@
                },
            )
            &&& d[5] == tabs::detail_row("Created"@, 14, p.created_at->0@)
        }),
{
}

/// The details of an image that has them all.
pub proof fn law_more_details_of_an_image(x: &Item, i: ImageDetail, n: u64, r: Vec<Line>)
    requires
        call_ensures(ui::draw_detail, (Some(x),), r),
        *x == Item::Image(i),
        i.digest is Some,
        i.size_bytes == Some(n),
        i.pushed_at is Some,
        i.manifest_media_type is Some,
        i.artifact_media_type is Some,
        i.scan_summary is None,
        i.scan_status is None,
    ensures
        ({
            let d = screen::drawn(r@);
            &&& d.len() == 10
            &&& d[3] == tabs::detail_row("Size"@, 14, numeral::byte_count(n as nat))
            &&& d[4] == tabs::detail_row("Pushed"@, 14, ecr::minute_words(i.pushed_at->0@))
            &&& d[5] == tabs::detail_row("Manifest"@, 14, i.manifest_media_type->0@)
            &&& d[6] == tabs::detail_row("Artifact"@, 14, i.artifact_media_type->0@)
            &&& d[9][0].0 == " "@ + i.digest->0@
        }),
{
}

/// What the settings say where nothing is set.
pub proof fn law_defaults(n: u64, k: String)
    requires
        call_ensures(config::default_refresh, (), n),
        call_ensures(config::default_kind, (), k),
    ensures
        n == 60,
        k@ == "repositories"@,
{
}

} // verus!
