//! What holds of the databases browser: where a database is reached, where its logs
//! stand, which browser opens it, and what this browser does.

use vstd::prelude::*;

use crate::command::Launch;
use crate::command::Ran;
use crate::keys::Key;
use crate::numeral;
use crate::order;
use crate::rds::app;
use crate::rds::app::{App, Fetch, SpecV, TabSpec, TabState};
use crate::rds::config::{Config, Tab};
use crate::rds::keys;
use crate::rds::keys::Action;
use crate::rds::rds;
use crate::rds::rds::{DbCluster, DbInstance, Item};
use crate::rds::ui;
use crate::screen;
use crate::screen::{Color, Line, Style};
use crate::tabs;
use crate::tabs::Pane;
use crate::text;

verus! {

/// A database is reached at its address and, where one is known, its port.
pub proof fn law_where_an_instance_is_reached(i: &DbInstance, address: String, port: u32, r: Option<String>)
    requires
        call_ensures(DbInstance::endpoint_text, (i,), r),
    ensures
        i.endpoint is None ==> r is None,
        i.endpoint is Some && i.endpoint->0.address is None ==> r is None,
        i.endpoint is Some && i.endpoint->0.address == Some(address) && i.endpoint->0.port == Some(port) ==> r is Some
            && r->0@ == address@ + ":"@ + numeral::decimal(port as nat),
        i.endpoint is Some && i.endpoint->0.address == Some(address) && i.endpoint->0.port is None ==> r is Some
            && r->0@ == address@,
{
}

/// So is a cluster.
pub proof fn law_where_a_cluster_is_reached(c: &DbCluster, port: u32, r: Option<String>)
    requires
        call_ensures(DbCluster::endpoint_text, (c,), r),
    ensures
        c.endpoint is None ==> r is None,
        c.endpoint is Some && c.port == Some(port) ==> r is Some && r->0@ == c.endpoint->0@ + ":"@ + numeral::decimal(
            port as nat,
        ),
        c.endpoint is Some && c.port is None ==> r is Some && r->0@ == c.endpoint->0@,
{
}

/// In the list an item has its identifier, its engine and its status.
pub proof fn law_labels_in_the_list(x: &Item, name: &str, label: String, arn: &str, e: Option<String>)
    requires
        call_ensures(Item::primary_label, (x,), name),
        call_ensures(Item::secondary_label, (x,), label),
        call_ensures(Item::arn, (x,), arn),
        call_ensures(Item::endpoint, (x,), e),
    ensures
        x is Instance ==> ({
            let i = x->Instance_0;
            &&& name@ == i.identifier@
            &&& arn@ == i.arn@
            &&& i.engine is Some && i.status is Some ==> label@ == i.engine->0@ + " · "@ + i.status->0@
            &&& i.engine is None && i.status is Some ==> label@ == "?"@ + " · "@ + i.status->0@
            &&& text::opt_view(e) == rds::instance_endpoint(i)
        }),
        x is Cluster ==> ({
            let c = x->Cluster_0;
            &&& name@ == c.identifier@
            &&& arn@ == c.arn@
            &&& c.engine is Some && c.status is Some ==> label@ == c.engine->0@ + " · "@ + c.status->0@
            &&& text::opt_view(e) == rds::cluster_endpoint(c)
        }),
{
}

/// The logs of a database stand under its identifier, in a stream that its engine
/// decides.
pub proof fn law_logs_of_a_database(id: &str, engine: &str, r: String)
    requires
        call_ensures(app::log_group_for, (id, Some(engine)), r),
    ensures
        ({
            let e = text::ascii_lower(engine@);
            let head = "/aws/rds/instance/"@ + id@ + "/"@;
            &&& text::has_prefix(e, "postgres"@) ==> r@ == head + "postgresql"@
            &&& text::has_prefix(e, "aurora-postgres"@) ==> r@ == head + "postgresql"@
            &&& text::has_prefix(e, "oracle"@) ==> r@ == head + "trace"@
            &&& text::has_prefix(e, "mysql"@) || text::has_prefix(e, "mariadb"@) || text::has_prefix(e, "aurora-mysql"@)
                || text::has_prefix(e, "sqlserver"@) ==> r@ == head + "error"@
        }),
{
    lemma_engines(text::ascii_lower(engine@));
}

/// An engine has one name.
proof fn lemma_engines(e: Seq<char>)
    ensures
        text::has_prefix(e, "oracle"@) ==> !text::has_prefix(e, "postgres"@) && !text::has_prefix(e, "aurora-postgres"@),
        text::has_prefix(e, "mysql"@) || text::has_prefix(e, "mariadb"@) || text::has_prefix(e, "aurora-mysql"@)
            || text::has_prefix(e, "sqlserver"@) ==> !text::has_prefix(e, "postgres"@) && !text::has_prefix(
            e,
            "aurora-postgres"@,
        ) && !text::has_prefix(e, "oracle"@),
{
    reveal_strlit("oracle");
    reveal_strlit("postgres");
    reveal_strlit("aurora-postgres");
    reveal_strlit("mysql");
    reveal_strlit("mariadb");
    reveal_strlit("aurora-mysql");
    reveal_strlit("sqlserver");
    assert("oracle"@[0] == 'o' && "postgres"@[0] == 'p' && "aurora-postgres"@[0] == 'a' && "mysql"@[0] == 'm'
        && "mariadb"@[0] == 'm' && "aurora-mysql"@[0] == 'a' && "sqlserver"@[0] == 's');
    assert("aurora-postgres"@[7] == 'p' && "aurora-mysql"@[7] == 'm');
    if text::has_prefix(e, "oracle"@) {
        assert(e.take("oracle"@.len() as int)[0] == e[0]);
    }
    if text::has_prefix(e, "postgres"@) {
        assert(e.take("postgres"@.len() as int)[0] == e[0]);
    }
    if text::has_prefix(e, "mysql"@) {
        assert(e.take("mysql"@.len() as int)[0] == e[0]);
    }
    if text::has_prefix(e, "mariadb"@) {
        assert(e.take("mariadb"@.len() as int)[0] == e[0]);
    }
    if text::has_prefix(e, "sqlserver"@) {
        assert(e.take("sqlserver"@.len() as int)[0] == e[0]);
    }
    if text::has_prefix(e, "aurora-postgres"@) {
        assert(e.take("aurora-postgres"@.len() as int)[0] == e[0]);
        assert(e.take("aurora-postgres"@.len() as int)[7] == e[7]);
    }
    if text::has_prefix(e, "aurora-mysql"@) {
        assert(e.take("aurora-mysql"@.len() as int)[0] == e[0]);
        assert(e.take("aurora-mysql"@.len() as int)[7] == e[7]);
    }
}

/// The logs browser is started on the logs of the database under the cursor; a cluster
/// is named as one.
pub proof fn law_logs_are_followed(a: &mut App, r: Option<Launch>)
    requires
        old(a).wf(),
        call_ensures(App::tail_logs, (a,), r),
        old(a).browser().list().focused() is Some,
    ensures
        ({
            let x = old(a).browser().list().focused()->0;
            &&& r is Some
            &&& r->0.program@ == "mnml-aws-cloudwatch-logs"@
            &&& text::views(r->0.args@).len() >= 4
            &&& text::views(r->0.args@)[0] == "--log-group"@ && text::views(r->0.args@)[2] == "--log-group-name"@
            &&& x is Instance ==> text::views(r->0.args@)[1] == app::log_group(
                x->Instance_0.identifier@,
                text::opt_view(x->Instance_0.engine),
            ) && text::views(r->0.args@)[3] == x->Instance_0.identifier@
            &&& x is Cluster ==> text::views(r->0.args@)[1] == app::log_group(
                x->Cluster_0.identifier@,
                text::opt_view(x->Cluster_0.engine),
            ) && text::views(r->0.args@)[3] == x->Cluster_0.identifier@ + " (cluster)"@
        }),
{
    assert(r->0@.args == text::views(r->0.args@));
    assert(r->0@.program == r->0.program@);
}

/// A database is opened in the browser for its engine; where there is none nothing is
/// started.
pub proof fn law_database_is_opened(a: &mut App, engine: String, r: Option<Launch>)
    requires
        old(a).wf(),
        call_ensures(App::handoff_db, (a,), r),
        old(a).browser().list().focused() is Some,
        old(a).browser().list().focused()->0 is Instance,
        old(a).browser().list().focused()->0->Instance_0.engine == Some(engine),
    ensures
        ({
            let e = text::ascii_lower(engine@);
            &&& text::has_prefix(e, "postgres"@) || text::has_prefix(e, "aurora-postgres"@) ==> r is Some
                && r->0.program@ == "mnml-db-postgres"@
            &&& text::has_prefix(e, "mysql"@) || text::has_prefix(e, "mariadb"@) || text::has_prefix(e, "aurora-mysql"@)
                ==> r is Some && r->0.program@ == "mnml-db-mariadb"@
            &&& text::has_prefix(e, "sqlserver"@) ==> r is None
        }),
{
    lemma_engines(text::ascii_lower(engine@));
    lemma_engine_of_its_own(text::ascii_lower(engine@));
    if r is Some {
        assert(r->0@.program == r->0.program@);
    }
}

proof fn lemma_engine_of_its_own(e: Seq<char>)
    ensures
        text::has_prefix(e, "sqlserver"@) ==> !text::has_prefix(e, "mysql"@) && !text::has_prefix(e, "mariadb"@)
            && !text::has_prefix(e, "aurora-mysql"@),
{
    reveal_strlit("mysql");
    reveal_strlit("mariadb");
    reveal_strlit("aurora-mysql");
    reveal_strlit("sqlserver");
    assert("mysql"@[0] == 'm' && "mariadb"@[0] == 'm' && "aurora-mysql"@[0] == 'a' && "sqlserver"@[0] == 's');
    if text::has_prefix(e, "sqlserver"@) {
        assert(e.take("sqlserver"@.len() as int)[0] == e[0]);
        if text::has_prefix(e, "mysql"@) {
            assert(e.take("mysql"@.len() as int)[0] == e[0]);
        }
        if text::has_prefix(e, "mariadb"@) {
            assert(e.take("mariadb"@.len() as int)[0] == e[0]);
        }
        if text::has_prefix(e, "aurora-mysql"@) {
            assert(e.take("aurora-mysql"@.len() as int)[0] == e[0]);
        }
    }
}

/// A database that is there has no colour of its own, one that changes is yellow, and
/// one that cannot be reached is red.
pub proof fn law_colours_of_databases(x: &Item, i: DbInstance, s: String, r: Style)
    requires
        call_ensures(ui::state_color_for, (x,), r),
        *x == Item::Instance(i),
        i.status == Some(s),
    ensures
        s@ == "available"@ ==> r.fg == Color::Gray,
        s@ != "available"@ && text::has_part(s@, "ing"@) ==> r.fg == Color::Yellow,
        s@ == "stopped"@ || s@ == "inaccessible"@ ==> r.fg == Color::Red,
{
    reveal_strlit("available");
    reveal_strlit("stopped");
    reveal_strlit("inaccessible");
    reveal_strlit("ing");
    assert("available"@[0] == 'a' && "stopped"@[0] == 's' && "inaccessible"@[0] == 'i');
    assert("ing"@.len() == 3 && "ing"@[2] == 'g');
    if (s@ == "stopped"@ || s@ == "inaccessible"@) && text::has_part(s@, "ing"@) {
        let k = choose|k: int| text::part_at(s@, "ing"@, k);
        assert(s@.subrange(k, k + 3)[2] == s@[k + 2]);
        assert(s@.contains('g'));
        assert(forall|n: int| 0 <= n < "stopped"@.len() ==> "stopped"@[n] != 'g');
        assert(forall|n: int| 0 <= n < "inaccessible"@.len() ==> "inaccessible"@[n] != 'g');
    }
}

/// The command lines for instances and for clusters.
pub proof fn law_command_lines(region: &str, marker: &str, r: Vec<String>, s: Vec<String>)
    requires
        call_ensures(rds::list_db_instances_args, (Some(region), Some(marker)), r),
        call_ensures(rds::list_db_clusters_args, (Some(region), Some(marker)), s),
    ensures
        text::views(r@) =~= seq![
            "rds"@,
            "describe-db-instances"@,
            "--output"@,
            "json"@,
            "--region"@,
            region@,
            "--starting-token"@,
            marker@,
        ],
        text::views(s@) =~= seq![
            "rds"@,
            "describe-db-clusters"@,
            "--output"@,
            "json"@,
            "--region"@,
            region@,
            "--starting-token"@,
            marker@,
        ],
{
}

/// Instances and clusters come in the order of their identifiers.
pub proof fn law_databases_by_name(
    v: Vec<DbInstance>,
    r: Vec<DbInstance>,
    w: Vec<DbCluster>,
    s: Vec<DbCluster>,
    i: int,
    j: int,
)
    requires
        call_ensures(rds::sort_instances, (v,), r),
        call_ensures(rds::sort_clusters, (w,), s),
    ensures
        0 <= i < j < r@.len() ==> !text::before(
            text::lowercased(r@[j].identifier@),
            text::lowercased(r@[i].identifier@),
        ),
        0 <= i < j < s@.len() ==> !text::before(
            text::lowercased(s@[j].identifier@),
            text::lowercased(s@[i].identifier@),
        ),
        r@.to_multiset() == v@.to_multiset(),
        s@.to_multiset() == w@.to_multiset(),
{
    let f = |a: DbInstance, b: DbInstance| order::lower_before(a.identifier@, b.identifier@);
    order::lemma_key_orders(f, |a: DbInstance| text::lowercased(a.identifier@));
    order::law_sorted(v@, f);
    let g = |a: DbCluster, b: DbCluster| order::lower_before(a.identifier@, b.identifier@);
    order::lemma_key_orders(g, |a: DbCluster| text::lowercased(a.identifier@));
    order::law_sorted(w@, g);
    if 0 <= i < j < r@.len() {
        assert(!f(r@[j], r@[i]));
    }
    if 0 <= i < j < s@.len() {
        assert(!g(s@[j], s@[i]));
    }
}

/// What was read becomes the items of the list, one by one.
pub proof fn law_items_of_the_list(
    v: Vec<DbInstance>,
    r: Vec<Item>,
    w: Vec<DbCluster>,
    s: Vec<Item>,
    i: int,
)
    requires
        call_ensures(rds::items_of_instances, (v,), r),
        call_ensures(rds::items_of_clusters, (w,), s),
    ensures
        r@.len() == v@.len(),
        s@.len() == w@.len(),
        0 <= i < v@.len() ==> r@[i] == Item::Instance(v@[i]),
        0 <= i < w@.len() ==> s@[i] == Item::Cluster(w@[i]),
{
}

/// A tab lists instances or clusters; of another kind there is none.
pub proof fn law_tabs_of_the_settings(t: &Tab, region: Option<&str>, r: Result<TabSpec, String>)
    requires
        call_ensures(TabSpec::resolve, (t, region), r),
    ensures
        t.kind@ == "instances"@ || t.kind@ == "clusters"@ <==> r is Ok,
        r is Ok ==> r->Ok_0.kind@ == t.kind@,
        r is Ok && t.region is Some ==> text::opt_view(r->Ok_0.region) == Some(t.region->0@),
        r is Ok && t.region is None ==> text::opt_view(r->Ok_0.region) == text::opt_str_view(region),
{
    if r is Ok {
        let v = r->Ok_0@;
        assert(v.kind == r->Ok_0.kind@);
    }
}

/// What a tab asks for.
pub proof fn law_request_of_a_tab(f: Fetch, spec: SpecV)
    requires
        app::is_fetch(f, spec),
    ensures
        spec.kind == "instances"@ <==> f is Instances,
        f is Instances ==> text::opt_view(f->Instances_region) == spec.region,
        f is Clusters ==> text::opt_view(f->Clusters_region) == spec.region,
        spec.kind == "instances"@ ==> app::count_label(spec) == "instances"@,
        spec.kind == "clusters"@ ==> app::count_label(spec) == "clusters"@,
{
    reveal_strlit("instances");
    reveal_strlit("clusters");
    assert("instances"@[0] == 'i' && "clusters"@[0] == 'c');
}

/// The page that is opened is that of the database under the cursor.
pub proof fn law_page_that_is_opened(a: &mut App, region: Seq<char>, r: Option<String>)
    requires
        old(a).wf(),
        call_ensures(App::open_console, (a,), r),
        old(a).browser().active().spec@.region == Some(region),
        old(a).browser().list().focused() is Some,
    ensures
        ({
            let x = old(a).browser().list().focused()->0;
            let head = "https://"@ + region + ".console.aws.amazon.com/rds/home?region="@ + region + "#database:id="@;
            &&& r is Some
            &&& x is Instance ==> r->0@ == head + x->Instance_0.identifier@ + ";is-cluster=false"@
            &&& x is Cluster ==> r->0@ == head + x->Cluster_0.identifier@ + ";is-cluster=true"@
        }),
{
}

/// What is copied is the ARN or the endpoint of the database under the cursor.
pub proof fn law_what_is_copied(a: &mut App, b: &mut App, r: Option<String>, s: Option<String>)
    requires
        old(a).wf(),
        old(b).wf(),
        call_ensures(App::yank_arn, (a,), r),
        call_ensures(App::yank_endpoint, (b,), s),
        old(a).browser().list().focused() is Some,
        old(b).browser().list().focused() is Some,
    ensures
        ({
            let x = old(a).browser().list().focused()->0;
            &&& r is Some
            &&& x is Instance ==> r->0@ == x->Instance_0.arn@
            &&& x is Cluster ==> r->0@ == x->Cluster_0.arn@
        }),
        ({
            let x = old(b).browser().list().focused()->0;
            &&& x is Instance ==> text::opt_view(s) == rds::instance_endpoint(x->Instance_0)
            &&& x is Cluster ==> text::opt_view(s) == rds::cluster_endpoint(x->Cluster_0)
        }),
{
}

/// The details of an instance begin with its identifier and its engine and end with its
/// ARN.
pub proof fn law_details_of_an_instance(x: &Item, i: DbInstance, r: Vec<Line>)
    requires
        call_ensures(ui::draw_detail, (Some(x),), r),
        *x == Item::Instance(i),
        i.engine is Some,
        i.engine_version is Some,
        i.instance_class is Some,
        i.status is Some,
    ensures
        ({
            let d = screen::drawn(r@);
            &&& d.len() >= 7
            &&& d[0] == tabs::detail_row("Identifier"@, 16, i.identifier@)
            &&& d[1] == tabs::detail_row("Engine"@, 16, i.engine->0@ + " "@ + i.engine_version->0@)
            &&& d[2] == tabs::detail_row("Class"@, 16, i.instance_class->0@)
            &&& d[3] == tabs::detail_row("Status"@, 16, i.status->0@)
            &&& rds::instance_endpoint(i) is Some ==> d[4] == tabs::detail_row(
                "Endpoint"@,
                16,
                rds::instance_endpoint(i)->0,
            )
            &&& d[d.len() - 1][0].0 == " "@ + i.arn@
        }),
{
}

/// So do the details of a cluster.
pub proof fn law_details_of_a_cluster(x: &Item, c: DbCluster, r: Vec<Line>)
    requires
        call_ensures(ui::draw_detail, (Some(x),), r),
        *x == Item::Cluster(c),
        c.engine is Some,
        c.engine_version is Some,
        c.engine_mode is Some,
        c.status is Some,
    ensures
        ({
            let d = screen::drawn(r@);
            &&& d.len() >= 7
            &&& d[0] == tabs::detail_row("Identifier"@, 16, c.identifier@)
            &&& d[1] == tabs::detail_row("Engine"@, 16, c.engine->0@ + " "@ + c.engine_version->0@)
            &&& d[2] == tabs::detail_row("Mode"@, 16, c.engine_mode->0@)
            &&& d[3] == tabs::detail_row("Status"@, 16, c.status->0@)
            &&& rds::cluster_endpoint(c) is Some ==> d[4] == tabs::detail_row(
                "Endpoint"@,
                16,
                rds::cluster_endpoint(c)->0,
            )
            &&& d[d.len() - 1][0].0 == " "@ + c.arn@
        }),
{
}

/// What the keys do.
pub proof fn law_keys(
    ctrl: bool,
    a: &App,
    y: Option<Action>,
    e: Option<Action>,
    l: Option<Action>,
    d: Option<Action>,
)
    requires
        a.wf(),
        call_ensures(keys::handle, (Key::Char('y'), ctrl, a), y),
        call_ensures(keys::handle, (Key::Char('E'), ctrl, a), e),
        call_ensures(keys::handle, (Key::Char('L'), ctrl, a), l),
        call_ensures(keys::handle, (Key::Char('D'), ctrl, a), d),
    ensures
        y == Some(Action::YankArn),
        e == Some(Action::YankEndpoint),
        l == Some(Action::TailLogs),
        d == Some(Action::HandoffDb),
{
}

/// Moving takes the cursor that far, but not out of the list, and leaves the list and
/// the tab alone.
pub proof fn law_moving_the_cursor(a: &mut App, delta: isize)
    requires
        old(a).wf(),
        call_ensures(App::move_selection, (a, delta), ()),
    ensures
        ({
            let l = old(a).browser().list();
            let r = final(a).browser().list();
            &&& final(a).browser().active_tab == old(a).browser().active_tab
            &&& r.items == l.items
            &&& 0 <= l.selected + delta < l.items.len() ==> r.selected == l.selected + delta
            &&& l.items.len() > 0 && l.selected + delta < 0 ==> r.selected == 0
            &&& l.items.len() > 0 && l.selected + delta >= l.items.len() ==> r.selected == l.items.len() - 1
        }),
{
}

/// A tab that is chosen is shown; a number behind the last tab changes nothing.
pub proof fn law_choosing_a_tab(a: &mut App, i: usize, r: Option<Fetch>)
    requires
        old(a).wf(),
        call_ensures(App::switch_tab, (a, i), r),
    ensures
        i < old(a).tabs@.len() ==> final(a).active_tab == i,
        i >= old(a).tabs@.len() ==> final(a).active_tab == old(a).active_tab && r is None,
        i < old(a).tabs@.len() ==> (r is Some <==> old(a).tabs@[i as int].data@.items.len() == 0
            && old(a).tabs@[i as int].data@.last_error is None),
{
    assert(final(a).browser().active_tab == final(a).active_tab);
    if i < old(a).tabs@.len() {
        assert(old(a).browser().tabs[i as int].data == old(a).tabs@[i as int].data@);
    }
}

/// A load that is begun is shown as such, and nothing is lost.
pub proof fn law_begun_load(a: &mut App, r: Fetch)
    requires
        old(a).wf(),
        call_ensures(App::refresh_active, (a,), r),
    ensures
        final(a).browser().list().loading,
        final(a).browser().list().items == old(a).browser().list().items,
        final(a).status@ == "loading "@ + old(a).browser().active().name + "…"@,
{
    assert(final(a).browser().status == final(a).status@);
}

/// What was loaded takes the place of the list; an error is told and keeps the list.
pub proof fn law_ended_load(a: &mut App, items: Vec<Item>, b: &mut App, e: String, now: u64)
    requires
        old(a).wf(),
        old(b).wf(),
        call_ensures(App::refresh_done, (a, Ok::<Vec<Item>, String>(items), now), ()),
        call_ensures(App::refresh_done, (b, Err::<Vec<Item>, String>(e), now), ()),
    ensures
        final(a).browser().list().items == items@,
        final(a).browser().list().last_loaded == Some(now),
        !final(a).browser().list().loading,
        final(a).browser().list().last_error is None,
        final(a).status@ == old(a).browser().active().name + ": "@ + numeral::decimal(items@.len()) + " "@
            + app::count_label(old(a).browser().active().spec@),
        final(b).browser().list().items == old(b).browser().list().items,
        !final(b).browser().list().loading,
        final(b).browser().list().last_error == Some(e@),
        final(b).status@ == "error: "@ + e@,
{
    assert(final(a).browser().status == final(a).status@);
    assert(final(b).browser().status == final(b).status@);
}

/// The list is loaded again by itself once it is as old as the interval says, unless the
/// interval is nothing or a load is under way.
pub proof fn law_loading_again(a: &mut App, now: u64, r: Option<Fetch>)
    requires
        old(a).wf(),
        call_ensures(App::tick, (a, now), r),
    ensures
        ({
            let l = old(a).browser().list();
            let every = old(a).cfg.refresh_interval_secs;
            &&& every == 0 || l.loading ==> r is None
            &&& every > 0 && !l.loading && l.last_loaded is None ==> r is Some
            &&& every > 0 && !l.loading && l.last_loaded is Some && now >= l.last_loaded->0 ==> (r is Some <==> now
                - l.last_loaded->0 >= 1000 * every)
            &&& final(a).browser().list().items == l.items
        }),
{
    let l = old(a).browser().list();
    if l.last_loaded is Some && now >= l.last_loaded->0 {
        let d = now - l.last_loaded->0;
        assert(d / 1000 >= old(a).cfg.refresh_interval_secs <==> d >= 1000 * old(a).cfg.refresh_interval_secs);
    }
}

proof fn lemma_tabs_error(t: Seq<Tab>, region: Option<Seq<char>>, n: int)
    requires
        0 <= n <= t.len(),
    ensures
        app::tabs_error(t, region, n) is None <==> forall|i: int|
            0 <= i < n ==> (#[trigger] app::resolved(t[i], region)) is Ok,
    decreases n,
{
    if n > 0 {
        lemma_tabs_error(t, region, n - 1);
        if app::tabs_error(t, region, n) is None {
            assert forall|i: int| 0 <= i < n implies (#[trigger] app::resolved(t[i], region)) is Ok by {
                if i == n - 1 {
                    assert(app::resolved(t[n - 1], region) is Ok);
                }
            }
        } else if app::tabs_error(t, region, n - 1) is None {
            assert(app::resolved(t[n - 1], region) is Err);
        }
    }
}

/// A browser begins with the first of its tabs, each under its name and empty; it does
/// not begin where one of them is refused.
pub proof fn law_fresh_browser(cfg: Config, r: Result<App, String>, i: int)
    requires
        cfg.tabs@.len() > 0,
        call_ensures(App::new, (cfg,), r),
    ensures
        r is Ok <==> forall|j: int|
            0 <= j < cfg.tabs@.len() ==> (#[trigger] app::resolved(cfg.tabs@[j], text::opt_view(cfg.region))) is Ok,
        r is Ok ==> r->Ok_0.active_tab == 0 && r->Ok_0.tabs@.len() == cfg.tabs@.len() && r->Ok_0.status@.len() == 0,
        r is Ok && 0 <= i < cfg.tabs@.len() ==> r->Ok_0.tabs@[i].name@ == cfg.tabs@[i].name@
            && r->Ok_0.tabs@[i].data@.items.len() == 0 && r->Ok_0.tabs@[i].data@.last_loaded is None
            && !r->Ok_0.tabs@[i].data@.loading,
{
    lemma_tabs_error(cfg.tabs@, text::opt_view(cfg.region), cfg.tabs@.len() as int);
    if r is Ok && 0 <= i < cfg.tabs@.len() {
        assert(app::fresh_tab(r->Ok_0.tabs@[i], cfg.tabs@[i], text::opt_view(cfg.region)));
    }
}

/// It is told which page was opened, or why none was.
pub proof fn law_opened_page_is_told(a: &mut App, url: &str, ok: &Result<(), String>, b: &mut App, e: String, bad: &Result<(), String>)
    requires
        *ok == Ok::<(), String>(()),
        *bad == Err::<(), String>(e),
        call_ensures(App::opened, (a, url, ok), ()),
        call_ensures(App::opened, (b, url, bad), ()),
    ensures
        final(a).status@ == "opened "@ + url@,
        final(b).status@ == "open failed: "@ + e@,
        final(a).active_tab == old(a).active_tab,
{
    assert(final(a).browser().status == final(a).status@);
    assert(final(b).browser().status == final(b).status@);
    assert(final(a).browser().active_tab == final(a).active_tab);
    assert(old(a).browser().active_tab == old(a).active_tab);
}

/// In place of a list stands its error; a list that fits is drawn row by row.
pub proof fn law_list_is_drawn(t: &TabState, height: u16, r: Pane, i: int)
    requires
        call_ensures(ui::draw_list, (t, height), r),
    ensures
        t.data@.last_error is Some ==> screen::drawn(r.lines@) == seq![
            seq![("error: "@ + t.data@.last_error->0, screen::colored(Color::Red))],
        ],
        t.data@.last_error is None && t.data@.items.len() == 0 && t.data@.loading ==> screen::drawn(r.lines@)[0][0].0
            == "(loading…)"@,
        t.data@.last_error is None && 0 < t.data@.items.len() <= height - 2 && 0 <= t.data@.selected
            < t.data@.items.len() ==> screen::drawn(r.lines@).len() == t.data@.items.len() && (0 <= i
            < t.data@.items.len() ==> screen::drawn(r.lines@)[i] == ui::item_row(
            t.data@.items,
            t.data@.selected,
            i,
        )),
{
}

/// The title of a list names what it lists and counts it.
pub proof fn law_titles(s: SpecV, n: nat)
    ensures
        s.kind == "instances"@ ==> ui::list_title(s, n) == " db instances ("@ + numeral::decimal(n) + ") "@,
        s.kind == "clusters"@ ==> ui::list_title(s, n) == " db clusters ("@ + numeral::decimal(n) + ") "@,
{
    reveal_strlit("instances");
    reveal_strlit("clusters");
    assert("instances"@[0] == 'i' && "clusters"@[0] == 'c');
}

/// It is told what was copied, or why nothing was.
pub proof fn law_copy_is_told(
    a: &mut App,
    x: &str,
    ok: &Result<(), String>,
    b: &mut App,
    e: String,
    bad: &Result<(), String>,
)
    requires
        *ok == Ok::<(), String>(()),
        *bad == Err::<(), String>(e),
        call_ensures(App::arn_copied, (a, x, ok), ()),
        call_ensures(App::arn_copied, (b, x, bad), ()),
    ensures
        final(a).status@ == "copied ARN ("@ + numeral::decimal(vstd::utf8::encode_utf8(x@).len()) + " chars)"@,
        final(b).status@ == "copy failed: "@ + e@,
{
    assert(final(a).browser().status == final(a).status@);
    assert(final(b).browser().status == final(b).status@);
}

/// It is told what was copied, or why nothing was.
pub proof fn law_copied_endpoint_is_told(
    a: &mut App,
    x: &str,
    ok: &Result<(), String>,
    b: &mut App,
    e: String,
    bad: &Result<(), String>,
)
    requires
        *ok == Ok::<(), String>(()),
        *bad == Err::<(), String>(e),
        call_ensures(App::endpoint_copied, (a, x, ok), ()),
        call_ensures(App::endpoint_copied, (b, x, bad), ()),
    ensures
        final(a).status@ == "copied endpoint: "@ + x@,
        final(b).status@ == "copy failed: "@ + e@,
{
    assert(final(a).browser().status == final(a).status@);
    assert(final(b).browser().status == final(b).status@);
}

/// What failed is told with what the command wrote.
pub proof fn law_failure_of_list_db_instances(ran: &Ran, e: String, r: Option<String>)
    requires
        call_ensures(rds::list_db_instances_error, (ran,), r),
    ensures
        r is None <==> ran is Done,
        *ran == Ran::Failed(e) ==> r is Some && r->0@ == "aws rds describe-db-instances failed: "@ + text::trimmed(e@),
        *ran == Ran::NotStarted(e) ==> r is Some && r->0@ == "spawn `aws rds describe-db-instances`"@,
{
}

/// What failed is told with what the command wrote.
pub proof fn law_failure_of_list_db_clusters(ran: &Ran, e: String, r: Option<String>)
    requires
        call_ensures(rds::list_db_clusters_error, (ran,), r),
    ensures
        r is None <==> ran is Done,
        *ran == Ran::Failed(e) ==> r is Some && r->0@ == "aws rds describe-db-clusters failed: "@ + text::trimmed(e@),
        *ran == Ran::NotStarted(e) ==> r is Some && r->0@ == "spawn `aws rds describe-db-clusters`"@,
{
}

/// Why a tab is refused, with its name.
pub proof fn law_refused_tabs(t: &Tab, region: Option<&str>, r: Result<TabSpec, String>)
    requires
        call_ensures(TabSpec::resolve, (t, region), r),
    ensures
        t.kind@ != "instances"@ && t.kind@ != "clusters"@ ==> r is Err && r->Err_0@ == "tab `"@ + t.name@ + "`: unknown kind "@ + text::quoted(
            t.kind@,
        ),
{
    reveal_strlit("instances");
    reveal_strlit("clusters");
    assert("instances"@[0] == 'i' && "clusters"@[0] == 'c');
    text::law_trimmed_text_stays(Seq::empty());
    reveal_strlit("");
    assert(text::trimmed(""@) =~= Seq::<char>::empty());
}

proof fn lemma_refused_first(t: Seq<Tab>, region: Option<Seq<char>>, n: int, i: int)
    requires
        0 <= i < n <= t.len(),
        forall|j: int| 0 <= j < i ==> (#[trigger] app::resolved(t[j], region)) is Ok,
        app::resolved(t[i], region) is Err,
    ensures
        app::tabs_error(t, region, n) == Some(app::resolved(t[i], region)->Err_0),
    decreases n,
{
    if n - 1 > i {
        lemma_refused_first(t, region, n - 1, i);
    } else {
        lemma_tabs_error(t, region, i);
    }
}

/// Of several refused tabs the first is told.
pub proof fn law_first_refused_tab_is_told(cfg: Config, r: Result<App, String>, i: int)
    requires
        0 <= i < cfg.tabs@.len(),
        call_ensures(App::new, (cfg,), r),
        forall|j: int| 0 <= j < i ==> (#[trigger] app::resolved(cfg.tabs@[j], text::opt_view(cfg.region))) is Ok,
        app::resolved(cfg.tabs@[i], text::opt_view(cfg.region)) is Err,
    ensures
        r is Err,
        r->Err_0@ == app::resolved(cfg.tabs@[i], text::opt_view(cfg.region))->Err_0,
{
    lemma_refused_first(cfg.tabs@, text::opt_view(cfg.region), cfg.tabs@.len() as int, i);
}

/// The details of an instance that has them all.
pub proof fn law_more_details_of_an_instance(x: &Item, i: DbInstance, r: Vec<Line>)
    requires
        call_ensures(ui::draw_detail, (Some(x),), r),
        *x == Item::Instance(i),
        i.instance_class is Some,
        rds::instance_endpoint(i) is Some,
        i.allocated_storage is Some && i.storage_type is Some,
        i.multi_az is Some,
        i.az is Some,
        i.publicly_accessible is Some,
        i.master_username is Some,
        i.cluster_identifier is Some,
        i.create_time is Some,
    ensures
        ({
            let d = screen::drawn(r@);
            &&& d.len() == 15
            &&& d[5] == tabs::detail_row(
                "Storage"@,
                16,
                numeral::decimal(i.allocated_storage->0 as nat) + " GB · "@ + i.storage_type->0@,
            )
            &&& i.multi_az == Some(true) ==> d[6] == tabs::detail_row("Multi-AZ"@, 16, "true"@)
            &&& i.multi_az == Some(false) ==> d[6] == tabs::detail_row("Multi-AZ"@, 16, "false"@)
            &&& d[7] == tabs::detail_row("AZ"@, 16, i.az->0@)
            &&& i.publicly_accessible == Some(true) ==> d[8] == tabs::detail_row("Public"@, 16, "true"@)
            &&& i.publicly_accessible == Some(false) ==> d[8] == tabs::detail_row("Public"@, 16, "false"@)
            &&& d[9] == tabs::detail_row("Master user"@, 16, i.master_username->0@)
            &&& d[10] == tabs::detail_row("Cluster"@, 16, i.cluster_identifier->0@)
            &&& d[11] == tabs::detail_row("Created"@, 16, i.create_time->0@)
        }),
{
}

/// The details of a cluster that has them all.
pub proof fn law_more_details_of_a_cluster(x: &Item, c: DbCluster, port: u32, r: Vec<Line>)
    requires
        call_ensures(ui::draw_detail, (Some(x),), r),
        *x == Item::Cluster(c),
        c.engine_mode is Some,
        c.endpoint is Some,
        c.port == Some(port),
        c.reader_endpoint is Some,
        c.database_name is Some,
        c.multi_az is Some,
        c.master_username is Some,
        c.allocated_storage is Some,
        c.create_time is Some,
    ensures
        ({
            let d = screen::drawn(r@);
            &&& d.len() == 14
            &&& d[5] == tabs::detail_row(
                "Reader endpoint"@,
                16,
                c.reader_endpoint->0@ + ":"@ + numeral::decimal(port as nat),
            )
            &&& d[6] == tabs::detail_row("Database"@, 16, c.database_name->0@)
            &&& c.multi_az == Some(true) ==> d[7] == tabs::detail_row("Multi-AZ"@, 16, "true"@)
            &&& c.multi_az == Some(false) ==> d[7] == tabs::detail_row("Multi-AZ"@, 16, "false"@)
            &&& d[8] == tabs::detail_row("Master user"@, 16, c.master_username->0@)
            &&& d[9] == tabs::detail_row("Allocated"@, 16, numeral::decimal(c.allocated_storage->0 as nat) + " GB"@)
            &&& d[10] == tabs::detail_row("Created"@, 16, c.create_time->0@)
        }),
{
}

} // verus!
