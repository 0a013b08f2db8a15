//! What holds of the clusters browser: what is told of clusters and services, where
//! their logs and images are, and what the browser does.

use vstd::prelude::*;

use crate::command::Launch;
use crate::command::Ran;
use crate::ecs::app;
use crate::ecs::app::{App, Describe, Fetch, SpecV, TabSpec, TabState};
use crate::ecs::config::{Config, Tab};
use crate::ecs::ecs;
use crate::ecs::ecs::{Cluster, Item, Service, TaskDefinition};
use crate::ecs::keys;
use crate::ecs::keys::Action;
use crate::ecs::ui;
use crate::keys::Key;
use crate::numeral;
use crate::offsets;
use crate::screen;
use crate::screen::{Color, Line, Style};
use crate::tabs;
use crate::tabs::Pane;
use crate::text;

verus! {

/// The label of a service: its status, and how many tasks run out of how many that are
/// wanted.
pub proof fn law_label_of_a_service(x: &Item, s: Service, running: u64, wanted: u64, r: String)
    requires
        call_ensures(Item::secondary_label, (x,), r),
        *x == Item::Service(s),
        s.running_count == Some(running),
        s.desired_count == Some(wanted),
        s.status is Some,
    ensures
        r@ == s.status->0@ + " · "@ + numeral::decimal(running as nat) + "/"@ + numeral::decimal(wanted as nat),
{
}

/// The label of a cluster: its status, its services and its tasks.
pub proof fn law_label_of_a_cluster(x: &Item, c: Cluster, services: u64, tasks: u64, r: String)
    requires
        call_ensures(Item::secondary_label, (x,), r),
        *x == Item::Cluster(c),
        c.active_services == Some(services),
        c.running_tasks == Some(tasks),
        c.status is Some,
    ensures
        r@ == c.status->0@ + " · "@ + numeral::decimal(services as nat) + " svc · "@ + numeral::decimal(tasks as nat)
            + " tasks"@,
{
}

/// The names and the ARNs are those of the item; a task definition is named behind its
/// last slash.
pub proof fn law_names(x: &Item, name: &str, arn: &str, td: &str, short: String)
    requires
        call_ensures(Item::primary_label, (x,), name),
        call_ensures(Item::arn, (x,), arn),
        call_ensures(ecs::task_definition_short, (td,), short),
    ensures
        x is Cluster ==> name@ == x->Cluster_0.name@ && arn@ == x->Cluster_0.arn@,
        x is Service ==> name@ == x->Service_0.name@ && arn@ == x->Service_0.arn@,
        short@ == text::after_last(td@, '/'),
{
}

proof fn lemma_first_log_group(td: TaskDefinition, i: int, n: int)
    requires
        0 <= i < n <= td.container_definitions@.len(),
        ecs::log_group(td.container_definitions@[i]) is Some,
        forall|j: int| 0 <= j < i ==> ecs::log_group(#[trigger] td.container_definitions@[j]) is None,
    ensures
        ecs::first_log_group(td.container_definitions@, n) == ecs::log_group(td.container_definitions@[i]),
    decreases n,
{
    if n - 1 > i {
        lemma_first_log_group(td, i, n - 1);
    } else {
        lemma_no_log_group(td, i);
    }
}

proof fn lemma_no_log_group(td: TaskDefinition, n: int)
    requires
        0 <= n <= td.container_definitions@.len(),
        forall|j: int| 0 <= j < n ==> ecs::log_group(#[trigger] td.container_definitions@[j]) is None,
    ensures
        ecs::first_log_group(td.container_definitions@, n) is None,
    decreases n,
{
    if n > 0 {
        lemma_no_log_group(td, n - 1);
        assert(ecs::log_group(td.container_definitions@[n - 1]) is None);
    }
}

/// The logs of a task are those of its first container that writes to CloudWatch; where
/// none does there are no logs.
pub proof fn law_logs_of_a_task(td: &TaskDefinition, i: int, r: Option<String>)
    requires
        call_ensures(ecs::awslogs_group_for_task_def, (td,), r),
        0 <= i <= td.container_definitions@.len(),
        forall|j: int|
            0 <= j < i ==> (#[trigger] td.container_definitions@[j]).log_configuration is None
                || td.container_definitions@[j].log_configuration->0.log_driver is None
                || td.container_definitions@[j].log_configuration->0.log_driver->0@ != "awslogs"@,
    ensures
        i == td.container_definitions@.len() ==> r is None,
        i < td.container_definitions@.len() && td.container_definitions@[i].log_configuration is Some ==> ({
            let l = td.container_definitions@[i].log_configuration->0;
            l.log_driver is Some && l.log_driver->0@ == "awslogs"@ && l.options@.dom().contains("awslogs-group"@) ==> r
                is Some && r->0@ == l.options@["awslogs-group"@]@
        }),
{
    assert forall|j: int| 0 <= j < i implies ecs::log_group(#[trigger] td.container_definitions@[j]) is None by {
    }
    if i == td.container_definitions@.len() {
        lemma_no_log_group(*td, i);
    } else if ecs::log_group(td.container_definitions@[i]) is Some {
        lemma_first_log_group(*td, i, td.container_definitions@.len() as int);
    }
}

proof fn lemma_first_image(td: TaskDefinition, i: int, n: int)
    requires
        0 <= i <= n <= td.container_definitions@.len(),
        forall|j: int| 0 <= j < i ==> (#[trigger] td.container_definitions@[j]).image is None,
        i < n ==> td.container_definitions@[i].image is Some,
    ensures
        i < n ==> ecs::first_image(td.container_definitions@, n) == text::opt_view(td.container_definitions@[i].image),
        i == n ==> ecs::first_image(td.container_definitions@, n) is None,
    decreases n,
{
    if n > 0 {
        if i == n {
            assert(td.container_definitions@[n - 1].image is None);
            lemma_first_image(td, i - 1, n - 1);
        } else {
            lemma_first_image(td, i, n - 1);
        }
    }
}

/// The image of a task is that of its first container that names one.
pub proof fn law_image_of_a_task(td: &TaskDefinition, i: int, r: Option<String>)
    requires
        call_ensures(ecs::image_for_task_def, (td,), r),
        0 <= i < td.container_definitions@.len(),
        td.container_definitions@[i].image is Some,
        forall|j: int| 0 <= j < i ==> (#[trigger] td.container_definitions@[j]).image is None,
    ensures
        r is Some,
        r->0@ == td.container_definitions@[i].image->0@,
{
    lemma_first_image(*td, i, td.container_definitions@.len() as int);
}

/// The repository of an image is what stands behind the host.
pub proof fn law_repository_of_an_image(image: &str, host: Seq<char>, rest: Seq<char>, r: String)
    requires
        call_ensures(ecs::repository_label_of, (image,), r),
        !host.contains('/'),
    ensures
        image@ == host + "/"@ + rest ==> r@ == rest,
        image@ == host ==> r@ == host,
{
    reveal_strlit("/");
    let s = image@;
    if s == host + "/"@ + rest {
        lemma_until_slash(s, host.len() as int);
        assert(s.take(host.len() as int) =~= host);
        assert(s.skip(host.len() as int + 1) =~= rest);
    }
    if s == host {
        lemma_until_end(s);
    }
}

proof fn lemma_until_slash(s: Seq<char>, n: int)
    requires
        0 <= n < s.len(),
        s[n] == '/',
        forall|i: int| 0 <= i < n ==> s[i] != '/',
    ensures
        text::until(s, '/') == s.take(n),
{
    text::law_until_first(s.take(n), '/', s.skip(n + 1));
    assert(s.take(n) + seq!['/'] + s.skip(n + 1) =~= s);
}

proof fn lemma_until_end(s: Seq<char>)
    requires
        !s.contains('/'),
    ensures
        text::until(s, '/') == s,
{
    text::law_until_first(s, '/', Seq::empty());
}

/// The command lines of this browser.
pub proof fn law_command_lines(
    td: &str,
    cluster: &str,
    region: &str,
    token: &str,
    arns: &Vec<String>,
    a: Vec<String>,
    b: Vec<String>,
    c: Vec<String>,
    d: Vec<String>,
    e: Vec<String>,
)
    requires
        call_ensures(ecs::describe_task_definition_args, (td, Some(region)), a),
        call_ensures(ecs::list_clusters_args, (Some(region), Some(token)), b),
        call_ensures(ecs::list_services_args, (cluster, Some(region), Some(token)), c),
        call_ensures(ecs::describe_clusters_args, (arns, Some(region)), d),
        call_ensures(ecs::describe_services_args, (cluster, arns, Some(region)), e),
    ensures
        text::views(a@) =~= seq![
            "ecs"@,
            "describe-task-definition"@,
            "--task-definition"@,
            td@,
            "--output"@,
            "json"@,
            "--region"@,
            region@,
        ],
        text::views(b@) =~= seq![
            "ecs"@,
            "list-clusters"@,
            "--output"@,
            "json"@,
            "--region"@,
            region@,
            "--next-token"@,
            token@,
        ],
        text::views(c@) =~= seq![
            "ecs"@,
            "list-services"@,
            "--cluster"@,
            cluster@,
            "--output"@,
            "json"@,
            "--region"@,
            region@,
            "--next-token"@,
            token@,
        ],
        text::views(d@) =~= seq!["ecs"@, "describe-clusters"@, "--output"@, "json"@, "--clusters"@] + text::views(
            arns@,
        ) + seq!["--region"@, region@],
        text::views(e@) =~= seq![
            "ecs"@,
            "describe-services"@,
            "--cluster"@,
            cluster@,
            "--output"@,
            "json"@,
            "--services"@,
        ] + text::views(arns@) + seq!["--region"@, region@],
{
}

/// A service whose newest deployment failed is red; one that is being deployed or drained
/// is yellow.
pub proof fn law_colours_of_services(x: &Item, s: Service, r: Style)
    requires
        call_ensures(ui::state_color_for, (x,), r),
        *x == Item::Service(s),
        s.status is Some,
        s.deployments@.len() > 0 ==> s.deployments@[0].rollout_state is Some,
    ensures
        ({
            let rollout = s.deployments@[0].rollout_state->0@;
            &&& s.deployments@.len() > 0 && rollout == "FAILED"@ ==> r.fg == Color::Red
            &&& s.deployments@.len() > 0 && rollout == "IN_PROGRESS"@ ==> r.fg == Color::Yellow
            &&& s.deployments@.len() == 0 && s.status->0@ == "DRAINING"@ ==> r.fg == Color::Yellow
            &&& s.deployments@.len() == 0 && s.status->0@ == "INACTIVE"@ ==> r.fg == Color::DarkGray
            &&& s.deployments@.len() > 0 && rollout == "COMPLETED"@ && s.status->0@ == "ACTIVE"@ ==> r.fg == Color::Gray
        }),
{
    reveal_strlit("FAILED");
    reveal_strlit("IN_PROGRESS");
    reveal_strlit("DRAINING");
    reveal_strlit("INACTIVE");
    reveal_strlit("COMPLETED");
    reveal_strlit("ACTIVE");
    reveal_strlit("");
    assert("FAILED"@[0] == 'F' && "IN_PROGRESS"@[2] == '_' && "DRAINING"@[0] == 'D' && "INACTIVE"@[2] == 'A'
        && "COMPLETED"@[0] == 'C' && "ACTIVE"@[0] == 'A');
    assert("IN_PROGRESS"@[0] == 'I' && "INACTIVE"@[0] == 'I');
    assert(""@.len() == 0);
}

/// How a deployment stands is told by its colour.
pub proof fn law_colours_of_deployments()
    ensures
        ui::rollout_shade("FAILED"@) == Color::Red,
        ui::rollout_shade("IN_PROGRESS"@) == Color::Yellow,
        ui::rollout_shade("COMPLETED"@) == Color::Green,
        forall|w: Seq<char>|
            w != "FAILED"@ && w != "IN_PROGRESS"@ && w != "COMPLETED"@ ==> #[trigger] ui::rollout_shade(w)
                == Color::Gray,
{
    reveal_strlit("FAILED");
    reveal_strlit("IN_PROGRESS");
    reveal_strlit("COMPLETED");
    assert("FAILED"@[0] == 'F' && "IN_PROGRESS"@[0] == 'I' && "COMPLETED"@[0] == 'C');
}

/// A time is shown to the second, with a space between the day and the hour.
pub proof fn law_time_to_the_second(ts: &str, day: Seq<char>, hour: Seq<char>, rest: Seq<char>, r: String)
    requires
        call_ensures(ui::short_timestamp, (ts,), r),
        ts@ == day + "T"@ + hour + rest,
        day.len() == 10,
        hour.len() == 8,
        vstd::utf8::is_ascii_chars(ts@),
        !day.contains('T'),
        !hour.contains('T'),
    ensures
        r@ == day + " "@ + hour,
{
    reveal_strlit("T");
    reveal_strlit(" ");
    offsets::law_first_bytes_of_plain_text(ts@, 19);
    assert(ts@.take(19) =~= day + "T"@ + hour);
    assert forall|i: int| 0 <= i < 19 implies #[trigger] r@[i] == (day + " "@ + hour)[i] by {
        if i < 10 {
            assert(day.contains(day[i]));
        } else if i > 10 {
            assert(hour.contains(hour[i - 11]));
        }
    }
    assert(r@ =~= day + " "@ + hour);
}

/// A tab lists clusters or the services of one; of another kind there is none.
pub proof fn law_tabs_of_the_settings(t: &Tab, region: Option<&str>, r: Result<TabSpec, String>)
    requires
        call_ensures(TabSpec::resolve, (t, region), r),
    ensures
        t.kind@ == "clusters"@ ==> r is Ok && r->Ok_0.kind@ == "clusters"@,
        t.kind@ == "services"@ && t.cluster is Some && text::trimmed(t.cluster->0@).len() > 0 ==> r is Ok
            && r->Ok_0.kind@ == "services"@ && text::opt_view(r->Ok_0.cluster) == Some(t.cluster->0@),
        t.kind@ == "services"@ && t.cluster is None ==> r is Err,
        t.kind@ != "services"@ && t.kind@ != "clusters"@ ==> r is Err,
        r is Ok && t.region is Some ==> text::opt_view(r->Ok_0.region) == Some(t.region->0@),
        r is Ok && t.region is None ==> text::opt_view(r->Ok_0.region) == text::opt_str_view(region),
{
    reveal_strlit("clusters");
    reveal_strlit("services");
    reveal_strlit("");
    assert("clusters"@[0] == 'c' && "services"@[0] == 's');
    text::law_trimmed_text_stays(Seq::empty());
    assert(text::trimmed(""@) =~= Seq::<char>::empty());
    if r is Ok {
        let v = r->Ok_0@;
        assert(v.kind == r->Ok_0.kind@);
    }
}

/// What a tab asks for.
pub proof fn law_request_of_a_tab(f: Fetch, spec: SpecV)
    requires
        app::is_fetch(f, spec),
    ensures
        spec.kind == "clusters"@ <==> f is Clusters,
        f is Services ==> f->cluster@ == spec.cluster->0 && text::opt_view(f->Services_region) == spec.region,
        f is Clusters ==> text::opt_view(f->Clusters_region) == spec.region,
        spec.kind == "clusters"@ ==> app::count_label(spec) == "clusters"@,
        spec.kind == "services"@ ==> app::count_label(spec) == "services"@,
{
    reveal_strlit("clusters");
    reveal_strlit("services");
    assert("clusters"@[0] == 'c' && "services"@[0] == 's');
}

/// The page that is opened is that of the cluster or of the service under the cursor.
pub proof fn law_page_that_is_opened(a: &mut App, region: Seq<char>, r: Option<String>)
    requires
        old(a).wf(),
        call_ensures(App::open_console, (a,), r),
        old(a).browser().active().spec@.region == Some(region),
        old(a).browser().list().focused() is Some,
    ensures
        ({
            let x = old(a).browser().list().focused()->0;
            let head = "https://"@ + region + ".console.aws.amazon.com/ecs/v2/clusters/"@;
            &&& r is Some
            &&& x is Cluster ==> r->0@ == head + x->Cluster_0.name@ + "/services?region="@ + region
            &&& x is Service && text::after_last(x->Service_0.cluster_arn@, '/').len() > 0 ==> r->0@ == head
                + text::after_last(x->Service_0.cluster_arn@, '/') + "/services/"@ + x->Service_0.name@ + "?region="@
                + region
        }),
{
}

/// What is copied is the ARN of the item under the cursor.
pub proof fn law_what_is_copied(a: &mut App, r: Option<String>)
    requires
        old(a).wf(),
        call_ensures(App::yank_arn, (a,), r),
        old(a).browser().list().focused() is Some,
    ensures
        ({
            let x = old(a).browser().list().focused()->0;
            &&& r is Some
            &&& x is Cluster ==> r->0@ == x->Cluster_0.arn@
            &&& x is Service ==> r->0@ == x->Service_0.arn@
        }),
{
}

/// For the logs and the image of a service its task definition is asked for; a cluster
/// has none.
pub proof fn law_task_definition_is_asked_for(a: &mut App, b: &mut App, r: Option<Describe>, s: Option<Describe>)
    requires
        old(a).wf(),
        old(b).wf(),
        call_ensures(App::tail_logs, (a,), r),
        call_ensures(App::handoff_ecr, (b,), s),
    ensures
        ({
            let x = old(a).browser().list().focused();
            &&& x is Some && x->0 is Cluster ==> r is None
            &&& x is Some && x->0 is Service && x->0->Service_0.task_definition is Some ==> r is Some
                && r->0.task_definition@ == x->0->Service_0.task_definition->0@ && r->0.label@
                == x->0->Service_0.name@ && text::opt_view(r->0.region) == old(a).browser().active().spec@.region
        }),
        ({
            let x = old(b).browser().list().focused();
            &&& x is Some && x->0 is Cluster ==> s is None
            &&& x is Some && x->0 is Service && x->0->Service_0.task_definition is Some ==> s is Some
                && s->0.task_definition@ == x->0->Service_0.task_definition->0@ && s->0.label@
                == x->0->Service_0.name@
        }),
{
}

/// The logs browser is started on the log group of the task; without one, or where the
/// task could not be read, nothing is started.
pub proof fn law_logs_are_followed(a: &mut App, d: &Describe, td: TaskDefinition, e: String, b: &mut App, r: Option<Launch>, s: Option<Launch>)
    requires
        old(a).wf(),
        old(b).wf(),
        call_ensures(App::logs_described, (a, d, Ok::<TaskDefinition, String>(td)), r),
        call_ensures(App::logs_described, (b, d, Err::<TaskDefinition, String>(e)), s),
    ensures
        ecs::task_log_group(td) is None ==> r is None,
        ecs::task_log_group(td) is Some ==> r is Some && r->0.program@ == "mnml-aws-cloudwatch-logs"@ && text::views(
            r->0.args@,
        ).take(4) =~= seq!["--log-group"@, ecs::task_log_group(td)->0, "--log-group-name"@, d.label@],
        s is None,
        final(b).status@ == "describe-task-definition: "@ + e@,
{
    assert(final(b).browser().status == final(b).status@);
    if ecs::task_log_group(td) is Some {
        assert(r->0@.args == text::views(r->0.args@));
        assert(r->0@.program == r->0.program@);
    }
}

/// The registry browser is started in the region of the service.
pub proof fn law_registry_is_shown(a: &mut App, d: &Describe, td: TaskDefinition, r: Option<Launch>)
    requires
        old(a).wf(),
        call_ensures(App::ecr_described, (a, d, Ok::<TaskDefinition, String>(td)), r),
    ensures
        ecs::task_image(td) is None ==> r is None,
        ecs::task_image(td) is Some && d.region is Some ==> r is Some && r->0.program@ == "mnml-aws-ecr"@ && text::views(
            r->0.args@,
        ) =~= seq!["--region"@, d.region->0@] && text::has_part(r->0.done@, ecs::repository_label(ecs::task_image(td)->0)),
{
    if ecs::task_image(td) is Some && d.region is Some {
        let l = r->0@;
        assert(l.args == text::views(r->0.args@));
        assert(l.program == r->0.program@);
        assert(l.done == r->0.done@);
        let head = "launched mnml-aws-ecr — navigate to "@;
        let label = ecs::repository_label(ecs::task_image(td)->0);
        assert(l.done.subrange(head.len() as int, head.len() as int + label.len()) =~= label);
        assert(text::part_at(l.done, label, head.len() as int));
    }
}

/// The details of a service begin with its name, its status and its tasks.
pub proof fn law_details_of_a_service(x: &Item, s: Service, r: Vec<Line>)
    requires
        call_ensures(ui::draw_detail, (Some(x),), r),
        *x == Item::Service(s),
        s.status is Some,
        s.running_count is Some,
        s.desired_count is Some,
        s.pending_count is None,
    ensures
        ({
            let d = screen::drawn(r@);
            &&& d.len() >= 6
            &&& d[0] == tabs::detail_row("Name"@, 14, s.name@)
            &&& d[1] == tabs::detail_row("Status"@, 14, s.status->0@)
            &&& d[2] == tabs::detail_row(
                "Tasks"@,
                14,
                numeral::decimal(s.running_count->0 as nat) + "/"@ + numeral::decimal(s.desired_count->0 as nat),
            )
            &&& d[d.len() - 1][0].0 == " "@ + s.arn@
        }),
{
}

/// The details of a cluster begin with its name, its status, its services and its tasks.
pub proof fn law_details_of_a_cluster(x: &Item, c: Cluster, r: Vec<Line>)
    requires
        call_ensures(ui::draw_detail, (Some(x),), r),
        *x == Item::Cluster(c),
        c.status is Some,
        c.active_services is Some,
        c.running_tasks is Some,
    ensures
        ({
            let d = screen::drawn(r@);
            &&& d.len() >= 7
            &&& d[0] == tabs::detail_row("Name"@, 14, c.name@)
            &&& d[1] == tabs::detail_row("Status"@, 14, c.status->0@)
            &&& d[2] == tabs::detail_row("Services"@, 14, numeral::decimal(c.active_services->0 as nat))
            &&& d[3] == tabs::detail_row("Running tasks"@, 14, numeral::decimal(c.running_tasks->0 as nat))
            &&& d[d.len() - 1][0].0 == " "@ + c.arn@
        }),
{
}

/// What the keys do.
pub proof fn law_keys(ctrl: bool, a: &App, y: Option<Action>, l: Option<Action>, g: Option<Action>)
    requires
        a.wf(),
        call_ensures(keys::handle, (Key::Char('y'), ctrl, a), y),
        call_ensures(keys::handle, (Key::Char('L'), ctrl, a), l),
        call_ensures(keys::handle, (Key::Char('R'), ctrl, a), g),
    ensures
        y == Some(Action::YankArn),
        l == Some(Action::TailLogs),
        g == Some(Action::HandoffEcr),
{
}

/// Moving takes the cursor that far, but not out of the list, and leaves the list and
/// the tab alone.
pub proof fn law_moving_the_cursor(a: &mut App, delta: isize)
    requires
        old(a).wf(),
        call_ensures(App::move_selection, (a, delta), ()),
    ensures
        ({
            let l = old(a).browser().list();
            let r = final(a).browser().list();
            &&& final(a).browser().active_tab == old(a).browser().active_tab
            &&& r.items == l.items
            &&& 0 <= l.selected + delta < l.items.len() ==> r.selected == l.selected + delta
            &&& l.items.len() > 0 && l.selected + delta < 0 ==> r.selected == 0
            &&& l.items.len() > 0 && l.selected + delta >= l.items.len() ==> r.selected == l.items.len() - 1
        }),
{
}

/// A tab that is chosen is shown; a number behind the last tab changes nothing.
pub proof fn law_choosing_a_tab(a: &mut App, i: usize, r: Option<Fetch>)
    requires
        old(a).wf(),
        call_ensures(App::switch_tab, (a, i), r),
    ensures
        i < old(a).tabs@.len() ==> final(a).active_tab == i,
        i >= old(a).tabs@.len() ==> final(a).active_tab == old(a).active_tab && r is None,
        i < old(a).tabs@.len() ==> (r is Some <==> old(a).tabs@[i as int].data@.items.len() == 0
            && old(a).tabs@[i as int].data@.last_error is None),
{
    assert(final(a).browser().active_tab == final(a).active_tab);
    if i < old(a).tabs@.len() {
        assert(old(a).browser().tabs[i as int].data == old(a).tabs@[i as int].data@);
    }
}

/// A load that is begun is shown as such, and nothing is lost.
pub proof fn law_begun_load(a: &mut App, r: Fetch)
    requires
        old(a).wf(),
        call_ensures(App::refresh_active, (a,), r),
    ensures
        final(a).browser().list().loading,
        final(a).browser().list().items == old(a).browser().list().items,
        final(a).status@ == "loading "@ + old(a).browser().active().name + "…"@,
{
    assert(final(a).browser().status == final(a).status@);
}

/// What was loaded takes the place of the list; an error is told and keeps the list.
pub proof fn law_ended_load(a: &mut App, items: Vec<Item>, b: &mut App, e: String, now: u64)
    requires
        old(a).wf(),
        old(b).wf(),
        call_ensures(App::refresh_done, (a, Ok::<Vec<Item>, String>(items), now), ()),
        call_ensures(App::refresh_done, (b, Err::<Vec<Item>, String>(e), now), ()),
    ensures
        final(a).browser().list().items == items@,
        final(a).browser().list().last_loaded == Some(now),
        !final(a).browser().list().loading,
        final(a).browser().list().last_error is None,
        final(a).status@ == old(a).browser().active().name + ": "@ + numeral::decimal(items@.len()) + " "@
            + app::count_label(old(a).browser().active().spec@),
        final(b).browser().list().items == old(b).browser().list().items,
        !final(b).browser().list().loading,
        final(b).browser().list().last_error == Some(e@),
        final(b).status@ == "error: "@ + e@,
{
    assert(final(a).browser().status == final(a).status@);
    assert(final(b).browser().status == final(b).status@);
}

/// The list is loaded again by itself once it is as old as the interval says, unless the
/// interval is nothing or a load is under way.
pub proof fn law_loading_again(a: &mut App, now: u64, r: Option<Fetch>)
    requires
        old(a).wf(),
        call_ensures(App::tick, (a, now), r),
    ensures
        ({
            let l = old(a).browser().list();
            let every = old(a).cfg.refresh_interval_secs;
            &&& every == 0 || l.loading ==> r is None
            &&& every > 0 && !l.loading && l.last_loaded is None ==> r is Some
            &&& every > 0 && !l.loading && l.last_loaded is Some && now >= l.last_loaded->0 ==> (r is Some <==> now
                - l.last_loaded->0 >= 1000 * every)
            &&& final(a).browser().list().items == l.items
        }),
{
    let l = old(a).browser().list();
    if l.last_loaded is Some && now >= l.last_loaded->0 {
        let d = now - l.last_loaded->0;
        assert(d / 1000 >= old(a).cfg.refresh_interval_secs <==> d >= 1000 * old(a).cfg.refresh_interval_secs);
    }
}

proof fn lemma_tabs_error(t: Seq<Tab>, region: Option<Seq<char>>, n: int)
    requires
        0 <= n <= t.len(),
    ensures
        app::tabs_error(t, region, n) is None <==> forall|i: int|
            0 <= i < n ==> (#[trigger] app::resolved(t[i], region)) is Ok,
    decreases n,
{
    if n > 0 {
        lemma_tabs_error(t, region, n - 1);
        if app::tabs_error(t, region, n) is None {
            assert forall|i: int| 0 <= i < n implies (#[trigger] app::resolved(t[i], region)) is Ok by {
                if i == n - 1 {
                    assert(app::resolved(t[n - 1], region) is Ok);
                }
            }
        } else if app::tabs_error(t, region, n - 1) is None {
            assert(app::resolved(t[n - 1], region) is Err);
        }
    }
}

/// A browser begins with the first of its tabs, each under its name and empty; it does
/// not begin where one of them is refused.
pub proof fn law_fresh_browser(cfg: Config, r: Result<App, String>, i: int)
    requires
        cfg.tabs@.len() > 0,
        call_ensures(App::new, (cfg,), r),
    ensures
        r is Ok <==> forall|j: int|
            0 <= j < cfg.tabs@.len() ==> (#[trigger] app::resolved(cfg.tabs@[j], text::opt_view(cfg.region))) is Ok,
        r is Ok ==> r->Ok_0.active_tab == 0 && r->Ok_0.tabs@.len() == cfg.tabs@.len() && r->Ok_0.status@.len() == 0,
        r is Ok && 0 <= i < cfg.tabs@.len() ==> r->Ok_0.tabs@[i].name@ == cfg.tabs@[i].name@
            && r->Ok_0.tabs@[i].data@.items.len() == 0 && r->Ok_0.tabs@[i].data@.last_loaded is None
            && !r->Ok_0.tabs@[i].data@.loading,
{
    lemma_tabs_error(cfg.tabs@, text::opt_view(cfg.region), cfg.tabs@.len() as int);
    if r is Ok && 0 <= i < cfg.tabs@.len() {
        assert(app::fresh_tab(r->Ok_0.tabs@[i], cfg.tabs@[i], text::opt_view(cfg.region)));
    }
}

/// It is told which page was opened, or why none was.
pub proof fn law_opened_page_is_told(a: &mut App, url: &str, ok: &Result<(), String>, b: &mut App, e: String, bad: &Result<(), String>)
    requires
        *ok == Ok::<(), String>(()),
        *bad == Err::<(), String>(e),
        call_ensures(App::opened, (a, url, ok), ()),
        call_ensures(App::opened, (b, url, bad), ()),
    ensures
        final(a).status@ == "opened "@ + url@,
        final(b).status@ == "open failed: "@ + e@,
        final(a).active_tab == old(a).active_tab,
{
    assert(final(a).browser().status == final(a).status@);
    assert(final(b).browser().status == final(b).status@);
    assert(final(a).browser().active_tab == final(a).active_tab);
    assert(old(a).browser().active_tab == old(a).active_tab);
}

/// In place of a list stands its error; a list that fits is drawn row by row.
pub proof fn law_list_is_drawn(t: &TabState, height: u16, r: Pane, i: int)
    requires
        call_ensures(ui::draw_list, (t, height), r),
    ensures
        t.data@.last_error is Some ==> screen::drawn(r.lines@) == seq![
            seq![("error: "@ + t.data@.last_error->0, screen::colored(Color::Red))],
        ],
        t.data@.last_error is None && t.data@.items.len() == 0 && t.data@.loading ==> screen::drawn(r.lines@)[0][0].0
            == "(loading…)"@,
        t.data@.last_error is None && 0 < t.data@.items.len() <= height - 2 && 0 <= t.data@.selected
            < t.data@.items.len() ==> screen::drawn(r.lines@).len() == t.data@.items.len() && (0 <= i
            < t.data@.items.len() ==> screen::drawn(r.lines@)[i] == ui::item_row(
            t.data@.items,
            t.data@.selected,
            i,
        )),
{
}

/// The title of a list names what it lists and counts it.
pub proof fn law_titles(s: SpecV, n: nat)
    ensures
        s.kind == "clusters"@ ==> ui::list_title(s, n) == " clusters ("@ + numeral::decimal(n) + ") "@,
        s.kind == "services"@ && s.cluster is Some ==> ui::list_title(s, n) == " services · "@ + s.cluster->0 + " ("@
            + numeral::decimal(n) + ") "@,
{
    reveal_strlit("clusters");
    reveal_strlit("services");
    assert("clusters"@[0] == 'c' && "services"@[0] == 's');
}

/// It is told what was copied, or why nothing was.
pub proof fn law_copy_is_told(
    a: &mut App,
    x: &str,
    ok: &Result<(), String>,
    b: &mut App,
    e: String,
    bad: &Result<(), String>,
)
    requires
        *ok == Ok::<(), String>(()),
        *bad == Err::<(), String>(e),
        call_ensures(App::arn_copied, (a, x, ok), ()),
        call_ensures(App::arn_copied, (b, x, bad), ()),
    ensures
        final(a).status@ == "copied ARN ("@ + numeral::decimal(vstd::utf8::encode_utf8(x@).len()) + " chars)"@,
        final(b).status@ == "copy failed: "@ + e@,
{
    assert(final(a).browser().status == final(a).status@);
    assert(final(b).browser().status == final(b).status@);
}

/// What failed is told with what the command wrote.
pub proof fn law_failure_of_ecs(action: &str, ran: &Ran, e: String, r: Option<String>)
    requires
        call_ensures(ecs::ecs_error, (action, ran), r),
    ensures
        r is None <==> ran is Done,
        *ran == Ran::Failed(e) ==> r is Some && r->0@ == "aws ecs "@ + action@ + " failed: "@ + text::trimmed(e@),
        *ran == Ran::NotStarted(e) ==> r is Some && r->0@ == "spawn `aws ecs "@ + action@ + "`"@,
{
}

/// Why a tab is refused, with its name.
pub proof fn law_refused_tabs(t: &Tab, region: Option<&str>, r: Result<TabSpec, String>)
    requires
        call_ensures(TabSpec::resolve, (t, region), r),
    ensures
        t.kind@ != "clusters"@ && t.kind@ != "services"@ ==> r is Err && r->Err_0@ == "tab `"@ + t.name@ + "`: unknown kind "@ + text::quoted(
            t.kind@,
        ),
        t.kind@ == "services"@ && t.cluster is None ==> r is Err && r->Err_0@ == "tab `"@ + t.name@
            + "`: kind=\"services\" requires `cluster`"@,
{
    reveal_strlit("clusters");
    reveal_strlit("services");
    assert("clusters"@[0] == 'c' && "services"@[0] == 's');
    text::law_trimmed_text_stays(Seq::empty());
    reveal_strlit("");
    assert(text::trimmed(""@) =~= Seq::<char>::empty());
}

proof fn lemma_refused_first(t: Seq<Tab>, region: Option<Seq<char>>, n: int, i: int)
    requires
        0 <= i < n <= t.len(),
        forall|j: int| 0 <= j < i ==> (#[trigger] app::resolved(t[j], region)) is Ok,
        app::resolved(t[i], region) is Err,
    ensures
        app::tabs_error(t, region, n) == Some(app::resolved(t[i], region)->Err_0),
    decreases n,
{
    if n - 1 > i {
        lemma_refused_first(t, region, n - 1, i);
    } else {
        lemma_tabs_error(t, region, i);
    }
}

/// Of several refused tabs the first is told.
pub proof fn law_first_refused_tab_is_told(cfg: Config, r: Result<App, String>, i: int)
    requires
        0 <= i < cfg.tabs@.len(),
        call_ensures(App::new, (cfg,), r),
        forall|j: int| 0 <= j < i ==> (#[trigger] app::resolved(cfg.tabs@[j], text::opt_view(cfg.region))) is Ok,
        app::resolved(cfg.tabs@[i], text::opt_view(cfg.region)) is Err,
    ensures
        r is Err,
        r->Err_0@ == app::resolved(cfg.tabs@[i], text::opt_view(cfg.region))->Err_0,
{
    lemma_refused_first(cfg.tabs@, text::opt_view(cfg.region), cfg.tabs@.len() as int, i);
}

/// Of the events of a service the first five are shown, with their messages.
pub proof fn law_events_of_a_service(e: Seq<ecs::ServiceEvent>, i: int)
    requires
        e.len() > 0,
    ensures
        ui::events_lines(e).len() == (if e.len() <= 5 {
            2 + e.len()
        } else {
            7
        }),
        0 <= i < e.len() && i < 5 && e[i].message is Some && e[i].message->0@.len() <= 64 ==> ui::events_lines(e)[2
            + i][1].0 == e[i].message->0@,
{
    if 0 <= i < e.len() && i < 5 && e[i].message is Some {
        text::law_shortened(e[i].message->0@, 64);
    }
}

/// A deployment is shown with its status, its task definition and its tasks; what is not
/// complete is told below it.
pub proof fn law_line_of_a_deployment(d: ecs::Deployment, status: String, td: String, running: u64, wanted: u64)
    requires
        d.status == Some(status),
        d.task_definition == Some(td),
        d.running_count == Some(running),
        d.desired_count == Some(wanted),
    ensures
        ({
            let l = ui::deployment_lines(d);
            &&& l.len() >= 1
            &&& text::has_part(l[0][0].0, status@)
            &&& text::has_prefix(l[0][1].0, text::after_last(td@, '/'))
            &&& l[0][2].0 == numeral::decimal(running as nat) + "/"@ + numeral::decimal(wanted as nat)
            &&& d.rollout_state is Some && d.rollout_state->0@ == "COMPLETED"@ ==> l.len() == 1
            &&& d.rollout_state is Some && d.rollout_state->0@.len() > 0 && d.rollout_state->0@ != "COMPLETED"@
                ==> l.len() == 2 && l[1][0].0 == "     rollout: "@ + d.rollout_state->0@
        }),
{
    let l = ui::deployment_lines(d);
    text::law_padded(status@, 10);
    text::law_padded(text::after_last(td@, '/'), 24);
    let p = text::padded_right(status@, 10);
    let t = l[0][0].0;
    assert(t.subrange(" "@.len() as int, " "@.len() as int + status@.len()) =~= p.take(status@.len() as int));
    assert(text::part_at(t, status@, " "@.len() as int));
    let name = text::after_last(td@, '/');
    let q = text::padded_right(name, 24);
    assert((q + " "@).take(name.len() as int) =~= q.take(name.len() as int));
}

/// Of the deployments of a service the first three are shown.
pub proof fn law_deployments_of_a_service(d: Seq<ecs::Deployment>)
    ensures
        d.len() == 0 ==> ui::deployments_lines(d).len() == 0,
        d.len() > 0 ==> ui::deployments_lines(d)[1][0].0 == " Deployments ("@ + numeral::decimal(d.len()) + ") "@,
        d.len() == 1 ==> ui::deployments_lines(d) =~= ui::deployments_lines(d).take(2) + ui::deployment_lines(d[0]),
        d.len() >= 3 ==> ui::deployments_lines(d) =~= ui::deployments_lines(d).take(2) + ui::deployment_lines(d[0])
            + ui::deployment_lines(d[1]) + ui::deployment_lines(d[2]),
{
    reveal_with_fuel(ui::first_deployments, 4);
}

/// The details of a service that has them: task definition, launch type, platform and
/// creation.
pub proof fn law_more_details_of_a_service(x: &Item, s: Service, r: Vec<Line>)
    requires
        call_ensures(ui::draw_detail, (Some(x),), r),
        *x == Item::Service(s),
        s.task_definition is Some,
        s.launch_type is Some,
        s.platform_version is Some,
        s.created_at is Some,
    ensures
        ({
            let d = screen::drawn(r@);
            &&& d.len() >= 10
            &&& d[3] == tabs::detail_row("Task def"@, 14, text::after_last(s.task_definition->0@, '/'))
            &&& d[4] == tabs::detail_row("Launch type"@, 14, s.launch_type->0@)
            &&& d[5] == tabs::detail_row("Platform"@, 14, s.platform_version->0@)
            &&& d[6] == tabs::detail_row("Created"@, 14, s.created_at->0@)
        }),
{
}

/// The tasks of a service that wait are told where there are any.
pub proof fn law_waiting_tasks(s: Service, running: u64, wanted: u64, waiting: u64)
    requires
        s.running_count == Some(running),
        s.desired_count == Some(wanted),
        s.pending_count == Some(waiting),
    ensures
        waiting > 0 ==> ui::tasks_words(s) == numeral::decimal(running as nat) + "/"@ + numeral::decimal(wanted as nat)
            + " (pending "@ + numeral::decimal(waiting as nat) + ")"@,
        waiting == 0 ==> ui::tasks_words(s) == numeral::decimal(running as nat) + "/"@ + numeral::decimal(
            wanted as nat,
        ),
{
}

/// The details of a cluster that has them: waiting tasks, instances and providers.
pub proof fn law_more_details_of_a_cluster(x: &Item, c: Cluster, waiting: u64, instances: u64, r: Vec<Line>)
    requires
        call_ensures(ui::draw_detail, (Some(x),), r),
        *x == Item::Cluster(c),
        c.pending_tasks == Some(waiting),
        c.container_instances == Some(instances),
        waiting > 0,
        instances > 0,
        c.capacity_providers@.len() > 0,
    ensures
        ({
            let d = screen::drawn(r@);
            &&& d.len() == 10
            &&& d[4] == tabs::detail_row("Pending tasks"@, 14, numeral::decimal(waiting as nat))
            &&& d[5] == tabs::detail_row("EC2 instances"@, 14, numeral::decimal(instances as nat))
            &&& d[6] == tabs::detail_row("Providers"@, 14, text::joined(text::views(c.capacity_providers@), ", "@))
        }),
{
}

} // verus!
