//! Clusters, services and what they run.

use vstd::prelude::*;

use crate::command;
use crate::command::{with_all, with_option, with_region, Ran};
use crate::numeral;
use crate::numeral::dec;
use crate::table;
use crate::table::Table;
use crate::text;
use crate::text::{cat2, cat3, cat4, cat5, last_piece, list_of, owned, str_eq, trim};

verus! {

/// A cluster.
pub struct Cluster {
    pub name: String,
    pub arn: String,
    pub status: Option<String>,
    pub active_services: Option<u64>,
    pub running_tasks: Option<u64>,
    pub pending_tasks: Option<u64>,
    pub container_instances: Option<u64>,
    pub capacity_providers: Vec<String>,
}

/// A deployment of a service.
pub struct Deployment {
    pub status: Option<String>,
    pub rollout_state: Option<String>,
    pub task_definition: Option<String>,
    pub running_count: Option<u64>,
    pub desired_count: Option<u64>,
}

/// Something that happened to a service.
pub struct ServiceEvent {
    pub created_at: Option<String>,
    pub message: Option<String>,
}

/// A service.
pub struct Service {
    pub name: String,
    pub arn: String,
    pub cluster_arn: String,
    pub status: Option<String>,
    pub desired_count: Option<u64>,
    pub running_count: Option<u64>,
    pub pending_count: Option<u64>,
    pub task_definition: Option<String>,
    pub launch_type: Option<String>,
    pub platform_version: Option<String>,
    pub created_at: Option<String>,
    pub deployments: Vec<Deployment>,
    pub events: Vec<ServiceEvent>,
}

/// Where a container sends its logs.
pub struct LogConfiguration {
    pub log_driver: Option<String>,
    pub options: Table<String, String>,
}

/// A container of a task definition.
pub struct ContainerDefinition {
    pub image: Option<String>,
    pub log_configuration: Option<LogConfiguration>,
}

/// What the tasks of a service are made of.
pub struct TaskDefinition {
    pub container_definitions: Vec<ContainerDefinition>,
}

/// What a tab lists.
pub enum Item {
    Cluster(Cluster),
    Service(Service),
}

/// A number, or 0.
pub open spec fn or_zero(n: Option<u64>) -> u64 {
    match n {
        Some(k) => k,
        None => 0,
    }
}

pub fn count_or_zero(n: Option<u64>) -> (r: u64)
    ensures
        r == or_zero(n),
{
    match n {
        Some(k) => k,
        None => 0,
    }
}

/// The name of an item.
pub open spec fn primary(x: Item) -> Seq<char> {
    match x {
        Item::Cluster(c) => c.name@,
        Item::Service(s) => s.name@,
    }
}

/// What is said of an item beside its name: its status, and how many tasks run.
pub open spec fn secondary(x: Item) -> Seq<char> {
    match x {
        Item::Cluster(c) => (match c.status {
            Some(s) => s@,
            None => "?"@,
        }) + " · "@ + numeral::decimal(or_zero(c.active_services) as nat) + " svc · "@
            + numeral::decimal(or_zero(c.running_tasks) as nat) + " tasks"@,
        Item::Service(s) => (match s.status {
            Some(s) => s@,
            None => "?"@,
        }) + " · "@ + numeral::decimal(or_zero(s.running_count) as nat) + "/"@ + numeral::decimal(
            or_zero(s.desired_count) as nat,
        ),
    }
}

/// The ARN of an item.
pub open spec fn item_arn(x: Item) -> Seq<char> {
    match x {
        Item::Cluster(c) => c.arn@,
        Item::Service(s) => s.arn@,
    }
}

fn text_or_unknown(o: &Option<String>) -> (r: &str)
    ensures
        r@ == (match *o {
            Some(s) => s@,
            None => "?"@,
        }),
{
    match o {
        Some(s) => s.as_str(),
        None => "?",
    }
}

impl Item {
    pub fn primary_label(&self) -> (r: &str)
        ensures
            r@ == primary(*self),
    {
        match self {
            Item::Cluster(c) => c.name.as_str(),
            Item::Service(s) => s.name.as_str(),
        }
    }

    pub fn secondary_label(&self) -> (r: String)
        ensures
            r@ == secondary(*self),
    {
        match self {
            Item::Cluster(c) => {
                let services = dec(count_or_zero(c.active_services));
                let tasks = dec(count_or_zero(c.running_tasks));
                let first = cat5(
                    text_or_unknown(&c.status),
                    " · ",
                    services.as_str(),
                    " svc · ",
                    tasks.as_str(),
                );
                cat2(first.as_str(), " tasks")
            },
            Item::Service(s) => {
                let running = dec(count_or_zero(s.running_count));
                let desired = dec(count_or_zero(s.desired_count));
                cat5(text_or_unknown(&s.status), " · ", running.as_str(), "/", desired.as_str())
            },
        }
    }

    pub fn arn(&self) -> (r: &str)
        ensures
            r@ == item_arn(*self),
    {
        match self {
            Item::Cluster(c) => c.arn.as_str(),
            Item::Service(s) => s.arn.as_str(),
        }
    }
}

/// What stands behind the last slash of a task definition's ARN.
pub fn task_definition_short(td: &str) -> (r: String)
    ensures
        r@ == text::after_last(td@, '/'),
{
    owned(last_piece(td, '/'))
}

/// The arguments of `aws` for a task definition.
pub open spec fn task_definition_command(td: Seq<char>, region: Option<Seq<char>>) -> Seq<Seq<char>> {
    seq!["ecs"@, "describe-task-definition"@, "--task-definition"@, td, "--output"@, "json"@]
        + command::region_option(region)
}

pub fn describe_task_definition_args(td: &str, region: Option<&str>) -> (r: Vec<String>)
    ensures
        text::views(r@) == task_definition_command(td@, text::opt_str_view(region)),
{
    let head = list_of(
        vec!["ecs", "describe-task-definition", "--task-definition", td, "--output", "json"],
    );
    assert(text::views(head@) =~= seq![
        "ecs"@,
        "describe-task-definition"@,
        "--task-definition"@,
        td@,
        "--output"@,
        "json"@,
    ]);
    with_region(head, region)
}

/// The arguments of `aws` for a page of the ARNs of all clusters.
pub open spec fn clusters_command(region: Option<Seq<char>>, token: Option<Seq<char>>) -> Seq<Seq<char>> {
    seq!["ecs"@, "list-clusters"@, "--output"@, "json"@] + command::region_option(region)
        + command::option_with("--next-token"@, token)
}

pub fn list_clusters_args(region: Option<&str>, token: Option<&str>) -> (r: Vec<String>)
    ensures
        text::views(r@) == clusters_command(text::opt_str_view(region), text::opt_str_view(token)),
{
    let head = list_of(vec!["ecs", "list-clusters", "--output", "json"]);
    assert(text::views(head@) =~= seq!["ecs"@, "list-clusters"@, "--output"@, "json"@]);
    with_option(with_region(head, region), "--next-token", token)
}

/// The arguments of `aws` for a page of the ARNs of a cluster's services.
pub open spec fn services_command(
    cluster: Seq<char>,
    region: Option<Seq<char>>,
    token: Option<Seq<char>>,
) -> Seq<Seq<char>> {
    seq!["ecs"@, "list-services"@, "--cluster"@, cluster, "--output"@, "json"@] + command::region_option(
        region,
    ) + command::option_with("--next-token"@, token)
}

pub fn list_services_args(cluster: &str, region: Option<&str>, token: Option<&str>) -> (r: Vec<String>)
    ensures
        text::views(r@) == services_command(
            cluster@,
            text::opt_str_view(region),
            text::opt_str_view(token),
        ),
{
    let head = list_of(vec!["ecs", "list-services", "--cluster", cluster, "--output", "json"]);
    assert(text::views(head@) =~= seq![
        "ecs"@,
        "list-services"@,
        "--cluster"@,
        cluster@,
        "--output"@,
        "json"@,
    ]);
    with_option(with_region(head, region), "--next-token", token)
}

/// The arguments of `aws` for the details of some clusters.
pub open spec fn describe_clusters_command(
    arns: Seq<Seq<char>>,
    region: Option<Seq<char>>,
) -> Seq<Seq<char>> {
    seq!["ecs"@, "describe-clusters"@, "--output"@, "json"@, "--clusters"@] + arns
        + command::region_option(region)
}

pub fn describe_clusters_args(arns: &Vec<String>, region: Option<&str>) -> (r: Vec<String>)
    ensures
        text::views(r@) == describe_clusters_command(text::views(arns@), text::opt_str_view(region)),
{
    let head = list_of(vec!["ecs", "describe-clusters", "--output", "json", "--clusters"]);
    assert(text::views(head@) =~= seq![
        "ecs"@,
        "describe-clusters"@,
        "--output"@,
        "json"@,
        "--clusters"@,
    ]);
    with_region(with_all(head, arns), region)
}

/// The arguments of `aws` for the details of some services of a cluster.
pub open spec fn describe_services_command(
    cluster: Seq<char>,
    arns: Seq<Seq<char>>,
    region: Option<Seq<char>>,
) -> Seq<Seq<char>> {
    seq!["ecs"@, "describe-services"@, "--cluster"@, cluster, "--output"@, "json"@, "--services"@] + arns
        + command::region_option(region)
}

pub fn describe_services_args(cluster: &str, arns: &Vec<String>, region: Option<&str>) -> (r: Vec<
    String,
>)
    ensures
        text::views(r@) == describe_services_command(
            cluster@,
            text::views(arns@),
            text::opt_str_view(region),
        ),
{
    let head = list_of(
        vec!["ecs", "describe-services", "--cluster", cluster, "--output", "json", "--services"],
    );
    assert(text::views(head@) =~= seq![
        "ecs"@,
        "describe-services"@,
        "--cluster"@,
        cluster@,
        "--output"@,
        "json"@,
        "--services"@,
    ]);
    with_region(with_all(head, arns), region)
}

/// The error of a run of `aws ecs`.
pub open spec fn run_error(action: Seq<char>, ran: Ran) -> Option<Seq<char>> {
    match ran {
        Ran::NotStarted(_) => Some("spawn `aws ecs "@ + action + "`"@),
        Ran::Failed(e) => Some("aws ecs "@ + action + " failed: "@ + text::trimmed(e@)),
        Ran::Done(_) => None,
    }
}

/// The error of a run of `aws ecs` with `action` as its first word.
pub fn ecs_error(action: &str, ran: &Ran) -> (r: Option<String>)
    ensures
        text::opt_view(r) == run_error(action@, *ran),
{
    match ran {
        Ran::NotStarted(_) => Some(cat3("spawn `aws ecs ", action, "`")),
        Ran::Failed(e) => Some(cat4("aws ecs ", action, " failed: ", trim(e.as_str()))),
        Ran::Done(_) => None,
    }
}

/// The group of logs of a container, where it sends its logs to CloudWatch.
pub open spec fn log_group(c: ContainerDefinition) -> Option<Seq<char>> {
    match c.log_configuration {
        Some(l) => match l.log_driver {
            Some(d) => if d@ == "awslogs"@ {
                text::opt_view(table::looked_up(l.options@, "awslogs-group"@))
            } else {
                None
            },
            None => None,
        },
        None => None,
    }
}

fn log_group_of(c: &ContainerDefinition) -> (r: Option<String>)
    ensures
        text::opt_view(r) == log_group(*c),
{
    match &c.log_configuration {
        Some(l) => match &l.log_driver {
            Some(d) => {
                if str_eq(d.as_str(), "awslogs") {
                    match l.options.get(&owned("awslogs-group")) {
                        Some(g) => Some(g.clone()),
                        None => None,
                    }
                } else {
                    None
                }
            },
            None => None,
        },
        None => None,
    }
}

/// The first group of logs among the first `n` containers.
pub open spec fn first_log_group(c: Seq<ContainerDefinition>, n: int) -> Option<Seq<char>>
    decreases n,
{
    if n <= 0 {
        None
    } else {
        match first_log_group(c, n - 1) {
            Some(g) => Some(g),
            None => log_group(c[n - 1]),
        }
    }
}

/// The first group of logs of a task definition.
pub open spec fn task_log_group(td: TaskDefinition) -> Option<Seq<char>> {
    first_log_group(td.container_definitions@, td.container_definitions@.len() as int)
}

proof fn lemma_first_log_group(c: Seq<ContainerDefinition>, i: int, n: int)
    requires
        0 <= i <= n,
        first_log_group(c, i) is Some,
    ensures
        first_log_group(c, n) == first_log_group(c, i),
    decreases n - i,
{
    if i < n {
        lemma_first_log_group(c, i, n - 1);
    }
}

/// The first group of logs of a task definition.
pub fn awslogs_group_for_task_def(td: &TaskDefinition) -> (r: Option<String>)
    ensures
        text::opt_view(r) == task_log_group(*td),
{
    let c = &td.container_definitions;
    let mut i: usize = 0;
    while i < c.len()
        invariant
            i <= c.len(),
            *c == td.container_definitions,
            first_log_group(c@, i as int) is None,
        decreases c.len() - i,
    {
        if let Some(g) = log_group_of(&c[i]) {
            proof {
                assert(first_log_group(c@, i + 1) == Some(g@));
                lemma_first_log_group(c@, i + 1, c@.len() as int);
            }
            return Some(g);
        }
        i = i + 1;
    }
    None
}

/// The first image among the first `n` containers.
pub open spec fn first_image(c: Seq<ContainerDefinition>, n: int) -> Option<Seq<char>>
    decreases n,
{
    if n <= 0 {
        None
    } else {
        match first_image(c, n - 1) {
            Some(g) => Some(g),
            None => text::opt_view(c[n - 1].image),
        }
    }
}

/// The first image of a task definition.
pub open spec fn task_image(td: TaskDefinition) -> Option<Seq<char>> {
    first_image(td.container_definitions@, td.container_definitions@.len() as int)
}

proof fn lemma_first_image(c: Seq<ContainerDefinition>, i: int, n: int)
    requires
        0 <= i <= n,
        first_image(c, i) is Some,
    ensures
        first_image(c, n) == first_image(c, i),
    decreases n - i,
{
    if i < n {
        lemma_first_image(c, i, n - 1);
    }
}

/// The first image of a task definition.
pub fn image_for_task_def(td: &TaskDefinition) -> (r: Option<String>)
    ensures
        text::opt_view(r) == task_image(*td),
{
    let c = &td.container_definitions;
    let mut i: usize = 0;
    while i < c.len()
        invariant
            i <= c.len(),
            *c == td.container_definitions,
            first_image(c@, i as int) is None,
        decreases c.len() - i,
    {
        if let Some(g) = &c[i].image {
            proof {
                assert(first_image(c@, i + 1) == Some(g@));
                lemma_first_image(c@, i + 1, c@.len() as int);
            }
            return Some(g.clone());
        }
        i = i + 1;
    }
    None
}

/// What stands behind the registry of an image: everything behind the first
/// slash, or all of it where there is none.
pub open spec fn repository_label(image: Seq<char>) -> Seq<char> {
    let host = text::until(image, '/');
    if host.len() < image.len() {
        image.skip(host.len() as int + 1)
    } else {
        image
    }
}

/// What stands behind the registry of an image.
pub fn repository_label_of(image: &str) -> (r: String)
    ensures
        r@ == repository_label(image@),
{
    let host = text::str_until(image, '/');
    let n: usize = text::chars_of(host.as_str()).len();
    let m: usize = text::chars_of(image).len();
    if n < m {
        text::skip_chars(image, n + 1)
    } else {
        owned(image)
    }
}

} // verus!
