//! Database instances and clusters, and the command lines by which they are
//! read.

use vstd::prelude::*;

use crate::command;
use crate::command::{with_option, with_region, Ran};
use crate::numeral;
use crate::numeral::dec;
use crate::order;
use crate::order::{name_before, sort_by};
use crate::text;
use crate::text::{cat2, cat3, list_of, owned, trim};

verus! {

/// Where an instance can be reached.
pub struct DbEndpoint {
    pub address: Option<String>,
    pub port: Option<u32>,
}

/// A database instance.
pub struct DbInstance {
    pub identifier: String,
    pub arn: String,
    pub instance_class: Option<String>,
    pub engine: Option<String>,
    pub engine_version: Option<String>,
    pub status: Option<String>,
    pub endpoint: Option<DbEndpoint>,
    pub allocated_storage: Option<u32>,
    pub storage_type: Option<String>,
    pub multi_az: Option<bool>,
    pub az: Option<String>,
    pub publicly_accessible: Option<bool>,
    pub cluster_identifier: Option<String>,
    pub create_time: Option<String>,
    pub master_username: Option<String>,
}

/// A cluster.
pub struct DbCluster {
    pub identifier: String,
    pub arn: String,
    pub engine: Option<String>,
    pub engine_version: Option<String>,
    pub engine_mode: Option<String>,
    pub status: Option<String>,
    pub endpoint: Option<String>,
    pub reader_endpoint: Option<String>,
    pub port: Option<u32>,
    pub multi_az: Option<bool>,
    pub master_username: Option<String>,
    pub allocated_storage: Option<u32>,
    pub database_name: Option<String>,
    pub create_time: Option<String>,
}

/// What a tab lists.
pub enum Item {
    Instance(DbInstance),
    Cluster(DbCluster),
}

/// A text, or a question mark.
pub open spec fn or_unknown(o: Option<String>) -> Seq<char> {
    match o {
        Some(s) => s@,
        None => "?"@,
    }
}

fn or_unknown_text(o: &Option<String>) -> (r: String)
    ensures
        r@ == or_unknown(*o),
{
    match o {
        Some(s) => s.clone(),
        None => owned("?"),
    }
}

/// A host with its port, where one is known.
pub open spec fn host_port(host: Seq<char>, port: Option<u32>) -> Seq<char> {
    match port {
        Some(p) => host + ":"@ + numeral::decimal(p as nat),
        None => host,
    }
}

pub fn host_port_text(host: &str, port: Option<u32>) -> (r: String)
    ensures
        r@ == host_port(host@, port),
{
    match port {
        Some(p) => cat3(host, ":", dec(p as u64).as_str()),
        None => owned(host),
    }
}

/// Where an instance can be reached.
pub open spec fn instance_endpoint(i: DbInstance) -> Option<Seq<char>> {
    match i.endpoint {
        Some(e) => match e.address {
            Some(a) => Some(host_port(a@, e.port)),
            None => None,
        },
        None => None,
    }
}

/// Where a cluster can be reached.
pub open spec fn cluster_endpoint(c: DbCluster) -> Option<Seq<char>> {
    match c.endpoint {
        Some(a) => Some(host_port(a@, c.port)),
        None => None,
    }
}

impl DbInstance {
    pub fn endpoint_text(&self) -> (r: Option<String>)
        ensures
            text::opt_view(r) == instance_endpoint(*self),
    {
        match &self.endpoint {
            Some(e) => match &e.address {
                Some(a) => Some(host_port_text(a.as_str(), e.port)),
                None => None,
            },
            None => None,
        }
    }
}

impl DbCluster {
    pub fn endpoint_text(&self) -> (r: Option<String>)
        ensures
            text::opt_view(r) == cluster_endpoint(*self),
    {
        match &self.endpoint {
            Some(a) => Some(host_port_text(a.as_str(), self.port)),
            None => None,
        }
    }
}

impl Item {
    /// The identifier.
    pub open spec fn id(self) -> Seq<char> {
        match self {
            Item::Instance(i) => i.identifier@,
            Item::Cluster(c) => c.identifier@,
        }
    }

    /// The engine.
    pub open spec fn engine(self) -> Option<String> {
        match self {
            Item::Instance(i) => i.engine,
            Item::Cluster(c) => c.engine,
        }
    }

    /// The state.
    pub open spec fn state(self) -> Option<String> {
        match self {
            Item::Instance(i) => i.status,
            Item::Cluster(c) => c.status,
        }
    }

    /// The engine and the state.
    pub open spec fn label(self) -> Seq<char> {
        or_unknown(self.engine()) + " · "@ + or_unknown(self.state())
    }

    /// The ARN.
    pub open spec fn arn_text(self) -> Seq<char> {
        match self {
            Item::Instance(i) => i.arn@,
            Item::Cluster(c) => c.arn@,
        }
    }

    /// Where it can be reached.
    pub open spec fn reached_at(self) -> Option<Seq<char>> {
        match self {
            Item::Instance(i) => instance_endpoint(i),
            Item::Cluster(c) => cluster_endpoint(c),
        }
    }

    pub fn primary_label(&self) -> (r: &str)
        ensures
            r@ == self.id(),
    {
        match self {
            Item::Instance(i) => i.identifier.as_str(),
            Item::Cluster(c) => c.identifier.as_str(),
        }
    }

    pub fn secondary_label(&self) -> (r: String)
        ensures
            r@ == self.label(),
    {
        let (engine, status) = match self {
            Item::Instance(i) => (or_unknown_text(&i.engine), or_unknown_text(&i.status)),
            Item::Cluster(c) => (or_unknown_text(&c.engine), or_unknown_text(&c.status)),
        };
        cat3(engine.as_str(), " · ", status.as_str())
    }

    pub fn arn(&self) -> (r: &str)
        ensures
            r@ == self.arn_text(),
    {
        match self {
            Item::Instance(i) => i.arn.as_str(),
            Item::Cluster(c) => c.arn.as_str(),
        }
    }

    pub fn endpoint(&self) -> (r: Option<String>)
        ensures
            text::opt_view(r) == self.reached_at(),
    {
        match self {
            Item::Instance(i) => i.endpoint_text(),
            Item::Cluster(c) => c.endpoint_text(),
        }
    }
}

/// The arguments of `aws` for a page of the list of instances.
pub open spec fn instances_command(region: Option<Seq<char>>, marker: Option<Seq<char>>) -> Seq<Seq<char>> {
    seq!["rds"@, "describe-db-instances"@, "--output"@, "json"@] + command::region_option(region)
        + command::option_with("--starting-token"@, marker)
}

pub fn list_db_instances_args(region: Option<&str>, marker: Option<&str>) -> (r: Vec<String>)
    ensures
        text::views(r@) == instances_command(text::opt_str_view(region), text::opt_str_view(marker)),
{
    let head = list_of(vec!["rds", "describe-db-instances", "--output", "json"]);
    assert(text::views(head@) =~= seq!["rds"@, "describe-db-instances"@, "--output"@, "json"@]);
    with_option(with_region(head, region), "--starting-token", marker)
}

/// The error of a run that listed no instances.
pub open spec fn instances_error(ran: Ran) -> Option<Seq<char>> {
    match ran {
        Ran::NotStarted(_) => Some("spawn `aws rds describe-db-instances`"@),
        Ran::Failed(e) => Some("aws rds describe-db-instances failed: "@ + text::trimmed(e@)),
        Ran::Done(_) => None,
    }
}

pub fn list_db_instances_error(ran: &Ran) -> (r: Option<String>)
    ensures
        text::opt_view(r) == instances_error(*ran),
{
    match ran {
        Ran::NotStarted(_) => Some(owned("spawn `aws rds describe-db-instances`")),
        Ran::Failed(e) => Some(cat2("aws rds describe-db-instances failed: ", trim(e.as_str()))),
        Ran::Done(_) => None,
    }
}

/// The instances in the order in which they are listed: by identifier, in lower
/// case.
pub open spec fn listed_instances(v: Seq<DbInstance>) -> Seq<DbInstance> {
    order::sorted(v, |a: DbInstance, b: DbInstance| order::lower_before(a.identifier@, b.identifier@))
}

/// Puts instances in the order of the list.
pub fn sort_instances(v: Vec<DbInstance>) -> (r: Vec<DbInstance>)
    ensures
        r@ == listed_instances(v@),
{
    let comes_before = |a: &DbInstance, b: &DbInstance| -> (o: bool)
        ensures
            o == order::lower_before(a.identifier@, b.identifier@),
    {
        name_before(a.identifier.as_str(), b.identifier.as_str())
    };
    sort_by(
        v,
        comes_before,
        Ghost(|a: DbInstance, b: DbInstance| order::lower_before(a.identifier@, b.identifier@)),
    )
}

/// The arguments of `aws` for a page of the list of clusters.
pub open spec fn clusters_command(region: Option<Seq<char>>, marker: Option<Seq<char>>) -> Seq<Seq<char>> {
    seq!["rds"@, "describe-db-clusters"@, "--output"@, "json"@] + command::region_option(region)
        + command::option_with("--starting-token"@, marker)
}

pub fn list_db_clusters_args(region: Option<&str>, marker: Option<&str>) -> (r: Vec<String>)
    ensures
        text::views(r@) == clusters_command(text::opt_str_view(region), text::opt_str_view(marker)),
{
    let head = list_of(vec!["rds", "describe-db-clusters", "--output", "json"]);
    assert(text::views(head@) =~= seq!["rds"@, "describe-db-clusters"@, "--output"@, "json"@]);
    with_option(with_region(head, region), "--starting-token", marker)
}

/// The error of a run that listed no clusters.
pub open spec fn clusters_error(ran: Ran) -> Option<Seq<char>> {
    match ran {
        Ran::NotStarted(_) => Some("spawn `aws rds describe-db-clusters`"@),
        Ran::Failed(e) => Some("aws rds describe-db-clusters failed: "@ + text::trimmed(e@)),
        Ran::Done(_) => None,
    }
}

pub fn list_db_clusters_error(ran: &Ran) -> (r: Option<String>)
    ensures
        text::opt_view(r) == clusters_error(*ran),
{
    match ran {
        Ran::NotStarted(_) => Some(owned("spawn `aws rds describe-db-clusters`")),
        Ran::Failed(e) => Some(cat2("aws rds describe-db-clusters failed: ", trim(e.as_str()))),
        Ran::Done(_) => None,
    }
}

/// The clusters in the order in which they are listed: by identifier, in lower
/// case.
pub open spec fn listed_clusters(v: Seq<DbCluster>) -> Seq<DbCluster> {
    order::sorted(v, |a: DbCluster, b: DbCluster| order::lower_before(a.identifier@, b.identifier@))
}

/// Puts clusters in the order of the list.
pub fn sort_clusters(v: Vec<DbCluster>) -> (r: Vec<DbCluster>)
    ensures
        r@ == listed_clusters(v@),
{
    let comes_before = |a: &DbCluster, b: &DbCluster| -> (o: bool)
        ensures
            o == order::lower_before(a.identifier@, b.identifier@),
    {
        name_before(a.identifier.as_str(), b.identifier.as_str())
    };
    sort_by(
        v,
        comes_before,
        Ghost(|a: DbCluster, b: DbCluster| order::lower_before(a.identifier@, b.identifier@)),
    )
}

/// `r` holds the instances `v`, each as an item.
pub open spec fn instance_items(v: Seq<DbInstance>) -> Seq<Item> {
    Seq::new(v.len(), |i: int| Item::Instance(v[i]))
}

/// Instances as items of a list.
pub fn items_of_instances(v: Vec<DbInstance>) -> (r: Vec<Item>)
    ensures
        r@ == instance_items(v@),
{
    let ghost all = v@;
    let mut rest = v;
    let mut out: Vec<Item> = Vec::new();
    assert(all.skip(0) =~= all);
    while rest.len() > 0
        invariant
            rest.len() <= all.len(),
            rest@ == all.skip(all.len() - rest.len()),
            out@ == instance_items(all.take(all.len() - rest.len())),
        decreases rest.len(),
    {
        let ghost n = all.len() - rest.len();
        let x = rest.remove(0);
        assert(rest@ =~= all.skip(n + 1));
        out.push(Item::Instance(x));
        assert(out@ =~= instance_items(all.take(n + 1)));
    }
    assert(all.take(all.len() as int) =~= all);
    out
}

/// `r` holds the clusters `v`, each as an item.
pub open spec fn cluster_items(v: Seq<DbCluster>) -> Seq<Item> {
    Seq::new(v.len(), |i: int| Item::Cluster(v[i]))
}

/// Clusters as items of a list.
pub fn items_of_clusters(v: Vec<DbCluster>) -> (r: Vec<Item>)
    ensures
        r@ == cluster_items(v@),
{
    let ghost all = v@;
    let mut rest = v;
    let mut out: Vec<Item> = Vec::new();
    assert(all.skip(0) =~= all);
    while rest.len() > 0
        invariant
            rest.len() <= all.len(),
            rest@ == all.skip(all.len() - rest.len()),
            out@ == cluster_items(all.take(all.len() - rest.len())),
        decreases rest.len(),
    {
        let ghost n = all.len() - rest.len();
        let x = rest.remove(0);
        assert(rest@ =~= all.skip(n + 1));
        out.push(Item::Cluster(x));
        assert(out@ =~= cluster_items(all.take(n + 1)));
    }
    assert(all.take(all.len() as int) =~= all);
    out
}

/// Instances are listed by identifier, whatever the case of its letters, and none
/// is lost or added.
pub proof fn law_instances_in_order(v: Seq<DbInstance>)
    ensures
        order::in_order(listed_instances(v), |a: DbInstance, b: DbInstance| order::lower_before(a.identifier@, b.identifier@)),
        listed_instances(v).to_multiset() == v.to_multiset(),
{
    let less = |a: DbInstance, b: DbInstance| order::lower_before(a.identifier@, b.identifier@);
    order::lemma_key_orders(less, |a: DbInstance| text::lowercased(a.identifier@));
    order::law_sorted(v, less);
}

/// Clusters are listed by identifier, whatever the case of its letters, and none
/// is lost or added.
pub proof fn law_clusters_in_order(v: Seq<DbCluster>)
    ensures
        order::in_order(listed_clusters(v), |a: DbCluster, b: DbCluster| order::lower_before(a.identifier@, b.identifier@)),
        listed_clusters(v).to_multiset() == v.to_multiset(),
{
    let less = |a: DbCluster, b: DbCluster| order::lower_before(a.identifier@, b.identifier@);
    order::lemma_key_orders(less, |a: DbCluster| text::lowercased(a.identifier@));
    order::law_sorted(v, less);
}

} // verus!
