//! The databases browser.

use mnml_aws::command::Ran;
use mnml_aws::json::{read_json, Json};
use mnml_aws::rds::app::{log_group_for, App, Fetch};
use mnml_aws::rds::config::{Config, Tab};
use mnml_aws::rds::keys::{handle, Action};
use mnml_aws::keys::{Common, Key};
use mnml_aws::rds::rds::{
    items_of_clusters, items_of_instances, list_db_instances_args, list_db_instances_error,
    sort_clusters, sort_instances, DbCluster, DbEndpoint, DbInstance, Item,
};
use mnml_aws::rds::ui::{draw_detail, draw_list, state_color_for};

fn instance(name: &str) -> DbInstance {
    DbInstance {
        identifier: name.into(),
        arn: format!("arn:aws:rds:us-east-1:1:db:{name}"),
        instance_class: None,
        engine: None,
        engine_version: None,
        status: None,
        endpoint: None,
        allocated_storage: None,
        storage_type: None,
        multi_az: None,
        az: None,
        publicly_accessible: None,
        cluster_identifier: None,
        create_time: None,
        master_username: None,
    }
}

fn cluster(name: &str) -> DbCluster {
    DbCluster {
        identifier: name.into(),
        arn: format!("arn:aws:rds:us-east-1:1:cluster:{name}"),
        engine: None,
        engine_version: None,
        engine_mode: None,
        status: None,
        endpoint: None,
        reader_endpoint: None,
        port: None,
        multi_az: None,
        master_username: None,
        allocated_storage: None,
        database_name: None,
        create_time: None,
    }
}

fn app(kind: &str) -> App {
    App::new(Config {
        region: None,
        refresh_interval_secs: 60,
        tabs: vec![Tab { name: "x".into(), kind: kind.into(), region: None }],
    })
    .ok()
    .unwrap()
}

#[test]
fn postgres_engine_maps_to_postgresql_stream() {
    assert_eq!(
        log_group_for("prod-db", Some("postgres")),
        "/aws/rds/instance/prod-db/postgresql"
    );
    assert_eq!(
        log_group_for("prod-db", Some("aurora-postgresql")),
        "/aws/rds/instance/prod-db/postgresql"
    );
}

#[test]
fn mysql_engine_maps_to_error_stream() {
    assert_eq!(log_group_for("prod-db", Some("mysql")), "/aws/rds/instance/prod-db/error");
    assert_eq!(log_group_for("prod-db", Some("aurora-mysql")), "/aws/rds/instance/prod-db/error");
    assert_eq!(log_group_for("prod-db", Some("mariadb")), "/aws/rds/instance/prod-db/error");
}

#[test]
fn oracle_maps_to_trace_stream() {
    assert_eq!(log_group_for("prod-db", Some("oracle-ee")), "/aws/rds/instance/prod-db/trace");
}

#[test]
fn unknown_engine_falls_back_to_error() {
    assert_eq!(log_group_for("prod-db", Some("custom-engine")), "/aws/rds/instance/prod-db/error");
    assert_eq!(log_group_for("prod-db", None), "/aws/rds/instance/prod-db/error");
}

#[test]
fn parses_describe_db_instances_response() {
    let json = r#"{
            "DBInstances": [
                {
                    "DBInstanceIdentifier": "prod-postgres",
                    "DBInstanceArn": "arn:aws:rds:us-east-1:1:db:prod-postgres",
                    "DBInstanceClass": "db.r6g.xlarge",
                    "Engine": "postgres",
                    "EngineVersion": "16.4",
                    "DBInstanceStatus": "available",
                    "Endpoint": {
                        "Address": "prod.cluster-xyz.us-east-1.rds.amazonaws.com",
                        "Port": 5432
                    },
                    "AllocatedStorage": 200,
                    "StorageType": "gp3",
                    "MultiAZ": true,
                    "MasterUsername": "admin"
                }
            ]
        }"#;
    let resp = read_json(json).ok().unwrap();
    let all = resp.array_at("DBInstances").unwrap();
    assert_eq!(all.len(), 1);
    let mut i = instance("prod-postgres");
    i.engine = all[0].text_at("Engine");
    i.multi_az = match all[0].get("MultiAZ") {
        Some(Json::Bool(b)) => Some(*b),
        _ => None,
    };
    i.endpoint = all[0].get("Endpoint").map(|e| DbEndpoint {
        address: e.text_at("Address"),
        port: e.count_at("Port").map(|n| n as u32),
    });
    assert_eq!(i.engine.as_deref(), Some("postgres"));
    assert_eq!(i.multi_az, Some(true));
    let item = Item::Instance(i);
    let endpoint = item.endpoint().expect("instance has endpoint");
    assert!(endpoint.contains("rds.amazonaws.com"));
    assert!(endpoint.ends_with(":5432"));
}

#[test]
fn parses_describe_db_clusters_response() {
    let json = r#"{
            "DBClusters": [
                {
                    "DBClusterIdentifier": "aurora-prod",
                    "DBClusterArn": "arn:aws:rds:us-east-1:1:cluster:aurora-prod",
                    "Engine": "aurora-postgresql",
                    "EngineVersion": "15.4",
                    "Status": "available",
                    "Endpoint": "aurora-prod.cluster-abc.us-east-1.rds.amazonaws.com",
                    "ReaderEndpoint": "aurora-prod.cluster-ro-abc.us-east-1.rds.amazonaws.com",
                    "Port": 5432
                }
            ]
        }"#;
    let resp = read_json(json).ok().unwrap();
    let all = resp.array_at("DBClusters").unwrap();
    assert_eq!(all.len(), 1);
    let mut c = cluster("aurora-prod");
    c.endpoint = all[0].text_at("Endpoint");
    c.port = all[0].count_at("Port").map(|n| n as u32);
    let item = Item::Cluster(c);
    let endpoint = item.endpoint().expect("cluster has endpoint");
    assert!(endpoint.ends_with(":5432"));
}

#[test]
fn secondary_label_combines_engine_and_status() {
    let mut i = instance("x");
    i.engine = Some("postgres".into());
    i.status = Some("available".into());
    let label = Item::Instance(i).secondary_label();
    assert!(label.contains("postgres"));
    assert!(label.contains("available"));
}

#[test]
fn endpoint_falls_back_to_address_when_no_port() {
    let mut i = instance("x");
    i.endpoint = Some(DbEndpoint { address: Some("host.x".into()), port: None });
    assert_eq!(Item::Instance(i).endpoint(), Some("host.x".into()));
}

#[test]
fn databases_are_listed() {
    assert!(matches!(app("instances").refresh_active(), Fetch::Instances { .. }));
    assert!(matches!(app("clusters").refresh_active(), Fetch::Clusters { .. }));
    let sorted = sort_instances(vec![instance("b"), instance("a")]);
    assert_eq!(sorted[0].identifier, "a");
    let items = items_of_instances(sorted);
    assert_eq!(items[1].primary_label(), "b");
    let clusters = items_of_clusters(sort_clusters(vec![cluster("d"), cluster("c")]));
    assert_eq!(clusters[0].primary_label(), "c");
}

#[test]
fn a_database_is_opened_copied_and_tailed() {
    let mut a = app("instances");
    assert!(a.yank_endpoint().is_none());
    assert_eq!(a.status, "no item under cursor");
    let mut i = instance("db");
    i.engine = Some("postgres".into());
    i.endpoint = Some(DbEndpoint { address: Some("h".into()), port: Some(5432) });
    a.refresh_done(Ok(vec![Item::Instance(i), Item::Instance(instance("bare"))]), 0);
    assert!(a.open_console().unwrap().contains("db"));
    assert_eq!(a.yank_endpoint().unwrap(), "h:5432");
    a.endpoint_copied("h:5432", &Ok(()));
    assert!(a.status.contains("copied"));
    assert_eq!(a.yank_arn().unwrap(), "arn:aws:rds:us-east-1:1:db:db");
    assert_eq!(a.tail_logs().unwrap().args[1], "/aws/rds/instance/db/postgresql");
    assert!(a.handoff_db().is_some());
    a.move_selection(1);
    assert!(a.yank_endpoint().is_none());
    assert!(draw_detail(a.focused_item()).len() > 1);
    assert_eq!(draw_list(a.active(), 10).lines.len(), 2);
    state_color_for(a.focused_item().unwrap());
}

#[test]
fn arguments_and_errors_of_aws_databases() {
    let args = list_db_instances_args(Some("eu-west-1"), Some("m"));
    let at = args.iter().position(|a| a == "--starting-token").unwrap();
    assert_eq!(args[at + 1], "m");
    assert!(list_db_instances_error(&Ran::Failed("denied".into())).unwrap().contains("denied"));
    assert!(list_db_instances_error(&Ran::Done("".into())).is_none());
}

#[test]
fn keys_of_the_databases() {
    let app = app("instances");
    assert_eq!(handle(Key::Char('y'), false, &app), Some(Action::YankArn));
    assert_eq!(handle(Key::Char('E'), false, &app), Some(Action::YankEndpoint));
    assert_eq!(handle(Key::Char('L'), false, &app), Some(Action::TailLogs));
    assert_eq!(handle(Key::Char('D'), false, &app), Some(Action::HandoffDb));
    assert_eq!(handle(Key::Char('x'), false, &app), None);
    assert_eq!(handle(Key::Char('j'), false, &app), Some(Action::Common(Common::Move(1))));
    assert_eq!(handle(Key::Char('c'), true, &app), Some(Action::Common(Common::Quit)));
}
