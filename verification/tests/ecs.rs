//! The services browser.

use mnml_aws::command::Ran;
use mnml_aws::ecs::app::{App, Fetch, TabSpec};
use mnml_aws::ecs::config::{Config, Tab};
use mnml_aws::ecs::keys::{handle, Action};
use mnml_aws::keys::{Common, Key};
use mnml_aws::ecs::ecs::{
    awslogs_group_for_task_def, describe_services_args, describe_task_definition_args, ecs_error,
    image_for_task_def, list_clusters_args, repository_label_of, task_definition_short, Cluster,
    ContainerDefinition, Deployment, Item, LogConfiguration, Service, ServiceEvent, TaskDefinition,
};
use mnml_aws::ecs::ui::{draw_detail, draw_list, draw_status, short_timestamp, state_color_for};
use mnml_aws::screen::Color;
use mnml_aws::table::table_of;

fn tab(kind: &str, cluster: Option<&str>) -> Tab {
    Tab {
        name: "x".into(),
        kind: kind.into(),
        cluster: cluster.map(|s| s.to_string()),
        region: None,
    }
}

fn app(tabs: Vec<Tab>) -> App {
    App::new(Config { region: Some("eu-west-1".into()), refresh_interval_secs: 60, tabs })
        .ok()
        .unwrap()
}

fn service(name: &str) -> Service {
    Service {
        name: name.into(),
        arn: format!("arn:aws:ecs:eu-west-1:1:service/prod/{name}"),
        cluster_arn: "arn:aws:ecs:eu-west-1:1:cluster/prod".into(),
        status: Some("ACTIVE".into()),
        desired_count: Some(2),
        running_count: Some(1),
        pending_count: Some(1),
        task_definition: Some("arn:aws:ecs:eu-west-1:1:task-definition/api:7".into()),
        launch_type: None,
        platform_version: None,
        created_at: None,
        deployments: vec![],
        events: vec![],
    }
}

fn container(image: Option<&str>, driver: &str, group: Option<&str>) -> ContainerDefinition {
    let options = match group {
        Some(g) => table_of(vec![("awslogs-group".to_string(), g.to_string())]),
        None => table_of(vec![]),
    };
    ContainerDefinition {
        image: image.map(|s| s.to_string()),
        log_configuration: Some(LogConfiguration { log_driver: Some(driver.into()), options }),
    }
}

fn plain(lines: &Vec<mnml_aws::screen::Line>) -> Vec<String> {
    lines.iter().map(|l| l.spans.iter().map(|s| s.text.as_str()).collect::<String>()).collect()
}

#[test]
fn tab_spec_rejects_services_without_cluster() {
    let t = Tab {
        name: "bad".into(),
        kind: "services".into(),
        cluster: None,
        region: None,
    };
    assert!(TabSpec::resolve(&t, None).is_err());
}

#[test]
fn tab_spec_rejects_services_with_blank_cluster() {
    assert_eq!(
        TabSpec::resolve(&tab("services", Some("  ")), None).err().unwrap(),
        "tab `x`: kind=\"services\" requires `cluster`"
    );
    let spec = TabSpec::resolve(&tab("services", Some(" a ")), None).ok().unwrap();
    assert_eq!(spec.cluster.as_deref(), Some(" a "));
    assert!(spec.region.is_none());
}

#[test]
fn short_timestamp_trims_iso8601() {
    assert_eq!(short_timestamp("2026-06-06T18:30:00.123Z"), "2026-06-06 18:30:00");
    assert_eq!(short_timestamp("nope"), "nope");
}

#[test]
fn short_timestamp_never_cuts_a_character() {
    assert_eq!(short_timestamp("2026-06-06T18:30:0ä more"), "2026-06-06T18:30:0ä more");
}

#[test]
fn a_new_browser_loads_its_first_tab() {
    let mut a = app(vec![tab("clusters", None), tab("services", Some("prod"))]);
    assert!(matches!(a.refresh_active(), Fetch::Clusters { region } if region.as_deref() == Some("eu-west-1")));
    assert_eq!(a.status, "loading x…");
    assert!(a.active().data.loading);
    a.refresh_done(Ok(vec![]), 10);
    assert_eq!(a.status, "x: 0 clusters");
    match a.switch_tab(1) {
        Some(Fetch::Services { cluster, region }) => {
            assert_eq!(cluster, "prod");
            assert_eq!(region.as_deref(), Some("eu-west-1"));
        },
        _ => panic!("services are wanted"),
    }
    assert!(a.switch_tab(2).is_none());
    assert_eq!(a.active_tab, 1);
}

#[test]
fn a_failed_load_keeps_what_was_there() {
    let mut a = app(vec![tab("services", Some("prod"))]);
    a.refresh_done(Ok(vec![Item::Service(service("a")), Item::Service(service("b"))]), 0);
    assert_eq!(a.status, "x: 2 services");
    a.move_selection(9);
    a.refresh_active();
    a.refresh_done(Err("no".into()), 1);
    assert_eq!(a.status, "error: no");
    assert_eq!(a.active().data.items.len(), 2);
    assert_eq!(a.active().data.selected, 1);
    assert_eq!(plain(&draw_list(a.active(), 10).lines), vec!["error: no"]);
}

#[test]
fn a_tab_is_loaded_again_when_it_is_stale() {
    let mut a = app(vec![tab("clusters", None)]);
    a.refresh_done(Ok(vec![]), 100_000);
    assert!(a.tick(159_999).is_none());
    assert!(a.tick(160_000).is_some());
    assert!(a.tick(160_001).is_none());
    assert!(!a.drain());
}

#[test]
fn console_pages_of_clusters_and_services() {
    let mut a = app(vec![tab("services", Some("prod"))]);
    assert!(a.open_console().is_none());
    assert_eq!(a.status, "no item under cursor");
    let mut s = service("api");
    a.refresh_done(
        Ok(vec![
            Item::Service(service("api")),
            Item::Cluster(Cluster {
                name: "prod".into(),
                arn: "arn".into(),
                status: None,
                active_services: None,
                running_tasks: None,
                pending_tasks: None,
                container_instances: None,
                capacity_providers: vec![],
            }),
        ]),
        0,
    );
    assert_eq!(
        a.open_console().unwrap(),
        "https://eu-west-1.console.aws.amazon.com/ecs/v2/clusters/prod/services/api?region=eu-west-1"
    );
    a.move_selection(1);
    assert_eq!(
        a.open_console().unwrap(),
        "https://eu-west-1.console.aws.amazon.com/ecs/v2/clusters/prod/services?region=eu-west-1"
    );
    s.cluster_arn = "arn/".into();
    a.refresh_done(Ok(vec![Item::Service(s)]), 0);
    assert!(a.open_console().unwrap().contains("/clusters/default/services/api?"));
    a.opened("u", &Ok(()));
    assert_eq!(a.status, "opened u");
    a.opened("u", &Err("e".into()));
    assert_eq!(a.status, "open failed: e");
}

#[test]
fn the_arn_is_copied() {
    let mut a = app(vec![tab("services", Some("prod"))]);
    a.refresh_done(Ok(vec![Item::Service(service("ä"))]), 0);
    let arn = a.yank_arn().unwrap();
    assert_eq!(arn, "arn:aws:ecs:eu-west-1:1:service/prod/ä");
    a.arn_copied(&arn, &Ok(()));
    assert_eq!(a.status, "copied ARN (39 chars)");
    a.arn_copied(&arn, &Err("e".into()));
    assert_eq!(a.status, "copy failed: e");
}

#[test]
fn logs_of_a_service() {
    let mut a = app(vec![tab("services", Some("prod"))]);
    assert!(a.tail_logs().is_none());
    assert_eq!(a.status, "no item under cursor");
    a.refresh_done(Ok(vec![Item::Service(service("api"))]), 0);
    let d = a.tail_logs().unwrap();
    assert_eq!(d.task_definition, "arn:aws:ecs:eu-west-1:1:task-definition/api:7");
    assert!(a.logs_described(&d, Err("denied".into())).is_none());
    assert_eq!(a.status, "describe-task-definition: denied");
    let td = TaskDefinition { container_definitions: vec![container(None, "splunk", Some("/x"))] };
    assert!(a.logs_described(&d, Ok(td)).is_none());
    assert_eq!(
        a.status,
        "no awslogs container in task definition — uses a non-CloudWatch driver"
    );
    let td = TaskDefinition {
        container_definitions: vec![
            container(None, "awslogs", None),
            container(None, "awslogs", Some("/ecs/api")),
            container(None, "awslogs", Some("/ecs/other")),
        ],
    };
    let l = a.logs_described(&d, Ok(td)).unwrap();
    assert_eq!(l.program, "mnml-aws-cloudwatch-logs");
    assert_eq!(
        l.args,
        vec!["--log-group", "/ecs/api", "--log-group-name", "api", "--region", "eu-west-1"]
    );
    a.launched(&l, &Ok(()));
    assert_eq!(a.status, "tailing /ecs/api");
    a.launched(&l, &Err("gone".into()));
    assert_eq!(a.status, "spawn failed (install mnml-aws-cloudwatch-logs ≥ v0.2.0): gone");
}

#[test]
fn registry_of_a_service() {
    let mut a = app(vec![tab("services", Some("prod"))]);
    let mut bare = service("bare");
    bare.task_definition = None;
    a.refresh_done(Ok(vec![Item::Service(service("api")), Item::Service(bare)]), 0);
    let d = a.handoff_ecr().unwrap();
    let none = TaskDefinition { container_definitions: vec![container(None, "awslogs", None)] };
    assert!(a.ecr_described(&d, Ok(none)).is_none());
    assert_eq!(a.status, "no container image in task definition");
    let td = TaskDefinition {
        container_definitions: vec![
            container(None, "awslogs", None),
            container(Some("1.dkr.ecr.eu-west-1.amazonaws.com/team/api:v2"), "awslogs", None),
        ],
    };
    let l = a.ecr_described(&d, Ok(td)).unwrap();
    assert_eq!(l.program, "mnml-aws-ecr");
    assert_eq!(l.args, vec!["--region", "eu-west-1"]);
    a.launched(&l, &Ok(()));
    assert_eq!(
        a.status,
        "launched mnml-aws-ecr — navigate to team/api:v2 (service api, auto-scope is v0.x)"
    );
    a.launched(&l, &Err("gone".into()));
    assert_eq!(a.status, "spawn mnml-aws-ecr failed (install it?): gone");
    a.move_selection(1);
    assert!(a.handoff_ecr().is_none());
    assert_eq!(a.status, "service has no task definition reference");
}

#[test]
fn clusters_have_no_logs_and_no_registry() {
    let mut a = app(vec![tab("clusters", None)]);
    a.refresh_done(
        Ok(vec![Item::Cluster(Cluster {
            name: "prod".into(),
            arn: "arn".into(),
            status: Some("ACTIVE".into()),
            active_services: Some(3),
            running_tasks: Some(9),
            pending_tasks: Some(0),
            container_instances: Some(1),
            capacity_providers: vec!["FARGATE".into(), "FARGATE_SPOT".into()],
        })]),
        0,
    );
    assert!(a.tail_logs().is_none());
    assert_eq!(a.status, "tail logs is only available on services");
    assert!(a.handoff_ecr().is_none());
    assert_eq!(a.status, "R registry-jump is only available on services");
    assert_eq!(
        plain(&draw_detail(a.focused_item())),
        vec![
            " Name          prod",
            " Status        ACTIVE",
            " Services      3",
            " Running tasks 9",
            " EC2 instances 1",
            " Providers     FARGATE, FARGATE_SPOT",
            "",
            " ARN ",
            " arn",
        ]
    );
    let pane = draw_list(a.active(), 10);
    assert_eq!(pane.title, " clusters (1) ");
    assert_eq!(plain(&pane.lines), vec!["▸ prod                          ACTIVE · 3 svc · 9 tasks"]);
}

#[test]
fn details_of_a_service() {
    let mut s = service("api");
    let d = |status: &str, rollout: &str| Deployment {
        status: Some(status.into()),
        rollout_state: Some(rollout.into()),
        task_definition: Some("arn/api:7".into()),
        running_count: Some(1),
        desired_count: Some(2),
    };
    s.deployments =
        vec![d("PRIMARY", "FAILED"), d("ACTIVE", "COMPLETED"), d("ACTIVE", ""), d("ACTIVE", "X")];
    s.events = (0..6)
        .map(|_| ServiceEvent {
            created_at: Some("2026-06-06T18:30:00.123Z".into()),
            message: Some("steady".into()),
        })
        .collect();
    let item = Item::Service(s);
    assert_eq!(state_color_for(&item).fg, Color::Red);
    let lines = plain(&draw_detail(Some(&item)));
    assert_eq!(lines[2], " Tasks         1/2 (pending 1)");
    assert_eq!(lines[3], " Task def      api:7");
    assert_eq!(lines[5], " Deployments (4) ");
    assert_eq!(lines[6], " PRIMARY    api:7                    1/2");
    assert_eq!(lines[7], "     rollout: FAILED");
    assert_eq!(lines[8], " ACTIVE     api:7                    1/2");
    assert_eq!(lines[9], " ACTIVE     api:7                    1/2");
    assert_eq!(lines[11], " Recent events ");
    assert_eq!(lines[12], " 2026-06-06 18:30:00 steady");
    assert_eq!(lines.len(), 20);
    assert_eq!(plain(&draw_detail(None)), vec!["(no item selected)"]);
}

#[test]
fn status_line_shows_the_status_and_the_keys() {
    let mut a = app(vec![tab("clusters", None)]);
    a.status = "hi".into();
    let l = draw_status(&a);
    assert_eq!(l.spans[0].text, " hi ");
    assert!(l.spans[1].text.contains("L logs · R ECR"));
}

#[test]
fn task_definitions_and_images() {
    assert_eq!(task_definition_short("arn:aws:ecs:eu:1:task-definition/api:7"), "api:7");
    assert_eq!(task_definition_short("api:7"), "api:7");
    assert_eq!(repository_label_of("host/a/b:1"), "a/b:1");
    assert_eq!(repository_label_of("nginx"), "nginx");
    let td = TaskDefinition {
        container_definitions: vec![ContainerDefinition {
            image: Some("nginx".into()),
            log_configuration: None,
        }],
    };
    assert!(awslogs_group_for_task_def(&td).is_none());
    assert_eq!(image_for_task_def(&td).as_deref(), Some("nginx"));
}

#[test]
fn arguments_and_errors_of_aws() {
    assert_eq!(
        describe_task_definition_args("api:7", Some("eu-west-1")),
        vec![
            "ecs",
            "describe-task-definition",
            "--task-definition",
            "api:7",
            "--output",
            "json",
            "--region",
            "eu-west-1",
        ]
    );
    assert_eq!(
        list_clusters_args(None, Some("t")),
        vec!["ecs", "list-clusters", "--output", "json", "--next-token", "t"]
    );
    assert_eq!(
        describe_services_args("prod", &vec!["a".to_string(), "b".to_string()], None),
        vec![
            "ecs",
            "describe-services",
            "--cluster",
            "prod",
            "--output",
            "json",
            "--services",
            "a",
            "b",
        ]
    );
    assert_eq!(
        ecs_error("list-clusters", &Ran::Failed(" denied \n".into())).as_deref(),
        Some("aws ecs list-clusters failed: denied")
    );
    assert_eq!(
        ecs_error("list-clusters", &Ran::NotStarted("x".into())).as_deref(),
        Some("spawn `aws ecs list-clusters`")
    );
    assert!(ecs_error("list-clusters", &Ran::Done("{}".into())).is_none());
}

#[test]
fn keys_of_the_services() {
    let app = app(vec![tab("clusters", None)]);
    assert_eq!(handle(Key::Char('y'), false, &app), Some(Action::YankArn));
    assert_eq!(handle(Key::Char('L'), false, &app), Some(Action::TailLogs));
    assert_eq!(handle(Key::Char('R'), false, &app), Some(Action::HandoffEcr));
    assert_eq!(handle(Key::Char('x'), false, &app), None);
    assert_eq!(handle(Key::Char('j'), false, &app), Some(Action::Common(Common::Move(1))));
    assert_eq!(handle(Key::Char('c'), true, &app), Some(Action::Common(Common::Quit)));
}
