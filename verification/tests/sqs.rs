//! The queues browser.

use mnml_aws::command::Ran;
use mnml_aws::json::{read_json, Json};
use mnml_aws::sqs::app::{App, ItemsTab, TabSpec, TabState};
use mnml_aws::sqs::config::{Config, Tab};
use mnml_aws::sqs::keys::{handle, Action};
use mnml_aws::keys::{Common, Key};
use mnml_aws::sqs::sqs::{
    dlq_target_arn, fmt_duration_secs, fmt_epoch_secs, get_attributes_error, list_queues_args,
    list_queues_error, queue_name_from_url, sort_queues, DlqStats, Queue, QueueAttributes,
};
use mnml_aws::sqs::ui::{draw_detail, draw_list, draw_status, state_color_for};
use mnml_aws::table::table_of;

fn attributes(pairs: Vec<(&str, &str)>) -> QueueAttributes {
    QueueAttributes::from_map(table_of(
        pairs.into_iter().map(|(k, v)| (k.to_string(), v.to_string())).collect(),
    ))
}

fn url(name: &str) -> String {
    format!("https://sqs.us-east-1.amazonaws.com/1/{name}")
}

fn queue(name: &str, attributes: Option<QueueAttributes>) -> Queue {
    Queue { url: url(name), attributes, redrive_sources: vec![], dlq_stats: None }
}

fn all() -> Tab {
    Tab { name: "all".into(), kind: "all".into(), prefix: None, region: None }
}

fn config() -> Config {
    Config { region: Some("us-east-1".into()), refresh_interval_secs: 0, tabs: vec![all()] }
}

fn main_attributes() -> QueueAttributes {
    attributes(vec![
        ("QueueArn", "arn:aws:sqs:us-east-1:1:main"),
        ("ApproximateNumberOfMessages", "5432"),
        (
            "RedrivePolicy",
            r#"{"deadLetterTargetArn":"arn:aws:sqs:us-east-1:1:dlq","maxReceiveCount":3}"#,
        ),
    ])
}

fn dlq_attributes() -> QueueAttributes {
    attributes(vec![
        ("QueueArn", "arn:aws:sqs:us-east-1:1:dlq"),
        ("ApproximateNumberOfMessages", "12"),
        ("ApproximateNumberOfMessagesNotVisible", "2"),
    ])
}

#[test]
fn tab_spec_rejects_prefix_without_value() {
    let t = Tab {
        name: "bad".into(),
        kind: "prefix".into(),
        prefix: None,
        region: None,
    };
    assert!(TabSpec::resolve(&t, None).is_err());
}

#[test]
fn recompute_populates_dlq_stats_across_queues() {
    let mut app = App {
        cfg: config(),
        tabs: vec![TabState {
            name: "all".into(),
            spec: TabSpec::resolve(&all(), Some("us-east-1")).ok().unwrap(),
            data: ItemsTab::empty(),
        }],
        active_tab: 0,
        status: String::new(),
    };
    // main queue → DLQ arn:dlq. Loaded main has 5432 visible; the dlq queue
    // has 12 visible + 2 in-flight.
    app.tabs[0].data.items =
        vec![queue("main", Some(main_attributes())), queue("dlq", Some(dlq_attributes()))];
    app.recompute_redrive_sources();
    // main → learned dlq_stats.
    assert_eq!(app.tabs[0].data.items[0].dlq_stats, Some(DlqStats { visible: 12, in_flight: 2 }));
    // dlq → learned it's a source for `main`.
    assert_eq!(app.tabs[0].data.items[1].redrive_sources, vec!["main".to_string()]);
    // dlq itself doesn't have a DLQ, so no dlq_stats on it.
    assert!(app.tabs[0].data.items[1].dlq_stats.is_none());
    // Once more changes nothing.
    app.recompute_redrive_sources();
    assert_eq!(app.tabs[0].data.items[0].dlq_stats, Some(DlqStats { visible: 12, in_flight: 2 }));
    assert_eq!(app.tabs[0].data.items[1].redrive_sources, vec!["main".to_string()]);
}

#[test]
fn queue_name_extracted_from_url() {
    assert_eq!(
        queue_name_from_url("https://sqs.us-east-1.amazonaws.com/123456789012/my-queue"),
        "my-queue"
    );
    assert_eq!(
        queue_name_from_url("https://sqs.us-east-1.amazonaws.com/123456789012/my-queue.fifo"),
        "my-queue.fifo"
    );
}

#[test]
fn parses_get_queue_attributes_response() {
    let json = r#"{
            "Attributes": {
                "ApproximateNumberOfMessages": "42",
                "ApproximateNumberOfMessagesNotVisible": "3",
                "VisibilityTimeout": "30",
                "MessageRetentionPeriod": "1209600",
                "QueueArn": "arn:aws:sqs:us-east-1:1:my-queue",
                "RedrivePolicy": "{\"deadLetterTargetArn\":\"arn:…\",\"maxReceiveCount\":3}"
            }
        }"#;
    let resp = read_json(json).ok().unwrap();
    let pairs = match resp.get("Attributes") {
        Some(Json::Object(m)) => {
            m.iter().map(|(k, x)| (k.clone(), x.as_text().unwrap().to_string())).collect()
        },
        _ => vec![],
    };
    let attrs = QueueAttributes::from_map(table_of(pairs));
    assert_eq!(attrs.approximate_messages(), Some(42));
    assert_eq!(attrs.approximate_messages_not_visible(), Some(3));
    assert_eq!(attrs.visibility_timeout(), Some(30));
    assert!(attrs.has_dlq());
    assert_eq!(attrs.message_retention_period(), Some(1_209_600));
    assert!(attrs.delay_seconds().is_none());
}

#[test]
fn fifo_detected_from_url_suffix() {
    let q = queue("x.fifo", None);
    assert!(q.is_fifo());
    let non = queue("x", None);
    assert!(!non.is_fifo());
}

#[test]
fn dlq_target_arn_extracted_from_redrive_policy() {
    let policy = r#"{"deadLetterTargetArn":"arn:aws:sqs:us-east-1:1:dlq","maxReceiveCount":3}"#;
    assert_eq!(dlq_target_arn(policy), Some("arn:aws:sqs:us-east-1:1:dlq".to_string()));
    assert!(dlq_target_arn("not json").is_none());
    assert!(dlq_target_arn(r#"{"maxReceiveCount":3}"#).is_none());
}

#[test]
fn redrive_sources_chip_singular_vs_plural() {
    let mut q = queue("dlq", Some(attributes(vec![("ApproximateNumberOfMessages", "0")])));
    q.redrive_sources = vec!["source-a".to_string()];
    assert!(q.secondary_label().contains("↑ DLQ"));
    assert!(!q.secondary_label().contains("x"));
    q.redrive_sources = vec!["a".to_string(), "b".to_string(), "c".to_string()];
    assert!(q.secondary_label().contains("↑ DLQ x3"));
}

#[test]
fn fmt_duration_secs_humanizes() {
    assert_eq!(fmt_duration_secs(30), "30s");
    assert_eq!(fmt_duration_secs(60), "1m");
    assert_eq!(fmt_duration_secs(90), "1m 30s");
    assert_eq!(fmt_duration_secs(3600), "1h");
    assert_eq!(fmt_duration_secs(3660), "1h 1m");
    assert_eq!(fmt_duration_secs(86400), "1d");
    assert_eq!(fmt_duration_secs(345600), "4d");
    assert_eq!(fmt_duration_secs(1209600), "14d");
}

#[test]
fn secondary_label_no_attrs_says_so() {
    let q = queue("x", None);
    assert!(q.secondary_label().contains("attrs not loaded"));
}

#[test]
fn fmt_epoch_secs_formats_known_value() {
    let out = fmt_epoch_secs("1704067200").unwrap(); // 2024-01-01
    assert!(out.starts_with("2024-01-01"));
    assert!(fmt_epoch_secs("soon").is_none());
}

#[test]
fn queues_are_loaded_with_their_attributes() {
    let mut a = App::new(config()).ok().unwrap();
    let f = a.refresh_active();
    assert!(f.prefix.is_none());
    assert_eq!(f.region.as_deref(), Some("us-east-1"));
    a.refresh_done(Ok(vec![url("main"), url("dlq")]), 0);
    let w = a.ensure_focused_loaded().unwrap();
    assert_eq!((w.index, w.url), (0, url("main")));
    a.attributes_done(0, Ok(main_attributes()));
    assert!(a.ensure_focused_loaded().is_none());
    assert_eq!(a.move_selection(1).unwrap().index, 1);
    assert!(a.move_selection(-1).is_none());
    let rest = a.load_all_attributes();
    assert_eq!(rest.len(), 1);
    assert_eq!(rest[0].index, 1);
    a.all_attributes_done(vec![(1, Ok(dlq_attributes()))]);
    assert_eq!(a.active().data.items[0].dlq_stats, Some(DlqStats { visible: 12, in_flight: 2 }));
    a.jump_to_dlq();
    assert_eq!(a.active().data.selected, 1);
    assert_eq!(a.status, "jumped to DLQ: dlq");
    a.jump_to_dlq();
    assert_eq!(a.active().data.selected, 0);
}

#[test]
fn attributes_that_cannot_be_read() {
    let mut a = App::new(config()).ok().unwrap();
    a.refresh_done(Ok(vec![url("main")]), 0);
    a.attributes_done(0, Err("denied".into()));
    assert!(a.status.contains("denied"));
    assert!(a.focused_queue().unwrap().attributes.is_none());
}

#[test]
fn a_queue_is_opened_and_copied() {
    let mut a = App::new(config()).ok().unwrap();
    assert!(a.yank_url().is_none());
    a.refresh_done(Ok(vec![url("main")]), 0);
    assert!(a.open_console().unwrap().contains("us-east-1"));
    assert_eq!(a.yank_url().unwrap(), url("main"));
    assert!(a.yank_arn().is_none());
    a.attributes_done(0, Ok(main_attributes()));
    let arn = a.yank_arn().unwrap();
    assert_eq!(arn, "arn:aws:sqs:us-east-1:1:main");
    a.arn_copied(&arn, &Ok(()));
    assert!(a.status.contains("copied"));
    assert!(draw_detail(a.focused_queue()).len() > 3);
    assert_eq!(draw_list(a.active(), 10).lines.len(), 1);
    state_color_for(a.focused_queue().unwrap());
    assert_eq!(draw_status(&a).spans.len(), 2);
}

#[test]
fn arguments_and_errors_of_aws_queues() {
    let args = list_queues_args(Some("web"), Some("eu-west-1"), Some("t"));
    let at = args.iter().position(|a| a == "--queue-name-prefix").unwrap();
    assert_eq!(args[at + 1], "web");
    assert_eq!(sort_queues(vec![url("b"), url("a")]), vec![url("a"), url("b")]);
    assert!(list_queues_error(&Ran::Failed("denied".into())).unwrap().contains("denied"));
    assert!(list_queues_error(&Ran::Done("".into())).is_none());
    assert!(get_attributes_error(&url("a"), &Ran::NotStarted("x".into())).is_some());
}

#[test]
fn keys_of_the_queues() {
    let app = App::new(config()).ok().unwrap();
    assert_eq!(handle(Key::Char('y'), false, &app), Some(Action::YankUrl));
    assert_eq!(handle(Key::Char('Y'), false, &app), Some(Action::YankArn));
    assert_eq!(handle(Key::Char('A'), false, &app), Some(Action::LoadAll));
    assert_eq!(handle(Key::Char('L'), false, &app), Some(Action::JumpToDlq));
    assert_eq!(handle(Key::Char('x'), false, &app), None);
    assert_eq!(handle(Key::Char('j'), false, &app), Some(Action::Common(Common::Move(1))));
    assert_eq!(handle(Key::Char('c'), true, &app), Some(Action::Common(Common::Quit)));
}
