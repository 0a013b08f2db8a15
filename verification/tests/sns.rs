//! The topics browser.

use mnml_aws::command::Ran;
use mnml_aws::json::{read_json, Json};
use mnml_aws::keys::Key;
use mnml_aws::screen::Color;
use mnml_aws::sns::app::{
    items_of_subscriptions, items_of_topics, published_status, App, Fetch, Item, TabSpec,
};
use mnml_aws::sns::config::{Config, Tab};
use mnml_aws::sns::keys::{apply, handle, Action, Effect};
use mnml_aws::sns::sns::{
    arrange_topics, get_topic_attributes_error, list_subscriptions_args, list_topics_args,
    list_topics_error, sort_subscriptions, topic_name_from_arn, Subscription, Topic, TopicAttributes,
};
use mnml_aws::sns::ui::{draw_detail, draw_list, draw_publish_bar, draw_status, state_color_for};
use mnml_aws::table::table_of;

const ARN: &str = "arn:aws:sns:us-east-1:1:orders";

fn tab(kind: &str, topic: Option<&str>) -> Tab {
    Tab {
        name: "x".into(),
        kind: kind.into(),
        topic_arn: topic.map(|s| s.to_string()),
        prefix: None,
        region: None,
    }
}

fn app(tabs: Vec<Tab>) -> App {
    App::new(Config { region: None, refresh_interval_secs: 60, tabs }).ok().unwrap()
}

fn subscription(arn: &str, protocol: &str, endpoint: &str) -> Subscription {
    Subscription {
        arn: arn.into(),
        owner: None,
        protocol: Some(protocol.into()),
        endpoint: Some(endpoint.into()),
        topic_arn: Some(ARN.into()),
    }
}

fn attributes(v: &Json) -> TopicAttributes {
    let pairs = match v.get("Attributes") {
        Some(Json::Object(m)) => {
            m.iter().map(|(k, x)| (k.clone(), x.as_text().unwrap().to_string())).collect()
        },
        _ => vec![],
    };
    TopicAttributes::from_map(table_of(pairs))
}

fn topics() -> App {
    let mut a = app(vec![tab("topics", None), tab("subscriptions", Some(ARN))]);
    a.refresh_done(Ok(items_of_topics(vec![ARN.into(), "arn:aws:sns:us-east-1:1:other".into()])), 0);
    a
}

#[test]
fn tab_spec_rejects_subscriptions_without_topic_arn() {
    let t = Tab {
        name: "bad".into(),
        kind: "subscriptions".into(),
        topic_arn: None,
        prefix: None,
        region: None,
    };
    assert!(TabSpec::resolve(&t, None).is_err());
}

#[test]
fn item_subscription_secondary_label_flags_pending() {
    let s = Subscription {
        arn: "PendingConfirmation".into(),
        owner: None,
        protocol: Some("email".into()),
        endpoint: Some("ops@example.com".into()),
        topic_arn: None,
    };
    let label = Item::Subscription(s).secondary_label();
    assert!(label.contains("pending confirmation"));
}

#[test]
fn rejects_subscriptions_without_topic_arn() {
    let cfg = Config {
        region: None,
        refresh_interval_secs: 60,
        tabs: vec![Tab {
            name: "x".into(),
            kind: "subscriptions".into(),
            topic_arn: None,
            prefix: None,
            region: None,
        }],
    };
    assert!(cfg.validate().is_err());
}

#[test]
fn topic_name_extracted_from_arn() {
    assert_eq!(topic_name_from_arn("arn:aws:sns:us-east-1:111111111111:my-topic"), "my-topic");
    assert_eq!(topic_name_from_arn("arn:aws:sns:us-east-1:111111111111:orders.fifo"), "orders.fifo");
}

#[test]
fn parses_get_topic_attributes_response() {
    let json = r#"{
            "Attributes": {
                "DisplayName": "Orders",
                "Owner": "111111111111",
                "SubscriptionsConfirmed": "3",
                "SubscriptionsPending": "1",
                "SubscriptionsDeleted": "0",
                "FifoTopic": "false",
                "SignatureVersion": "1"
            }
        }"#;
    let attrs = attributes(&read_json(json).ok().unwrap());
    assert_eq!(attrs.display_name(), Some("Orders"));
    assert_eq!(attrs.subscriptions_confirmed(), Some(3));
    assert_eq!(attrs.subscriptions_pending(), Some(1));
    assert!(!attrs.fifo_topic());
    assert_eq!(attrs.subscriptions_deleted(), Some(0));
    assert_eq!(attrs.owner(), Some("111111111111"));
    assert_eq!(attrs.signature_version(), Some("1"));
    assert!(attrs.kms_master_key_id().is_none());
}

#[test]
fn parses_list_subscriptions_response() {
    let json = r#"{
            "Subscriptions": [
                {
                    "SubscriptionArn": "arn:aws:sns:us-east-1:1:topic:subid-1",
                    "Owner": "111111111111",
                    "Protocol": "sqs",
                    "Endpoint": "arn:aws:sqs:us-east-1:1:my-queue",
                    "TopicArn": "arn:aws:sns:us-east-1:1:topic"
                },
                {
                    "SubscriptionArn": "PendingConfirmation",
                    "Owner": "111111111111",
                    "Protocol": "email",
                    "Endpoint": "ops@example.com",
                    "TopicArn": "arn:aws:sns:us-east-1:1:topic"
                }
            ]
        }"#;
    let resp = read_json(json).ok().unwrap();
    let subscriptions = resp
        .array_at("Subscriptions")
        .unwrap()
        .iter()
        .map(|v| Subscription {
            arn: v.text_at("SubscriptionArn").unwrap(),
            owner: v.text_at("Owner"),
            protocol: v.text_at("Protocol"),
            endpoint: v.text_at("Endpoint"),
            topic_arn: v.text_at("TopicArn"),
        })
        .collect::<Vec<_>>();
    assert_eq!(subscriptions.len(), 2);
    assert!(!subscriptions[0].is_pending_confirmation());
    assert!(subscriptions[1].is_pending_confirmation());
}

#[test]
fn subscription_endpoint_short_trims_arn_to_tail() {
    let s = Subscription {
        arn: "arn:aws:sns:us-east-1:1:topic:subid".into(),
        owner: None,
        protocol: Some("sqs".into()),
        endpoint: Some("arn:aws:sqs:us-east-1:1:my-queue".into()),
        topic_arn: None,
    };
    assert_eq!(s.endpoint_short(), "my-queue");
}

#[test]
fn fifo_detected_from_arn_suffix() {
    let t = Topic { arn: "arn:aws:sns:us-east-1:1:orders.fifo".into(), attributes: None };
    assert!(t.is_fifo());
    let non = Topic { arn: "arn:aws:sns:us-east-1:1:orders".into(), attributes: None };
    assert!(!non.is_fifo());
}

#[test]
fn secondary_label_loading_state() {
    let t = Topic { arn: "arn:aws:sns:us-east-1:1:x".into(), attributes: None };
    assert!(t.secondary_label().contains("attrs not loaded"));
}

#[test]
fn topics_begin_with_the_prefix_and_are_sorted() {
    let arns = vec!["a:1:web-b".to_string(), "a:1:api".to_string(), "a:1:web-a".to_string()];
    assert_eq!(arrange_topics(arns, Some("web")), vec!["a:1:web-a", "a:1:web-b"]);
    assert_eq!(arrange_topics(vec!["b".into(), "a".into()], None), vec!["a", "b"]);
}

#[test]
fn subscriptions_are_sorted() {
    let s = sort_subscriptions(vec![
        subscription("1", "sqs", "b"),
        subscription("2", "email", "z"),
        subscription("3", "sqs", "a"),
    ]);
    assert_eq!(s.len(), 3);
    assert_eq!(s[0].protocol.as_deref(), Some("email"));
}

#[test]
fn attributes_are_loaded_for_the_focused_topic() {
    let mut a = topics();
    let w = a.ensure_focused_loaded().unwrap();
    assert_eq!(w.index, 0);
    assert_eq!(w.arn, ARN);
    let attrs = attributes(&read_json(r#"{"Attributes":{"SubscriptionsConfirmed":"3"}}"#).ok().unwrap());
    a.attributes_done(0, Ok(attrs));
    assert!(a.ensure_focused_loaded().is_none());
    assert!(a.focused_item().unwrap().secondary_label().contains('3'));
    assert_eq!(a.move_selection(1).unwrap().index, 1);
    a.attributes_done(1, Err("denied".into()));
    assert!(a.status.contains("denied"));
}

#[test]
fn a_test_message_is_published() {
    let mut a = topics();
    assert!(draw_publish_bar(&a).is_none());
    a.enter_publish_mode();
    for c in "hi!".chars() {
        a.publish_input_char(c);
    }
    a.publish_input_backspace();
    assert_eq!(a.publish_editing.as_deref(), Some("hi"));
    assert!(draw_publish_bar(&a).is_some());
    assert!(!matches!(handle(Key::Char('q'), false, &a), Some(Action::Quit)));
    let p = a.publish_commit().unwrap();
    assert_eq!(p.topic_name, "orders");
    assert!(p.args.iter().any(|x| x == "hi") && p.args.iter().any(|x| x == ARN));
    a.publish_done(&p.topic_name, &Ran::Done(r#"{"MessageId":"m-1"}"#.into()));
    assert_eq!(a.status, published_status("orders", Some("m-1")));
    a.publish_done(&p.topic_name, &Ran::Failed("denied".into()));
    assert!(a.status.contains("denied"));
    a.enter_publish_mode();
    a.publish_cancel();
    assert!(a.publish_editing.is_none());
}

#[test]
fn subscriptions_are_handed_over() {
    let mut a = app(vec![tab("subscriptions", Some(ARN))]);
    assert!(matches!(a.refresh_active(), Fetch::Subscriptions { topic_arn, .. } if topic_arn == ARN));
    a.refresh_done(
        Ok(items_of_subscriptions(vec![
            subscription("s", "sqs", "arn:aws:sqs:us-east-1:1:q"),
            subscription("s", "email", "a@b.c"),
        ])),
        0,
    );
    assert_eq!(a.yank_endpoint().unwrap(), "arn:aws:sqs:us-east-1:1:q");
    let l = a.handoff_endpoint().unwrap();
    a.launched(&l, &Ok(()));
    assert_eq!(a.status, l.done);
    a.move_selection(1);
    assert!(a.handoff_endpoint().is_none());
    assert_eq!(draw_list(a.active(), 10).lines.len(), 2);
    assert!(draw_detail(a.focused_item()).len() > 1);
}

#[test]
fn a_pending_subscription_stands_out() {
    let s = Item::Subscription(subscription("PendingConfirmation", "email", "a"));
    assert_eq!(state_color_for(&s).fg, Color::Yellow);
}

#[test]
fn next_tab_and_back() {
    let mut a = topics();
    assert!(matches!(handle(Key::Tab, false, &a), Some(Action::NextTab)));
    let e = apply(Action::NextTab, &mut a);
    assert!(matches!(e, Effect::Load { .. }));
    assert_eq!(a.active_tab, 1);
    apply(Action::PrevTab, &mut a);
    assert_eq!(a.active_tab, 0);
    apply(Action::PrevTab, &mut a);
    assert_eq!(a.active_tab, 1);
    assert!(matches!(apply(Action::Quit, &mut a), Effect::Quit));
    assert!(draw_status(&a).spans.len() > 0);
}

#[test]
fn a_topic_is_opened_and_copied() {
    let mut a = topics();
    assert!(a.open_console().unwrap().contains("orders"));
    let arn = a.yank_arn().unwrap();
    assert_eq!(arn, ARN);
    a.arn_copied(&arn, &Ok(()));
    assert!(a.status.contains("copied"));
}

#[test]
fn arguments_and_errors_of_aws_topics() {
    assert!(list_topics_args(Some("eu-west-1"), Some("t")).iter().any(|a| a == "t"));
    assert!(list_subscriptions_args(ARN, None, None).iter().any(|a| a == ARN));
    assert!(list_topics_error(&Ran::NotStarted("x".into())).is_some());
    assert!(list_topics_error(&Ran::Done("".into())).is_none());
    assert!(get_topic_attributes_error(ARN, &Ran::Failed("denied".into())).unwrap().contains("denied"));
}
