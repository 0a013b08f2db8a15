//! The users browser.

use mnml_aws::clock::Moment;
use mnml_aws::cognito::app::{App, Fetch, TabSpec};
use mnml_aws::cognito::cognito::{
    build_user_filter, fmt_epoch, list_user_pools_error, list_users_args, looks_like_uuid, sort_pools,
    sort_users, AttributeType, Item, User, UserPool, UserPoolDescriptionType,
};
use mnml_aws::cognito::config::{Config, Tab};
use mnml_aws::cognito::keys::{handle, Action};
use mnml_aws::keys::{Common, Key};
use mnml_aws::cognito::ui::{draw_detail, draw_list, draw_search_bar, short_arn_tail, state_color_for};
use mnml_aws::command::Ran;
use mnml_aws::json::{read_json, Json};
use mnml_aws::paging::Pages;
use mnml_aws::screen::Color;

fn moment(secs: i64) -> Moment {
    Moment { secs, rank: secs, raw: format!("{secs}") }
}

fn user(name: &str) -> User {
    User {
        username: name.into(),
        attributes: vec![],
        create_date: None,
        last_modified_date: None,
        enabled: None,
        status: None,
    }
}

fn users_tab() -> Tab {
    Tab {
        name: "u".into(),
        kind: "users".into(),
        user_pool_id: Some("us-east-1_abc".into()),
        user_limit: 60,
        region: None,
    }
}

fn app(tabs: Vec<Tab>) -> App {
    App::new(Config { region: None, refresh_interval_secs: 60, tabs }).ok().unwrap()
}

fn read_user(v: &Json) -> User {
    User {
        username: v.text_at("Username").unwrap(),
        attributes: v
            .array_at("Attributes")
            .unwrap()
            .iter()
            .map(|a| AttributeType { name: a.text_at("Name").unwrap(), value: a.text_at("Value") })
            .collect(),
        create_date: None,
        last_modified_date: None,
        enabled: match v.get("Enabled") {
            Some(Json::Bool(b)) => Some(*b),
            _ => None,
        },
        status: v.text_at("UserStatus"),
    }
}

#[test]
fn tab_spec_rejects_users_without_pool_id() {
    let t = Tab {
        name: "bad".into(),
        kind: "users".into(),
        user_pool_id: None,
        user_limit: 60,
        region: None,
    };
    assert!(TabSpec::resolve(&t, None).is_err());
}

#[test]
fn parses_list_user_pools_response() {
    let json = r#"{
            "UserPools": [
                {
                    "Id": "us-east-1_abc123",
                    "Name": "prod-users",
                    "Status": "Enabled",
                    "LambdaConfig": {"PreSignUp": "arn:aws:lambda:…"},
                    "CreationDate": 1700000000.0
                }
            ]
        }"#;
    let resp = read_json(json).ok().unwrap();
    let pools = resp.array_at("UserPools").unwrap();
    assert_eq!(pools.len(), 1);
    let pool = UserPoolDescriptionType {
        id: pools[0].text_at("Id").unwrap(),
        name: pools[0].text_at("Name").unwrap(),
        status: pools[0].text_at("Status"),
        lambda_config: pools[0].get("LambdaConfig").map(|v| v.copy()),
        creation_date: Some(moment(1_700_000_000)),
        last_modified_date: None,
    }
    .into_pool();
    assert_eq!(pool.name, "prod-users");
}

#[test]
fn parses_list_users_response() {
    let json = r#"{
            "Users": [
                {
                    "Username": "f4a1b2c3-…",
                    "Attributes": [
                        {"Name": "sub", "Value": "f4a1b2c3-…"},
                        {"Name": "email", "Value": "user@example.com"},
                        {"Name": "email_verified", "Value": "true"}
                    ],
                    "UserCreateDate": 1700100000.0,
                    "UserLastModifiedDate": 1700200000.0,
                    "Enabled": true,
                    "UserStatus": "CONFIRMED"
                }
            ]
        }"#;
    let resp = read_json(json).ok().unwrap();
    let u = read_user(&resp.array_at("Users").unwrap()[0]);
    assert_eq!(u.email(), Some("user@example.com"));
    assert_eq!(u.attribute("email_verified"), Some("true"));
    assert_eq!(u.enabled, Some(true));
    assert_eq!(u.status.as_deref(), Some("CONFIRMED"));
}

#[test]
fn user_attribute_misses_return_none() {
    let u = User {
        username: "x".into(),
        attributes: vec![],
        create_date: None,
        last_modified_date: None,
        enabled: None,
        status: None,
    };
    assert!(u.email().is_none());
    assert!(u.attribute("custom:role").is_none());
}

#[test]
fn item_secondary_label_for_user_marks_disabled() {
    let u = User {
        username: "x".into(),
        attributes: vec![],
        create_date: None,
        last_modified_date: None,
        enabled: Some(false),
        status: Some("CONFIRMED".into()),
    };
    let label = Item::User(u).secondary_label();
    assert!(label.contains("DISABLED"));
}

#[test]
fn fmt_epoch_formats_known_date() {
    let out = fmt_epoch(&moment(1_704_067_200)); // 2024-01-01 00:00 UTC
    assert!(out.starts_with("2024-01-01"));
    assert_eq!(out, "2024-01-01 00:00");
}

#[test]
fn a_date_beyond_the_calendar_stays_raw() {
    let m = Moment { secs: i64::MAX, rank: 0, raw: "1e300".into() };
    assert_eq!(fmt_epoch(&m), "1e300");
}

#[test]
fn build_filter_routes_by_query_shape() {
    assert_eq!(build_user_filter("ada@example.com"), r#"email ^= "ada@example.com""#);
    assert_eq!(build_user_filter("ada"), r#"username ^= "ada""#);
    assert_eq!(
        build_user_filter("f47ac10b-58cc-4372-a567-0e02b2c3d479"),
        r#"sub = "f47ac10b-58cc-4372-a567-0e02b2c3d479""#
    );
    assert_eq!(build_user_filter("  "), "");
}

#[test]
fn looks_like_uuid_accepts_canonical_form() {
    assert!(looks_like_uuid("f47ac10b-58cc-4372-a567-0e02b2c3d479"));
    assert!(!looks_like_uuid("not-a-uuid"));
    assert!(!looks_like_uuid("f47ac10b58cc4372a5670e02b2c3d479")); // no dashes
    assert!(!looks_like_uuid("f47ac10b-58cc-4372-a567-0e02b2c3d479X")); // too long
}

#[test]
fn build_filter_escapes_quotes() {
    let out = build_user_filter(r#"foo"bar"#);
    assert!(out.contains(r#"\"bar"#));
}

#[test]
fn rejects_users_without_pool_id() {
    let cfg = Config {
        region: None,
        refresh_interval_secs: 60,
        tabs: vec![Tab {
            name: "x".into(),
            kind: "users".into(),
            user_pool_id: None,
            user_limit: 60,
            region: None,
        }],
    };
    assert!(cfg.validate().is_err());
}

#[test]
fn rejects_user_limit_zero_or_over_max() {
    let mut cfg = Config {
        region: None,
        refresh_interval_secs: 60,
        tabs: vec![Tab {
            name: "x".into(),
            kind: "users".into(),
            user_pool_id: Some("us-east-1_abc".into()),
            user_limit: 0,
            region: None,
        }],
    };
    assert!(cfg.validate().is_err());
    cfg.tabs[0].user_limit = 1000;
    assert!(cfg.validate().is_err());
}

#[test]
fn short_arn_tail_extracts_function_name() {
    assert_eq!(short_arn_tail("arn:aws:lambda:us-east-1:1:function:pre-signup"), "pre-signup");
}

#[test]
fn no_more_users_than_wanted() {
    let many = (0..10).map(|i| user(&format!("u{i}"))).collect::<Vec<_>>();
    let some = sort_users(many, 3);
    assert_eq!(some.len(), 3);
    assert_eq!(sort_users(vec![user("a")], 3).len(), 1);
}

#[test]
fn pools_by_name_and_the_newest_user_first() {
    let pool = |name: &str| UserPool {
        id: name.into(),
        name: name.into(),
        status: None,
        lambda_config: None,
        creation_date: None,
        last_modified_date: None,
    };
    let sorted = sort_pools(vec![pool("b"), pool("C"), pool("A")]);
    let names = sorted.iter().map(|p| p.name.as_str()).collect::<Vec<_>>();
    assert_eq!(names, vec!["A", "b", "C"]);
    let mut old = user("old");
    old.create_date = Some(moment(1));
    let mut new = user("new");
    new.create_date = Some(moment(2));
    let users = sort_users(vec![user("undated"), old, new], 60);
    let names = users.iter().map(|u| u.username.as_str()).collect::<Vec<_>>();
    assert_eq!(names, vec!["new", "old", "undated"]);
}

#[test]
fn a_search_filters_the_users() {
    let mut a = app(vec![users_tab()]);
    assert!(draw_search_bar(&a).is_none());
    a.enter_search_mode();
    for c in "adax".chars() {
        a.search_input_char(c);
    }
    a.search_input_backspace();
    assert!(draw_search_bar(&a).is_some());
    match a.search_commit() {
        Some(Fetch::Users { filter, user_pool_id, limit, .. }) => {
            assert_eq!(filter.as_deref(), Some(r#"username ^= "ada""#));
            assert_eq!(user_pool_id, "us-east-1_abc");
            assert_eq!(limit, 60);
        },
        _ => panic!("users are loaded"),
    }
    assert!(a.query_editing.is_none());
    match a.search_cancel() {
        Some(Fetch::Users { filter, .. }) => assert!(filter.is_none()),
        _ => panic!("all users are loaded again"),
    }
    assert!(a.search_cancel().is_none());
}

#[test]
fn giving_up_a_query_drops_the_filter() {
    let mut a = app(vec![users_tab()]);
    a.enter_search_mode();
    a.search_input_char('a');
    assert!(a.search_cancel().is_none());
    assert_eq!(a.status, "search cancelled");
    assert!(a.query_editing.is_none());
    a.enter_search_mode();
    a.search_input_char('a');
    assert!(a.search_commit().is_some());
    a.enter_search_mode();
    a.search_input_char('b');
    match a.search_cancel() {
        Some(Fetch::Users { filter, .. }) => assert!(filter.is_none()),
        _ => panic!("all users are loaded again"),
    }
    assert!(a.query_editing.is_none());
    assert!(a.active_filter.is_none());
}

#[test]
fn no_page_is_asked_for_where_no_user_is_wanted() {
    let mut pages: Pages<u8> = Pages::new();
    assert!(!pages.wants_more(0));
    assert!(pages.wants_more(2));
    pages.take_up_to(vec![1], Some("t".into()), 2);
    assert!(pages.wants_more(2));
    pages.take_up_to(vec![2], Some("u".into()), 2);
    assert!(!pages.wants_more(2));
    assert!(sort_users(vec![user("x")], 0).is_empty());
}

#[test]
fn pools_cannot_be_searched() {
    let mut a = app(vec![Tab {
        name: "p".into(),
        kind: "pools".into(),
        user_pool_id: None,
        user_limit: 60,
        region: None,
    }]);
    a.enter_search_mode();
    assert!(a.query_editing.is_none());
    assert!(matches!(a.refresh_active(), Fetch::Pools { .. }));
}

#[test]
fn users_are_drawn_and_copied() {
    let mut a = app(vec![users_tab()]);
    assert!(a.yank_id().is_none());
    let mut u = user("ada");
    u.enabled = Some(false);
    u.attributes = vec![AttributeType { name: "sub".into(), value: Some("s-1".into()) }];
    assert_eq!(u.sub(), Some("s-1"));
    a.refresh_done(Ok(vec![Item::User(u)]), 0);
    let shade = state_color_for(a.focused_item().unwrap());
    assert!(shade.fg == Color::Red || shade.fg == Color::DarkGray);
    assert_eq!(draw_list(a.active(), 10).lines.len(), 1);
    assert!(draw_detail(a.focused_item()).len() > 1);
    let y = a.yank_id().unwrap();
    a.id_copied(&y, &Ok(()));
    assert!(a.status.contains(&y.label));
    a.id_copied(&y, &Err("e".into()));
    assert_eq!(a.status, "copy failed: e");
    assert!(a.open_console().unwrap().contains("us-east-1_abc"));
}

#[test]
fn pools_are_named() {
    let p = UserPool {
        id: "us-east-1_abc".into(),
        name: "prod".into(),
        status: Some("Enabled".into()),
        lambda_config: None,
        creation_date: Some(moment(1_704_067_200)),
        last_modified_date: None,
    };
    let item = Item::Pool(p);
    assert_eq!(item.primary_label(), "prod");
    assert!(item.secondary_label().contains("Enabled"));
}

#[test]
fn arguments_and_errors_of_aws_users() {
    let args = list_users_args("pool", 60, Some("eu-west-1"), Some("f"), Some("t"));
    for pair in [("--user-pool-id", "pool"), ("--filter", "f"), ("--region", "eu-west-1")] {
        let at = args.iter().position(|a| a == pair.0).unwrap();
        assert_eq!(args[at + 1], pair.1);
    }
    assert_eq!(
        list_user_pools_error(&Ran::Failed("denied\n".into())).as_deref(),
        Some("aws cognito-idp list-user-pools failed: denied")
    );
    assert_eq!(
        list_user_pools_error(&Ran::NotStarted("x".into())).as_deref(),
        Some("spawn `aws cognito-idp list-user-pools`")
    );
    assert!(list_user_pools_error(&Ran::Done("{}".into())).is_none());
}

#[test]
fn keys_of_the_users() {
    let app = app(vec![users_tab()]);
    assert_eq!(handle(Key::Char('y'), false, &app), Some(Action::YankId));
    assert_eq!(handle(Key::Char('/'), false, &app), Some(Action::EnterSearch));
    assert_eq!(handle(Key::Char('x'), false, &app), None);
    assert_eq!(handle(Key::Char('j'), false, &app), Some(Action::Common(Common::Move(1))));
    assert_eq!(handle(Key::Char('c'), true, &app), Some(Action::Common(Common::Quit)));
}

#[test]
fn typed_keys_go_to_the_query() {
    let mut app = app(vec![users_tab()]);
    assert_eq!(handle(Key::Esc, false, &app), Some(Action::SearchCancel));
    app.enter_search_mode();
    assert_eq!(handle(Key::Char('q'), false, &app), Some(Action::SearchChar('q')));
    assert_eq!(handle(Key::Char('c'), true, &app), None);
    assert_eq!(handle(Key::Tab, false, &app), None);
    assert_eq!(handle(Key::Backspace, false, &app), Some(Action::SearchBackspace));
    assert_eq!(handle(Key::Enter, false, &app), Some(Action::SearchCommit));
    assert_eq!(handle(Key::Esc, false, &app), Some(Action::SearchCancel));
}
