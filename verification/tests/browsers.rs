//! What all browsers have in common, each with its own settings.

use mnml_aws::{amplify, cloudwatch_logs, cognito, ecr, ecs, lambda, rds, sns, sqs};

fn text_of(t: &toml::Table, key: &str) -> Option<String> {
    t.get(key).and_then(|v| v.as_str()).map(|s| s.to_string())
}

fn number_of(t: &toml::Table, key: &str) -> Option<u64> {
    t.get(key).and_then(|v| v.as_integer()).map(|n| n as u64)
}

fn texts_of(t: &toml::Table, key: &str) -> Vec<String> {
    match t.get(key).and_then(|v| v.as_array()) {
        Some(a) => a.iter().filter_map(|v| v.as_str()).map(|s| s.to_string()).collect(),
        None => Vec::new(),
    }
}

fn tabs_of(t: &toml::Table) -> Vec<toml::Table> {
    match t.get("tabs").and_then(|v| v.as_array()) {
        Some(a) => a.iter().filter_map(|v| v.as_table()).cloned().collect(),
        None => Vec::new(),
    }
}

fn parsed(raw: &str) -> toml::Table {
    toml::from_str::<toml::Table>(raw).expect("parses")
}

fn amplify_config(raw: &str) -> amplify::config::Config {
    let t = parsed(raw);
    amplify::config::Config {
        region: text_of(&t, "region"),
        refresh_interval_secs: number_of(&t, "refresh_interval_secs")
            .unwrap_or(amplify::config::default_refresh()),
        tabs: tabs_of(&t)
            .iter()
            .map(|x| amplify::config::Tab {
                name: text_of(x, "name").expect("a name"),
                kind: text_of(x, "kind").unwrap_or(amplify::config::default_kind()),
                app_id: text_of(x, "app_id"),
                region: text_of(x, "region"),
            })
            .collect(),
        hidden_app_ids: texts_of(&t, "hidden_app_ids"),
        app_order: texts_of(&t, "app_order"),
    }
}

fn cloudwatch_config(raw: &str) -> cloudwatch_logs::config::Config {
    let t = parsed(raw);
    cloudwatch_logs::config::Config {
        region: text_of(&t, "region"),
        refresh_interval_secs: number_of(&t, "refresh_interval_secs")
            .unwrap_or(cloudwatch_logs::config::default_refresh()),
        tabs: tabs_of(&t)
            .iter()
            .map(|x| cloudwatch_logs::config::Tab {
                name: text_of(x, "name").expect("a name"),
                log_group: text_of(x, "log_group").expect("a group"),
                log_stream: text_of(x, "log_stream"),
                region: text_of(x, "region"),
                filter: text_of(x, "filter"),
            })
            .collect(),
    }
}

fn cognito_config(raw: &str) -> cognito::config::Config {
    let t = parsed(raw);
    cognito::config::Config {
        region: text_of(&t, "region"),
        refresh_interval_secs: number_of(&t, "refresh_interval_secs")
            .unwrap_or(cognito::config::default_refresh()),
        tabs: tabs_of(&t)
            .iter()
            .map(|x| cognito::config::Tab {
                name: text_of(x, "name").expect("a name"),
                kind: text_of(x, "kind").unwrap_or(cognito::config::default_kind()),
                user_pool_id: text_of(x, "user_pool_id"),
                user_limit: number_of(x, "user_limit")
                    .map(|n| n as u32)
                    .unwrap_or(cognito::config::default_user_limit()),
                region: text_of(x, "region"),
            })
            .collect(),
    }
}

fn ecr_config(raw: &str) -> ecr::config::Config {
    let t = parsed(raw);
    ecr::config::Config {
        region: text_of(&t, "region"),
        refresh_interval_secs: number_of(&t, "refresh_interval_secs")
            .unwrap_or(ecr::config::default_refresh()),
        tabs: tabs_of(&t)
            .iter()
            .map(|x| ecr::config::Tab {
                name: text_of(x, "name").expect("a name"),
                kind: text_of(x, "kind").unwrap_or(ecr::config::default_kind()),
                repository: text_of(x, "repository"),
                region: text_of(x, "region"),
            })
            .collect(),
    }
}

fn lambda_config(raw: &str) -> lambda::config::Config {
    let t = parsed(raw);
    lambda::config::Config {
        region: text_of(&t, "region"),
        refresh_interval_secs: number_of(&t, "refresh_interval_secs")
            .unwrap_or(lambda::config::default_refresh()),
        tabs: tabs_of(&t)
            .iter()
            .map(|x| lambda::config::Tab {
                name: text_of(x, "name").expect("a name"),
                kind: text_of(x, "kind").unwrap_or(lambda::config::default_kind()),
                watched: texts_of(x, "watched"),
                region: text_of(x, "region"),
            })
            .collect(),
    }
}

fn sns_config(raw: &str) -> sns::config::Config {
    let t = parsed(raw);
    sns::config::Config {
        region: text_of(&t, "region"),
        refresh_interval_secs: number_of(&t, "refresh_interval_secs")
            .unwrap_or(sns::config::default_refresh()),
        tabs: tabs_of(&t)
            .iter()
            .map(|x| sns::config::Tab {
                name: text_of(x, "name").expect("a name"),
                kind: text_of(x, "kind").unwrap_or(sns::config::default_kind()),
                topic_arn: text_of(x, "topic_arn"),
                prefix: text_of(x, "prefix"),
                region: text_of(x, "region"),
            })
            .collect(),
    }
}

#[test]
fn app_tab_spec_resolve_uses_default_region() {
    let t = cloudwatch_logs::config::Tab {
        name: "x".into(),
        log_group: "/aws/lambda/x".into(),
        log_stream: None,
        region: None,
        filter: None,
    };
    let spec = cloudwatch_logs::app::TabSpec::resolve(&t, Some("us-west-2")).ok().unwrap();
    assert_eq!(spec.region.as_deref(), Some("us-west-2"));

    let t = cognito::config::Tab {
        name: "x".into(),
        kind: "pools".into(),
        user_pool_id: None,
        user_limit: 60,
        region: None,
    };
    let spec = cognito::app::TabSpec::resolve(&t, Some("us-west-2")).ok().unwrap();
    assert_eq!(spec.region.as_deref(), Some("us-west-2"));

    let t = ecr::config::Tab {
        name: "x".into(),
        kind: "repositories".into(),
        repository: None,
        region: None,
    };
    let spec = ecr::app::TabSpec::resolve(&t, Some("us-west-2")).ok().unwrap();
    assert_eq!(spec.region.as_deref(), Some("us-west-2"));

    let t = ecs::config::Tab {
        name: "x".into(),
        kind: "clusters".into(),
        cluster: None,
        region: None,
    };
    let spec = ecs::app::TabSpec::resolve(&t, Some("us-west-2")).ok().unwrap();
    assert_eq!(spec.region.as_deref(), Some("us-west-2"));

    let t = lambda::config::Tab {
        name: "x".into(),
        kind: "all".into(),
        watched: vec![],
        region: None,
    };
    let spec = lambda::app::TabSpec::resolve(&t, Some("us-west-2")).ok().unwrap();
    assert_eq!(spec.region.as_deref(), Some("us-west-2"));
    assert_eq!(spec.kind, "all");

    let t = rds::config::Tab {
        name: "x".into(),
        kind: "instances".into(),
        region: None,
    };
    let spec = rds::app::TabSpec::resolve(&t, Some("us-west-2")).ok().unwrap();
    assert_eq!(spec.region.as_deref(), Some("us-west-2"));

    let t = sns::config::Tab {
        name: "x".into(),
        kind: "topics".into(),
        topic_arn: None,
        prefix: None,
        region: None,
    };
    let spec = sns::app::TabSpec::resolve(&t, Some("us-west-2")).ok().unwrap();
    assert_eq!(spec.region.as_deref(), Some("us-west-2"));

    let t = sqs::config::Tab {
        name: "x".into(),
        kind: "all".into(),
        prefix: None,
        region: None,
    };
    let spec = sqs::app::TabSpec::resolve(&t, Some("us-west-2")).ok().unwrap();
    assert_eq!(spec.region.as_deref(), Some("us-west-2"));
}

#[test]
fn app_tab_spec_rejects_unknown_kind() {
    let t = ecs::config::Tab {
        name: "bad".into(),
        kind: "garbage".into(),
        cluster: None,
        region: None,
    };
    assert!(ecs::app::TabSpec::resolve(&t, None).is_err());

    let t = lambda::config::Tab {
        name: "bad".into(),
        kind: "garbage".into(),
        watched: vec![],
        region: None,
    };
    assert!(lambda::app::TabSpec::resolve(&t, None).is_err());

    let t = rds::config::Tab {
        name: "bad".into(),
        kind: "garbage".into(),
        region: None,
    };
    assert!(rds::app::TabSpec::resolve(&t, None).is_err());
}

#[test]
fn unknown_kind_is_quoted() {
    let t = rds::config::Tab { name: "bad".into(), kind: "gar\"bage".into(), region: None };
    assert_eq!(
        rds::app::TabSpec::resolve(&t, None).err().unwrap(),
        "tab `bad`: unknown kind \"gar\\\"bage\""
    );
}

#[test]
fn config_example_config_parses_and_validates() {
    let cfg = cloudwatch_config(cloudwatch_logs::config::Config::EXAMPLE);
    assert!(cfg.validate().is_ok());
    assert!(cfg.tabs.len() >= 3);

    let cfg = cognito_config(cognito::config::Config::EXAMPLE);
    assert!(cfg.validate().is_ok());
    assert!(!cfg.tabs.is_empty());

    let cfg = ecr_config(ecr::config::Config::EXAMPLE);
    assert!(cfg.validate().is_ok());
    assert!(!cfg.tabs.is_empty());

    let cfg = lambda_config(lambda::config::Config::EXAMPLE);
    assert!(cfg.validate().is_ok());
    assert!(cfg.tabs.len() >= 2);

    let cfg = sns_config(sns::config::Config::EXAMPLE);
    assert!(cfg.validate().is_ok());
    assert!(!cfg.tabs.is_empty());
}

#[test]
fn example_parses_and_validates() {
    let cfg = amplify_config(amplify::config::Config::EXAMPLE);
    assert!(cfg.validate().is_ok());
}

#[test]
fn rejects_app_kind_without_app_id() {
    let raw = r##"
[[tabs]]
name = "bad"
kind = "app"
"##;
    let cfg = amplify_config(raw);
    assert!(cfg.validate().is_err());
}

#[test]
fn config_rejects_no_tabs() {
    let cfg = cloudwatch_logs::config::Config {
        region: None,
        refresh_interval_secs: 0,
        tabs: vec![],
    };
    assert!(cfg.validate().is_err());

    let cfg = cognito::config::Config { region: None, refresh_interval_secs: 60, tabs: vec![] };
    assert!(cfg.validate().is_err());

    let cfg = ecr::config::Config { region: None, refresh_interval_secs: 60, tabs: vec![] };
    assert!(cfg.validate().is_err());

    let cfg = lambda::config::Config { region: None, refresh_interval_secs: 60, tabs: vec![] };
    assert!(cfg.validate().is_err());

    let cfg = sns::config::Config { region: None, refresh_interval_secs: 60, tabs: vec![] };
    assert!(cfg.validate().is_err());
}

#[test]
fn config_rejects_unknown_kind() {
    let raw = r##"
[[tabs]]
name = "bad"
kind = "garbage"
"##;
    let cfg = amplify_config(raw);
    assert!(cfg.validate().is_err());

    let cfg = cognito::config::Config {
        region: None,
        refresh_interval_secs: 60,
        tabs: vec![cognito::config::Tab {
            name: "bad".into(),
            kind: "bogus".into(),
            user_pool_id: None,
            user_limit: 60,
            region: None,
        }],
    };
    assert!(cfg.validate().is_err());

    let cfg = ecr::config::Config {
        region: None,
        refresh_interval_secs: 60,
        tabs: vec![ecr::config::Tab {
            name: "bad".into(),
            kind: "bogus".into(),
            repository: None,
            region: None,
        }],
    };
    assert!(cfg.validate().is_err());

    let cfg = lambda::config::Config {
        region: None,
        refresh_interval_secs: 60,
        tabs: vec![lambda::config::Tab {
            name: "bad".into(),
            kind: "bogus".into(),
            watched: vec![],
            region: None,
        }],
    };
    assert!(cfg.validate().is_err());

    let cfg = sns::config::Config {
        region: None,
        refresh_interval_secs: 60,
        tabs: vec![sns::config::Tab {
            name: "bad".into(),
            kind: "bogus".into(),
            topic_arn: None,
            prefix: None,
            region: None,
        }],
    };
    assert!(cfg.validate().is_err());
}

#[test]
fn default_kind_is_all() {
    let cfg = lambda_config(
        r#"
            [[tabs]]
            name = "X"
            "#,
    );
    assert_eq!(cfg.tabs[0].kind, "all");
}

#[test]
fn ui_truncate_short_strings_unchanged() {
    assert_eq!(cognito::ui::truncate("short", 10), "short");
    assert_eq!(ecr::ui::truncate("short", 10), "short");
    assert_eq!(ecs::ui::truncate("short", 10), "short");
    assert_eq!(lambda::ui::truncate("short", 10), "short");
    assert_eq!(rds::ui::truncate("short", 10), "short");
    assert_eq!(sns::ui::truncate("short", 10), "short");
    assert_eq!(sqs::ui::truncate("short", 10), "short");
}

#[test]
fn ui_truncate_long_strings_get_ellipsis() {
    let out = ecs::ui::truncate("0123456789abcdef", 8);
    assert_eq!(out.chars().count(), 8);
    assert!(out.ends_with('…'));

    let out = lambda::ui::truncate("0123456789abcdef", 8);
    assert_eq!(out.chars().count(), 8);
    assert!(out.ends_with('…'));

    let out = rds::ui::truncate("0123456789abcdef", 8);
    assert_eq!(out.chars().count(), 8);
    assert!(out.ends_with('…'));
}

#[test]
fn truncate_to_nothing_is_an_ellipsis() {
    assert_eq!(ecs::ui::truncate("ab", 0), "…");
    assert_eq!(ecs::ui::truncate("ab", 1), "…");
    assert_eq!(ecs::ui::truncate("", 0), "");
    assert_eq!(ecs::ui::truncate("äöü", 3), "äöü");
}

#[test]
fn validation_errors_name_the_tab() {
    let mut cfg = lambda_config("[[tabs]]\nname = \"X\"\nkind = \"watched\"\n");
    let watched = cfg.validate().err().unwrap();
    assert!(watched.contains("X"));
    cfg.tabs[0].kind = "odd".into();
    let kind = cfg.validate().err().unwrap();
    assert!(kind.contains("\"odd\""));
    cfg.tabs.clear();
    let none = cfg.validate().err().unwrap();
    assert!(!none.contains("X"));
    assert!(watched != kind && kind != none);
}
