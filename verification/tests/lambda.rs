//! The functions browser.

use mnml_aws::command::Ran;
use mnml_aws::json::{read_json, Json};
use mnml_aws::lambda::app::{merge_watched, App, Fetch, TabSpec};
use mnml_aws::lambda::config::{Config, Tab};
use mnml_aws::lambda::keys::{handle, Action};
use mnml_aws::keys::{Common, Key};
use mnml_aws::lambda::lambda::{
    fmt_bytes, get_function_args, get_function_error, list_functions_args, list_functions_error,
    log_group_for, sort_functions, DeadLetterConfig, EnvironmentError, EnvironmentResponse, Function,
    TracingConfig,
};
use mnml_aws::lambda::ui::{draw_detail, draw_list, draw_status, short_arn};
use mnml_aws::table::table_of;

fn function(name: &str) -> Function {
    Function {
        function_name: name.into(),
        function_arn: format!("arn:aws:lambda:us-east-1:1:function:{name}"),
        runtime: None,
        handler: None,
        role: "arn:aws:iam::1:role/r".into(),
        memory_size: None,
        timeout: None,
        last_modified: None,
        code_size: None,
        description: None,
        package_type: None,
        architectures: vec![],
        environment: None,
        reserved_concurrent_executions: None,
        tracing_config: None,
        dead_letter_config: None,
    }
}

fn environment(v: &Json) -> EnvironmentResponse {
    let variables = match v.get("Variables") {
        Some(Json::Object(m)) => {
            m.iter().map(|(k, x)| (k.clone(), x.as_text().unwrap().to_string())).collect()
        },
        _ => vec![],
    };
    EnvironmentResponse {
        variables: table_of(variables),
        error: v.get("Error").map(|e| EnvironmentError {
            error_code: e.text_at("ErrorCode"),
            message: e.text_at("Message"),
        }),
    }
}

fn app(kind: &str, watched: Vec<String>) -> App {
    App::new(Config {
        region: None,
        refresh_interval_secs: 60,
        tabs: vec![Tab { name: "x".into(), kind: kind.into(), watched, region: None }],
    })
    .ok()
    .unwrap()
}

#[test]
fn tab_spec_rejects_watched_without_entries() {
    let t = Tab {
        name: "bad".into(),
        kind: "watched".into(),
        watched: vec![],
        region: None,
    };
    assert!(TabSpec::resolve(&t, None).is_err());
}

#[test]
fn rejects_watched_without_entries() {
    let cfg = Config {
        region: None,
        refresh_interval_secs: 60,
        tabs: vec![Tab {
            name: "watched".into(),
            kind: "watched".into(),
            watched: vec![],
            region: None,
        }],
    };
    assert!(cfg.validate().is_err());
}

#[test]
fn log_group_for_uses_aws_lambda_prefix() {
    assert_eq!(log_group_for("my-func"), "/aws/lambda/my-func");
}

#[test]
fn lambda_fmt_bytes_picks_right_unit() {
    assert_eq!(fmt_bytes(500), "500 B");
    assert_eq!(fmt_bytes(2048), "2.0 KB");
    assert_eq!(fmt_bytes(3_145_728), "3.0 MB");
}

#[test]
fn parses_environment_variables() {
    let json = r#"
        {
            "Functions": [
                {
                    "FunctionName": "api-handler",
                    "FunctionArn": "arn:aws:lambda:us-east-1:1:function:api-handler",
                    "Role": "arn:aws:iam::1:role/r",
                    "Environment": {
                        "Variables": {
                            "DATABASE_URL": "postgres://…",
                            "REDIS_URL": "redis://…",
                            "LOG_LEVEL": "info"
                        }
                    },
                    "ReservedConcurrentExecutions": 50,
                    "TracingConfig": {"Mode": "Active"},
                    "DeadLetterConfig": {"TargetArn": "arn:aws:sqs:us-east-1:1:dlq"}
                }
            ]
        }"#;
    let resp = read_json(json).ok().unwrap();
    let v = &resp.array_at("Functions").unwrap()[0];
    let mut fn_ = function("api-handler");
    fn_.environment = v.get("Environment").map(environment);
    fn_.reserved_concurrent_executions =
        v.count_at("ReservedConcurrentExecutions").map(|n| n as u32);
    fn_.tracing_config = v.get("TracingConfig").map(|t| TracingConfig { mode: t.text_at("Mode") });
    fn_.dead_letter_config =
        v.get("DeadLetterConfig").map(|d| DeadLetterConfig { target_arn: d.text_at("TargetArn") });
    let env = fn_.environment.as_ref().expect("environment present");
    assert_eq!(env.var_count(), 3);
    assert_eq!(fn_.reserved_concurrent_executions, Some(50));
    let tracing = fn_.tracing_config.as_ref().expect("tracing present");
    assert_eq!(tracing.mode.as_deref(), Some("Active"));
    let dlc = fn_.dead_letter_config.as_ref().expect("dlc present");
    assert!(dlc.target_arn.as_deref().unwrap_or("").ends_with(":dlq"));
}

#[test]
fn environment_with_resolver_error_parses() {
    let json = r#"
        {
            "Variables": {},
            "Error": {
                "ErrorCode": "AccessDeniedException",
                "Message": "The role does not have permission to decrypt the env"
            }
        }"#;
    let env = environment(&read_json(json).ok().unwrap());
    assert_eq!(env.var_count(), 0);
    let err = env.error.as_ref().expect("error present");
    assert_eq!(err.error_code.as_deref(), Some("AccessDeniedException"));
}

#[test]
fn short_arn_extracts_role_name() {
    let arn = "arn:aws:iam::123456789012:role/my-role";
    assert_eq!(short_arn(arn), "my-role");
}

#[test]
fn one_function_that_is_read_suffices() {
    let some = merge_watched(vec![
        ("a".into(), Err("denied".into())),
        ("b".into(), Ok(function("b"))),
    ]);
    assert_eq!(some.ok().unwrap().len(), 1);
    let none = merge_watched(vec![("a".into(), Err("denied".into()))]);
    assert!(none.err().unwrap().contains("denied"));
    assert_eq!(merge_watched(vec![]).ok().unwrap().len(), 0);
}

#[test]
fn functions_are_loaded() {
    assert!(matches!(app("all", vec![]).refresh_active(), Fetch::All { .. }));
    match app("watched", vec!["a".into(), "b".into()]).refresh_active() {
        Fetch::Watched { names, .. } => assert_eq!(names, vec!["a", "b"]),
        Fetch::All { .. } => panic!("only some are watched"),
    }
    let sorted = sort_functions(vec![function("b"), function("a")]);
    assert_eq!(sorted[0].function_name, "a");
}

#[test]
fn a_function_is_opened_copied_and_tailed() {
    let mut a = app("all", vec![]);
    assert!(a.tail_logs().is_none());
    let mut f = function("api");
    a.refresh_done(Ok(vec![function("api")]), 0);
    assert!(a.open_console().unwrap().contains("/functions/api"));
    let arn = a.yank_arn().unwrap();
    a.arn_copied(&arn, &Ok(()));
    assert!(a.status.contains("copied"));
    let l = a.tail_logs().unwrap();
    assert_eq!(l.args[1], "/aws/lambda/api");
    a.launched(&l, &Ok(()));
    assert!(a.status.contains("api"));
    assert!(a.handoff_dlq().is_none());
    f.dead_letter_config =
        Some(DeadLetterConfig { target_arn: Some("arn:aws:sqs:us-east-1:1:dlq".into()) });
    a.refresh_done(Ok(vec![f]), 0);
    assert!(a.handoff_dlq().is_some());
    assert!(draw_detail(a.focused_function()).len() > 3);
    assert_eq!(draw_list(a.active(), 10).lines.len(), 1);
    assert!(draw_status(&a).spans.len() == 2);
}

#[test]
fn arguments_and_errors_of_aws_functions() {
    let args = list_functions_args(Some("eu-west-1"), Some("m"));
    assert!(args.iter().any(|a| a == "m"));
    assert!(get_function_args("f", None).iter().any(|a| a == "f"));
    assert!(list_functions_error(&Ran::Failed("denied".into())).unwrap().contains("denied"));
    assert!(list_functions_error(&Ran::Done("".into())).is_none());
    assert!(get_function_error("f", &Ran::Failed("denied".into())).unwrap().contains("f"));
    assert!(get_function_error("f", &Ran::NotStarted("x".into())).is_some());
}

#[test]
fn keys_of_the_functions() {
    let app = app("all", Vec::new());
    assert_eq!(handle(Key::Char('y'), false, &app), Some(Action::YankArn));
    assert_eq!(handle(Key::Char('l'), false, &app), Some(Action::TailLogs));
    assert_eq!(handle(Key::Char('L'), false, &app), Some(Action::HandoffDlq));
    assert_eq!(handle(Key::Char('x'), false, &app), None);
    assert_eq!(handle(Key::Char('j'), false, &app), Some(Action::Common(Common::Move(1))));
    assert_eq!(handle(Key::Char('c'), true, &app), Some(Action::Common(Common::Quit)));
}
