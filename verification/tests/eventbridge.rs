//! The schedules browser.

use mnml_aws::command::{Poll, Ran};
use mnml_aws::eventbridge::app::{App, Mode, Request};
use mnml_aws::eventbridge::config::{extract_json_path, Config, SCAFFOLD};
use mnml_aws::eventbridge::edit::{Edit, EditFocus};
use mnml_aws::eventbridge::keys::{handle, handle_mouse};
use mnml_aws::eventbridge::schedule_expr::humanize;
use mnml_aws::eventbridge::schedules::{
    get_schedule, get_schedule_args, list_schedules_args, next_token, read_reply, scheduler_args,
    toggle_state, update_args, update_file_name, update_result, update_schedule, ScheduleDetail,
    ScheduleSummary, ScheduleTarget,
};
use mnml_aws::eventbridge::ui::{
    draw_list, edit_cursor, edit_cursor_fits, edit_overlay_lines, edit_title, extract_env_branch,
    status_lines, truncate,
};
use mnml_aws::json::{json_text, read_json, Json};
use mnml_aws::keys::{Key, Mouse};

fn json(s: &str) -> Json {
    read_json(s).ok().unwrap()
}

fn summary(name: &str) -> ScheduleSummary {
    ScheduleSummary {
        name: name.into(),
        group_name: "default".into(),
        arn: format!("arn:{name}"),
        state: "ENABLED".into(),
        target: None,
    }
}

const RAW: &str = r#"{"Name":"a","GroupName":"default","State":"ENABLED","Arn":"x",
    "ScheduleExpression":"rate(1 hour)","ScheduleExpressionTimezone":"UTC","Description":"d",
    "FlexibleTimeWindow":{"Mode":"OFF"},
    "Target":{"Arn":"t","RoleArn":"r","Input":"{\"job\":{\"env\":\"prod\"}}","EcsParameters":{"n":1}},
    "CreationDate":"now","LastModificationDate":"now"}"#;

fn target() -> ScheduleTarget {
    ScheduleTarget {
        arn: "t".into(),
        role_arn: "r".into(),
        input: Some(r#"{"job":{"env":"prod"}}"#.into()),
    }
}

fn detail() -> ScheduleDetail {
    get_schedule(json(RAW), Some(Ok(target()))).ok().unwrap()
}

fn listed() -> App {
    let (mut app, first) = App::new(Config::default());
    assert!(matches!(first, Request::List));
    let (changed, _) = app.on_list(Poll::Ready(Ok(vec![summary("a"), summary("b"), summary("c")])));
    assert!(changed);
    app
}

fn shown() -> App {
    let mut app = listed();
    app.refresh_detail();
    assert!(app.on_detail(Poll::Ready(Ok(detail()))));
    app
}

#[test]
fn extract_json_path_walks_nested() {
    let j = r#"{"job":{"env":"prod","branch":"main"}}"#;
    assert_eq!(extract_json_path(j, "job.env"), Some("prod".into()));
    assert_eq!(extract_json_path(j, "job.branch"), Some("main".into()));
}

#[test]
fn extract_json_path_top_level() {
    let j = r#"{"env":"staging"}"#;
    assert_eq!(extract_json_path(j, "env"), Some("staging".into()));
}

#[test]
fn extract_json_path_missing_returns_none() {
    let j = r#"{"job":{"env":"prod"}}"#;
    assert_eq!(extract_json_path(j, "job.missing"), None);
    assert_eq!(extract_json_path(j, "missing.env"), None);
}

#[test]
fn extract_json_path_non_scalar_returns_none() {
    // Nested-object leaves aren't renderable as one column
    // cell — return None so the caller shows a dash.
    let j = r#"{"job":{"env":{"nested":"x"}}}"#;
    assert_eq!(extract_json_path(j, "job.env"), None);
}

#[test]
fn extract_json_path_scalar_types() {
    let j = r#"{"count":42,"active":true,"name":"x"}"#;
    assert_eq!(extract_json_path(j, "count"), Some("42".into()));
    assert_eq!(extract_json_path(j, "active"), Some("true".into()));
    assert_eq!(extract_json_path(j, "name"), Some("x".into()));
}

#[test]
fn extract_json_path_empty_path_returns_none() {
    assert_eq!(extract_json_path(r#"{"env":"x"}"#, ""), None);
}

#[test]
fn extract_json_path_bad_json_returns_none() {
    assert_eq!(extract_json_path("not json", "env"), None);
}

#[test]
fn scaffold_parses_as_config() {
    let t = toml::from_str::<toml::Table>(SCAFFOLD).expect("scaffold TOML valid");
    // All keys commented out in the scaffold — defaults expected.
    assert!(t.is_empty());
    let cfg = Config::default();
    assert!(cfg.env_path.is_empty());
    assert!(cfg.branch_path.is_empty());
    assert!(cfg.region.is_none());
}

#[test]
fn daily_at_time() {
    assert_eq!(
        humanize("cron(00 19 * * ? *)", "America/New_York"),
        "Every day at 7:00 PM America/New_York"
    );
    assert_eq!(humanize("cron(30 6 * * ? *)", ""), "Every day at 6:30 AM");
}

#[test]
fn every_n_minutes() {
    assert_eq!(humanize("cron(0/5 * * * ? *)", ""), "Every 5 minutes");
}

#[test]
fn weekly() {
    assert_eq!(humanize("cron(0 9 ? * MON *)", ""), "Every Monday at 9:00 AM");
    assert_eq!(humanize("cron(0 9 ? * MON-FRI *)", ""), "Every weekday at 9:00 AM");
}

#[test]
fn monthly() {
    assert_eq!(humanize("cron(0 12 1 * ? *)", ""), "On the 1st of every month at 12:00 PM");
    assert_eq!(humanize("cron(0 12 22 * ? *)", ""), "On the 22nd of every month at 12:00 PM");
}

#[test]
fn rate() {
    assert_eq!(humanize("rate(5 minutes)", ""), "Every 5 minutes");
    assert_eq!(humanize("rate(1 hour)", ""), "Every hour");
}

#[test]
fn at() {
    assert_eq!(humanize("at(2026-07-21T09:30:00)", "UTC"), "Once on 2026-07-21T09:30:00 UTC");
}

#[test]
fn unknown_falls_back() {
    assert_eq!(humanize("cron(0 12 15 6 ? 2027)", ""), "cron(0 12 15 6 ? 2027)");
}

#[test]
fn white_space_around_an_expression() {
    assert_eq!(humanize("  rate(1 hour) ", ""), humanize("rate(1 hour)", ""));
    assert_eq!(humanize("whenever", "UTC"), "whenever");
    assert_eq!(humanize("cron(0 12 13 * ? *)", ""), "On the 13th of every month at 12:00 PM");
    assert_eq!(humanize("cron(0 0 3 * ? *)", ""), "On the 3rd of every month at 12:00 AM");
}

#[test]
fn a_schedule_is_read() {
    let d = detail();
    assert_eq!(d.name, "a");
    assert_eq!(d.schedule_expression, "rate(1 hour)");
    assert_eq!(d.target.role_arn, "r");
    assert!(get_schedule(json(RAW), Some(Err("bad target".into()))).is_err());
}

#[test]
fn an_update_keeps_what_it_does_not_know() {
    let payload = update_schedule(&detail(), "rate(2 hours)", "{}");
    assert_eq!(payload.text_at("ScheduleExpression").as_deref(), Some("rate(2 hours)"));
    assert_eq!(payload.text_at("Description").as_deref(), Some("d"));
    let t = payload.get("Target").unwrap();
    assert_eq!(t.text_at("Input").as_deref(), Some("{}"));
    assert_eq!(t.get("EcsParameters").unwrap().count_at("n"), Some(1));
    assert!(payload.get("CreationDate").is_none());
    assert!(payload.get("LastModificationDate").is_none());
    assert!(payload.get("Arn").is_none());
}

#[test]
fn a_schedule_is_turned_off_and_on() {
    let (payload, state) = toggle_state(&detail());
    assert_eq!(state, "DISABLED");
    assert_eq!(payload.text_at("State").as_deref(), Some("DISABLED"));
    assert_eq!(payload.text_at("ScheduleExpression").as_deref(), Some("rate(1 hour)"));
    let mut off = detail();
    off.state = state;
    assert_eq!(toggle_state(&off).1, "ENABLED");
}

#[test]
fn json_is_written_as_it_was_read() {
    assert_eq!(json_text(&json(r#"{"a": [null, true, "x"], "b": 7}"#)), r#"{"a":[null,true,"x"],"b":7}"#);
}

#[test]
fn arguments_and_replies_of_the_scheduler() {
    let args = get_schedule_args("n", "g");
    assert!(args.iter().any(|a| a == "n") && args.iter().any(|a| a == "g"));
    let all = scheduler_args(&args, Some("eu-west-1"));
    assert!(all.iter().any(|a| a == "eu-west-1"));
    let list = list_schedules_args(Some("t"));
    let at = list.iter().position(|a| a == "--next-token").unwrap();
    assert_eq!(list[at + 1], "t");
    assert_eq!(next_token(&json(r#"{"NextToken":"t"}"#)).as_deref(), Some("t"));
    assert!(next_token(&json("{}")).is_none());
    assert!(read_reply(&args, &Ran::Failed("denied".into())).err().unwrap().contains("denied"));
    assert!(read_reply(&args, &Ran::NotStarted("gone".into())).is_err());
    assert!(read_reply(&args, &Ran::Done("{}".into())).is_ok());
    assert!(read_reply(&args, &Ran::Done("{".into())).is_err());
    let file = update_file_name(7);
    assert!(file.contains('7'));
    assert!(update_args(&file, None).iter().any(|a| a.contains(&file)));
    assert!(update_result(&Ran::Done("".into())).is_ok());
    assert!(update_result(&Ran::Failed("x".into())).is_err());
}

#[test]
fn backspace_takes_back_what_was_typed() {
    let mut e = Edit::of("aä".into(), "".into());
    e.move_end();
    e.insert_char('ö');
    assert_eq!(e.expression, "aäö");
    e.backspace();
    assert_eq!(e.expression, "aä");
    assert_eq!(e.expression_cursor, 3);
    e.move_left();
    e.delete_forward();
    assert_eq!(e.expression, "a");
    e.backspace();
    e.backspace();
    assert_eq!(e.expression, "");
    assert_eq!(e.input, "");
}

#[test]
fn left_takes_back_right() {
    let mut e = Edit::of("äb".into(), "".into());
    e.move_home();
    e.move_right();
    assert_eq!(e.expression_cursor, 2);
    e.move_left();
    assert_eq!(e.expression_cursor, 0);
    e.move_left();
    assert_eq!(e.expression_cursor, 0);
}

#[test]
fn up_and_down_keep_the_column() {
    let mut e = Edit::of("x".into(), "abc\nd\nefg".into());
    e.switch_focus();
    assert!(e.focus == EditFocus::Input);
    e.input_cursor = 2;
    assert_eq!(e.visual_col(), 2);
    e.move_down();
    assert_eq!(e.input_cursor, 5);
    e.move_down();
    assert_eq!(e.visual_col(), 1);
    e.move_up();
    assert_eq!(e.input_cursor, 5);
    e.insert_newline();
    assert_eq!(e.input, "abc\nd\n\nefg");
    assert_eq!(e.expression, "x");
}

#[test]
fn the_selected_schedule_is_shown() {
    let mut app = listed();
    assert_eq!(app.selected_key(), Some(("a".to_string(), "default".to_string())));
    app.refresh_detail();
    app.move_selection(1);
    assert_eq!(app.selected, 1);
    assert_eq!(app.selected_name(), "b");
    app.move_selection(10);
    assert_eq!(app.selected, 2);
    app.select(0);
    assert_eq!(app.selected, 0);
}

#[test]
fn late_details_do_not_count_after_a_refresh() {
    let mut app = listed();
    app.refresh_detail();
    app.refresh_list();
    assert!(!app.on_detail(Poll::Ready(Ok(detail()))));
    assert!(!app.on_prefetch(vec![("a".into(), "default".into(), Ok(detail()))], false));
    assert!(app.detail.is_none());
}

#[test]
fn details_are_shown_and_hidden() {
    let mut app = shown();
    let key = ("a".to_string(), "default".to_string());
    app.toggle_expand_at(0);
    assert!(app.expanded.contains(&key));
    app.toggle_expand_at(0);
    assert!(!app.expanded.contains(&key));
    app.expand_selected();
    assert!(app.expanded.contains(&key));
    app.collapse_selected();
    assert!(!app.expanded.contains(&key));
}

#[test]
fn a_change_is_saved_and_read_anew() {
    let mut app = shown();
    app.enter_edit();
    assert!(app.mode == Mode::Edit);
    assert_eq!(app.edit.expression, "rate(1 hour)");
    assert!(edit_title(&app).contains('a'));
    assert!(edit_overlay_lines(&app).len() > 1);
    let (x, y) = edit_cursor(&app, 0, 0, 80, 24);
    assert!(x < 80 && y < 24);
    assert!(edit_cursor_fits(&app, 65_456, 65_512, 80, 24));
    assert!(!edit_cursor_fits(&app, 65_457, 0, 80, 24));
    let (x, y) = edit_cursor(&app, 65_526, 65_535, 10, 1);
    assert!(x >= 65_530 && y == 65_535);
    match app.save_edit() {
        Some(Request::Send { payload }) => {
            assert_eq!(payload.text_at("ScheduleExpression").as_deref(), Some("rate(1 hour)"))
        },
        _ => panic!("the change is sent"),
    }
    assert!(app.mode == Mode::Saving);
    let before = app.status.clone();
    assert!(handle(&mut app, Key::Char('j'), false).is_none());
    assert_eq!(app.selected, 0);
    assert!(before.len() > 0);
    let (changed, requests) = app.on_save(Poll::Ready(Ok(())));
    assert!(changed);
    assert!(!requests.is_empty());
    assert!(app.mode == Mode::Browse);
}

#[test]
fn a_change_that_fails_can_be_tried_again() {
    let mut app = shown();
    app.enter_edit();
    app.save_edit();
    app.on_save(Poll::Ready(Err("denied".into())));
    assert!(app.last_error.as_deref().unwrap().contains("denied"));
}

#[test]
fn escape_leaves_the_editor() {
    let mut app = shown();
    app.enter_edit();
    handle(&mut app, Key::Char('x'), false);
    assert!(app.edit.expression.contains('x'));
    handle(&mut app, Key::Esc, false);
    assert!(app.mode == Mode::Browse);
    assert_eq!(app.detail.as_ref().unwrap().schedule_expression, "rate(1 hour)");
}

#[test]
fn keys_of_the_schedules() {
    let mut app = shown();
    handle(&mut app, Key::Char('j'), false);
    assert_eq!(app.selected, 1);
    handle(&mut app, Key::PageDown, false);
    assert_eq!(app.selected, 2);
    handle(&mut app, Key::Char('q'), false);
    assert!(app.should_quit);
}

#[test]
fn schedules_are_drawn_and_pressed() {
    let mut app = shown();
    assert_eq!(draw_list(&mut app, 0, 20).len(), 3);
    let (_, top, _) = app.row_hits[2];
    handle_mouse(&mut app, Mouse::Press, top);
    assert_eq!(app.selected, 2);
    handle_mouse(&mut app, Mouse::ScrollDown, 0);
    assert_eq!(app.scroll_offset, 3);
    let (left, right) = status_lines(&app);
    assert!(left.spans.len() + right.spans.len() > 0);
}

#[test]
fn columns_from_the_input() {
    let d = detail();
    assert_eq!(extract_env_branch(Some(&d), "job.env", "job.branch").0, "prod");
    assert_eq!(extract_env_branch(Some(&d), "job.env", "job.branch").1, "-");
    assert_eq!(extract_env_branch(None, "job.env", "job.branch").0, "…");
    assert_eq!(truncate("abcdef", 3), "ab…");
}

#[test]
fn everything_is_polled_together() {
    let mut app = listed();
    app.start_prefetch();
    let (changed, _) = app.poll_background(
        Poll::Empty,
        Poll::Empty,
        vec![("a".into(), "default".into(), Ok(detail()))],
        true,
        Poll::Empty,
    );
    assert!(changed);
    assert!(!app.pending_prefetch);
    assert!(app.detail_cache.get(&("a".to_string(), "default".to_string())).is_some());
}

#[test]
fn schedules_are_drawn_at_the_edge_of_the_screen() {
    let mut app = shown();
    assert_eq!(draw_list(&mut app, 65_532, 3).len(), 3);
    assert_eq!(app.row_hits.len(), 2);
    assert_eq!(draw_list(&mut app, 65_534, 1).len(), 3);
    assert!(app.row_hits.is_empty());
}

#[test]
fn a_sent_update_keeps_what_is_not_known() {
    let raw = r#"{"Arn":"x","Kept":{"n":31.2452701914394382,"b":[true,null]},"Target":{"More":1}}"#;
    let reply = read_reply(&vec!["get-schedule".to_string()], &Ran::Done(raw.into())).ok().unwrap();
    let d = get_schedule(reply, Some(Ok(target()))).ok().unwrap();
    let sent = json_text(&update_schedule(&d, "rate(2 hours)", "{}"));
    assert!(sent.contains(r#""Kept":{"b":[true,null],"n":31.245270191439438}"#));
    let sent: serde_json::Value = serde_json::from_str(&sent).unwrap();
    let plain: serde_json::Value = serde_json::from_str(raw).unwrap();
    assert_eq!(sent["Kept"]["b"], plain["Kept"]["b"]);
    assert_eq!(sent["Target"]["More"], plain["Target"]["More"]);
    assert_eq!(sent["ScheduleExpression"], "rate(2 hours)");
    assert!(sent.get("Arn").is_none());
}

#[test]
fn a_target_that_is_no_object_is_sent_as_it_is() {
    let mut d = detail();
    d.raw = json(r#"{"Target":"t","ScheduleExpression":"rate(1 hour)"}"#);
    let sent = json_text(&update_schedule(&d, "rate(2 hours)", "{}"));
    assert_eq!(sent, r#"{"ScheduleExpression":"rate(2 hours)","Target":"t"}"#);
}
