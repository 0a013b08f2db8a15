//! The apps browser.

use mnml_aws::amplify::amplify::{
    console_url_app, console_url_branch, epoch_to_iso, fetched_log, first_line_of, get_job_args,
    list_apps_args, read_reply, short_error_reason, trim_log, update_text, AmplifyApp, AmplifyBranch,
    AmplifyEvent, AmplifyJob, AmplifyJobDetail, AmplifyJobStep, UpdateTime, MAX_LOG,
};
use mnml_aws::amplify::app::{App, Request, TabKind, TabSpec, VisibleRow};
use mnml_aws::amplify::branches::{days_since_iso_at, is_primary_branch, primary_sort_key};
use mnml_aws::amplify::config::{default_kind, default_refresh, Config, Tab};
use mnml_aws::amplify::drain::Recv;
use mnml_aws::amplify::keys::{apply, handle, Action};
use mnml_aws::amplify::mouse::{handle_mouse, Area};
use mnml_aws::amplify::ui::{
    deploy_status_glyph, draw_deployment_history, draw_logs_view, draw_status, draw_unified_view,
    format_iso_ts, format_iso_ts_at, job_duration_str, list_lines, minutes_text, scroll_for, start_texts,
    visible_row_line_starts, Pane,
};
use mnml_aws::command::Ran;
use mnml_aws::json::read_json;
use mnml_aws::keys::{Key, Mouse};

const NOW: Option<u64> = Some(1_780_000_000);

fn config() -> Config {
    Config {
        region: Some("eu-west-1".into()),
        refresh_interval_secs: default_refresh(),
        tabs: vec![Tab { name: "apps".into(), kind: default_kind(), app_id: None, region: None }],
        hidden_app_ids: vec![],
        app_order: vec![],
    }
}

fn amplify_app(id: &str) -> AmplifyApp {
    AmplifyApp {
        app_id: id.into(),
        name: format!("App {id}"),
        default_domain: Some(format!("{id}.amplifyapp.com")),
        repository: None,
        platform: None,
    }
}

fn branch(name: &str) -> AmplifyBranch {
    AmplifyBranch {
        branch_name: name.into(),
        stage: None,
        display_name: None,
        url: None,
        active_job_id: None,
        update_time: None,
    }
}

fn job(id: &str, start: &str) -> AmplifyJob {
    AmplifyJob {
        job_id: id.into(),
        status: "SUCCEED".into(),
        current_step: None,
        commit_id: Some("abcdef0123".into()),
        commit_message: Some("first\nsecond".into()),
        commit_time: None,
        start_time: Some(start.into()),
        end_time: Some("2026-05-28T10:05:00Z".into()),
    }
}

fn deliver(app: &mut App, apps: Recv, branches: Vec<(String, Recv)>, jobs: Vec<Recv>) -> (bool, Vec<Request>) {
    app.drain(apps, branches, jobs, Recv::Empty, Recv::Empty, vec![], 0)
}

fn listed() -> App {
    let (mut app, requests) = App::new(config());
    assert!(requests.iter().any(|r| matches!(r, Request::Apps)));
    let (changed, _) = deliver(
        &mut app,
        Recv::Got(AmplifyEvent::Apps(vec![amplify_app("a"), amplify_app("b")])),
        vec![],
        vec![],
    );
    assert!(changed);
    app
}

fn opened() -> App {
    let mut app = listed();
    let branches = AmplifyEvent::Branches(vec![branch("main"), branch("dev")]);
    let (_, requests) =
        deliver(&mut app, Recv::Empty, vec![("a".into(), Recv::Got(branches))], vec![]);
    assert!(requests.iter().any(|r| matches!(r, Request::Jobs { .. })));
    app
}

fn is_header(r: &VisibleRow) -> bool {
    matches!(r, VisibleRow::AppHeader { .. })
}

#[test]
fn console_url_app_uses_region() {
    let url = console_url_app("d2abc123", Some("us-west-2"));
    assert!(url.contains("us-west-2.console.aws.amazon.com"));
    assert!(url.contains("apps/d2abc123"));
}

#[test]
fn console_url_branch_includes_branch() {
    let url = console_url_branch("d2abc123", "main", Some("us-east-1"));
    assert!(url.contains("/branches/main"));
}

#[test]
fn parses_minimal_apps_response() {
    let json = r##"{"apps": [
            {"appId": "d2abc", "name": "MyApp", "defaultDomain": "abc.amplifyapp.com",
             "repository": "https://github.com/x/y", "platform": "WEB"}
        ]}"##;
    let v = read_json(json).ok().unwrap();
    let apps = v
        .array_at("apps")
        .unwrap()
        .iter()
        .map(|a| AmplifyApp {
            app_id: a.text_at("appId").unwrap(),
            name: a.text_at("name").unwrap(),
            default_domain: a.text_at("defaultDomain"),
            repository: a.text_at("repository"),
            platform: a.text_at("platform"),
        })
        .collect::<Vec<_>>();
    assert_eq!(apps.len(), 1);
    assert_eq!(apps[0].name, "MyApp");
}

#[test]
fn tabs_are_resolved() {
    let mut t = Tab { name: "x".into(), kind: "app".into(), app_id: None, region: None };
    assert!(TabSpec::resolve(&t, None).is_err());
    t.app_id = Some("d1".into());
    let spec = TabSpec::resolve(&t, Some("eu-west-1")).ok().unwrap();
    assert!(spec.kind == TabKind::App);
    assert_eq!(spec.region.as_deref(), Some("eu-west-1"));
    t.kind = "odd".into();
    assert!(TabSpec::resolve(&t, None).is_err());
    assert!(TabKind::from_str("apps").ok().unwrap() == TabKind::Apps);
    assert!(TabKind::from_str("odd").err().unwrap().contains("odd"));
}

#[test]
fn a_day_is_written_and_read() {
    let iso = epoch_to_iso(1_704_067_200);
    assert!(iso.starts_with("2024-01-01T00:00:00"));
    assert_eq!(days_since_iso_at(&iso, Some(1_704_067_200 + 3 * 86_400)), Some(3));
    assert_eq!(days_since_iso_at("soon", Some(0)), None);
    assert!(epoch_to_iso(1_709_164_800).starts_with("2024-02-29"));
}

#[test]
fn branches_for_a_stage() {
    assert!(is_primary_branch("main"));
    assert!(!is_primary_branch("feature/x"));
    assert!(primary_sort_key("main") < primary_sort_key("feature/x"));
}

#[test]
fn every_stage_is_shown_and_stale_branches_are_not() {
    let mut app = listed();
    let mut old = branch("feature/old");
    old.update_time = Some("2020-01-01T00:00:00Z".into());
    let mut fresh = branch("feature/new");
    fresh.update_time = Some("2026-05-28T00:00:00Z".into());
    let branches = AmplifyEvent::Branches(vec![branch("main"), branch("dev"), old, fresh]);
    deliver(&mut app, Recv::Empty, vec![("a".into(), Recv::Got(branches))], vec![]);
    let names = app
        .visible_rows_at(NOW)
        .iter()
        .filter_map(|r| match r {
            VisibleRow::Branch { branch_name, .. } => Some(branch_name.clone()),
            _ => None,
        })
        .collect::<Vec<_>>();
    assert!(names.iter().any(|n| n == "main"));
    assert!(names.iter().any(|n| n == "dev"));
    assert!(!names.iter().any(|n| n == "feature/old"));
}

#[test]
fn an_app_is_shown_and_hidden_again() {
    let mut app = listed();
    assert_eq!(app.visible_rows_at(NOW).len(), 2);
    app.enter_focused(NOW);
    assert!(app.expand_focused(NOW).is_none());
    app.collapse_focused(NOW);
    assert_eq!(app.visible_rows_at(NOW).len(), 2);
    assert!(app.visible_rows_at(NOW).iter().all(is_header));
}

#[test]
fn hidden_apps_come_back() {
    let mut app = listed();
    let saving = app.toggle_hide_selected(NOW).unwrap();
    assert_eq!(app.cfg.hidden_app_ids, vec!["a"]);
    assert_eq!(app.visible_rows_at(NOW).len(), 1);
    app.saved(&saving, &Ok(()));
    assert_eq!(app.status, saving.done);
    app.toggle_show_hidden();
    assert_eq!(app.visible_rows_at(NOW).len(), 2);
    app.toggle_show_hidden();
    assert_eq!(app.visible_rows_at(NOW).len(), 1);
    assert!(app.unhide_all().is_some());
    assert!(app.cfg.hidden_app_ids.is_empty());
    assert!(app.unhide_all().is_none());
    app.saved(&saving, &Err("disk".into()));
    assert!(app.status.contains("disk"));
}

#[test]
fn the_selected_app_is_hidden() {
    let mut app = opened();
    let rows = app.visible_rows_at(NOW);
    let last = rows.len() - 1;
    assert!(last > 1);
    assert!(is_header(&rows[last]));
    app.move_selection(1, NOW);
    assert!(app.toggle_hide_selected(NOW).is_none());
    assert_eq!(app.status, "no app selected to hide");
    assert!(app.focused_app(NOW).is_none());
    app.move_selection(last as isize, NOW);
    assert_eq!(app.focused_app(NOW).unwrap().1.app_id, "b");
    assert_eq!(
        app.toggle_hide_selected(NOW).unwrap().done,
        "hidden App b  (H to see hidden, `x` to unhide)"
    );
    assert_eq!(app.cfg.hidden_app_ids, vec!["b"]);
    let left = app.visible_rows_at(NOW).len();
    assert_eq!(left, last);
    match &app.tabs[0].data {
        mnml_aws::amplify::app::TabData::Apps(t) => assert_eq!(t.selected, left - 1),
        mnml_aws::amplify::app::TabData::App(_) => panic!("apps are listed"),
    }
}

#[test]
fn the_selected_app_is_hidden_in_any_order() {
    let mut app = listed();
    assert!(app.move_app_down(NOW).is_some());
    assert_eq!(app.cfg.app_order, vec!["b", "a"]);
    app.move_selection(-1, NOW);
    assert!(app.toggle_hide_selected(NOW).is_some());
    assert_eq!(app.cfg.hidden_app_ids, vec!["b"]);
    app.toggle_show_hidden();
    assert_eq!(
        app.toggle_hide_selected(NOW).unwrap().done,
        "unhidden App b  (H to show/hide the hidden view)"
    );
    assert!(app.cfg.hidden_app_ids.is_empty());
}

#[test]
fn the_right_button_hides_the_app_below_it() {
    let mut app = opened();
    let rows = app.visible_rows_at(NOW);
    let line = *visible_row_line_starts(&app, &rows).last().unwrap() as u16;
    let body = Area { x: 0, y: 0, width: 80, height: 40 };
    let e = handle_mouse(&mut app, Mouse::RightPress, 1, line, body, true, NOW);
    assert!(e.save.is_some());
    assert_eq!(app.cfg.hidden_app_ids, vec!["b"]);
}

#[test]
fn the_selected_line_stays_in_view() {
    assert_eq!(scroll_for(3, 20), 0);
    assert_eq!(scroll_for(16, 20), 0);
    assert_eq!(scroll_for(17, 20), 1);
    assert_eq!(scroll_for(65_551, 20), 65_535);
    assert_eq!(scroll_for(100_000, 20), 65_535);
    assert_eq!(scroll_for(5, 2), 5);
}

#[test]
fn times_in_a_time_zone() {
    let t = "2026-05-28T23:30:05.250Z";
    assert_eq!(format_iso_ts_at(t, 0), "2026-05-28 23:30:05 +00:00");
    assert_eq!(format_iso_ts_at(t, 3600), "2026-05-29 00:30:05 +01:00");
    assert_eq!(format_iso_ts_at("2026-05-28T23:30:05+02:00", -16_200), "2026-05-28 17:00:05 -04:30");
    assert_eq!(format_iso_ts_at(t, 86_400), t);
    assert_eq!(format_iso_ts_at("soon", 3600), "soon");
    assert_eq!(format_iso_ts("soon"), "soon");
    let here = format_iso_ts(t);
    assert!((-1439..1440).any(|m| format_iso_ts_at(t, m * 60) == here));
}

#[test]
fn apps_change_places() {
    let mut app = listed();
    assert!(app.move_app_up(NOW).is_none());
    assert!(app.move_app_down(NOW).is_some());
    assert_eq!(app.cfg.app_order, vec!["b", "a"]);
    assert!(app.move_app_up(NOW).is_some());
    assert_eq!(app.cfg.app_order, vec!["a", "b"]);
}

#[test]
fn known_deployments_stay_known() {
    let mut app = opened();
    let jobs = AmplifyEvent::Jobs { branch_name: "main".into(), jobs: vec![job("1", "2026-05-28T10:00:00Z")] };
    deliver(&mut app, Recv::Empty, vec![], vec![Recv::Got(jobs)]);
    assert!(app.refresh_active().len() >= 1);
    let rows = app.visible_rows_at(NOW).len();
    let branches = AmplifyEvent::Branches(vec![branch("main")]);
    deliver(&mut app, Recv::Empty, vec![("a".into(), Recv::Got(branches))], vec![]);
    deliver(&mut app, Recv::Empty, vec![], vec![Recv::Got(AmplifyEvent::Failed("throttled".into()))]);
    assert!(rows > 0);
    let key = ("a".to_string(), "main".to_string());
    match &app.tabs[0].data {
        mnml_aws::amplify::app::TabData::Apps(t) => {
            assert_eq!(t.jobs_by_key.get(&key).unwrap().len(), 1);
            assert!(t.jobs_error_by_key.get(&key).is_none());
        },
        mnml_aws::amplify::app::TabData::App(_) => panic!("apps are listed"),
    }
}

#[test]
fn a_branch_shows_its_deployments() {
    let mut app = opened();
    app.move_selection(1, NOW);
    assert!(app.toggle_branch_expand_selected(NOW).is_some() || app.expanded_branches.len() == 1);
    assert_eq!(app.expanded_branches.len(), 1);
    app.toggle_branch_expand_selected(NOW);
    assert_eq!(app.expanded_branches.len(), 0);
    let space = handle(Key::Char(' '), false, false, &app).unwrap();
    assert!(matches!(space, Action::ToggleBranchExpand));
    apply(space, &mut app, NOW);
    assert_eq!(app.expanded_branches.len(), 1);
    app.move_selection(-1, NOW);
    let rows = app.visible_rows_at(NOW).len();
    apply(Action::ToggleBranchExpand, &mut app, NOW);
    assert_eq!(app.visible_rows_at(NOW).len(), rows);
}

#[test]
fn rows_are_drawn_where_they_are_said_to_be() {
    let app = opened();
    let rows = app.visible_rows_at(NOW);
    let starts = visible_row_line_starts(&app, &rows);
    assert_eq!(starts.len(), rows.len());
    assert_eq!(starts[0], 1);
    let lines = list_lines(&app, &rows, &start_texts(&app, &rows));
    assert!(*starts.last().unwrap() < lines.len());
    match draw_unified_view(&app, 20, false, NOW) {
        Pane::List { highlighted, .. } => assert_eq!(highlighted, Some(1)),
        Pane::Message { .. } => panic!("rows are drawn"),
    }
}

#[test]
fn keys_of_the_apps() {
    let mut app = listed();
    assert!(handle(Key::Esc, false, false, &app).is_none());
    let down = handle(Key::Char('j'), false, false, &app).unwrap();
    assert!(!apply(down, &mut app, NOW).quit);
    let quit = handle(Key::Char('c'), true, false, &app).unwrap();
    assert!(matches!(quit, Action::Quit));
    assert!(apply(quit, &mut app, NOW).quit);
}

#[test]
fn logs_take_all_keys_and_the_mouse() {
    let mut app = opened();
    let r = app.open_logs_for_job("a", "main", "7");
    assert!(matches!(r, Request::Detail { job_id, .. } if job_id == "7"));
    assert!(!matches!(handle(Key::Char('q'), false, false, &app), Some(Action::Quit)));
    let body = Area { x: 0, y: 0, width: 80, height: 20 };
    let e = handle_mouse(&mut app, Mouse::Press, 1, 1, body, false, NOW);
    assert!(e.requests.is_empty());
    let detail = AmplifyJobDetail {
        job_id: "7".into(),
        status: "FAILED".into(),
        branch_name: "main".into(),
        commit_id: None,
        commit_message: Some("m".into()),
        steps: vec![AmplifyJobStep {
            step_name: "BUILD".into(),
            status: "FAILED".into(),
            start_time: None,
            end_time: None,
            log_url: Some("https://x".into()),
        }],
    };
    let (changed, requests) = app.drain(
        Recv::Empty,
        vec![],
        vec![],
        Recv::Empty,
        Recv::Got(AmplifyEvent::JobDetail(detail)),
        vec![],
        0,
    );
    assert!(changed);
    assert!(matches!(&requests[0], Request::Log { url, .. } if url == "https://x"));
    let log = AmplifyEvent::Log { step_name: "BUILD".into(), text: "boom".into() };
    app.drain(Recv::Empty, vec![], vec![], Recv::Empty, Recv::Empty, vec![Recv::Got(log)], 0);
    let pane = draw_logs_view(&app).unwrap();
    assert!(pane.lines.iter().any(|l| l.spans.iter().any(|s| s.text.contains("boom"))));
    app.logs_scroll(5);
    app.logs_scroll(-100);
    assert_eq!(app.logs_view.as_ref().unwrap().scroll, 0);
    app.close_logs_view();
    assert!(draw_logs_view(&app).is_none());
}

#[test]
fn nothing_but_the_list_is_drawn_at_first() {
    let app = listed();
    assert!(draw_deployment_history(&app).is_none());
    assert!(draw_logs_view(&app).is_none());
    assert!(draw_status(&app).spans.len() > 0);
}

#[test]
fn an_app_is_opened_copied_and_tailed() {
    let mut app = listed();
    assert!(app.open_focused(NOW).unwrap().contains("/a"));
    let url = app.yank_focused_url(NOW).unwrap();
    app.url_copied(&url, &Ok(()));
    assert!(app.status.contains("copied"));
    app.opened(&url, &Err("e".into()));
    assert!(app.status.contains("e"));
    assert!(app.handoff_logs(NOW).is_none());
    assert_eq!(app.status, "L opens CloudWatch Logs — pick a branch row first");
}

#[test]
fn logs_are_handed_over_once_there_are_builds() {
    let mut app = opened();
    app.move_selection(1, NOW);
    let rows = app.visible_rows_at(NOW);
    let name = match &rows[1] {
        VisibleRow::Branch { branch_name, .. } => branch_name.clone(),
        _ => panic!("a branch is below its app"),
    };
    assert!(app.handoff_logs(NOW).is_none());
    assert_eq!(app.status, format!("no builds yet on `{name}` — no CloudWatch log group"));
    let jobs = AmplifyEvent::Jobs { branch_name: name.clone(), jobs: vec![job("1", "2026-05-28T10:00:00Z")] };
    let n = match &app.tabs[0].data {
        mnml_aws::amplify::app::TabData::Apps(t) => {
            t.pending_jobs.iter().position(|(_, b)| *b == name).unwrap()
        },
        mnml_aws::amplify::app::TabData::App(_) => panic!("apps are listed"),
    };
    let mut replies = (0..n).map(|_| Recv::Empty).collect::<Vec<_>>();
    replies.push(Recv::Got(jobs));
    deliver(&mut app, Recv::Empty, vec![], replies);
    let l = app.handoff_logs(NOW).unwrap();
    assert_eq!(l.args[1], format!("/aws/amplify/a/{name}"));
}

#[test]
fn times_of_a_deployment() {
    assert_eq!(minutes_text(Some(300)), job_duration_str(&job("1", "2026-05-28T10:00:00Z")));
    assert_eq!(minutes_text(None), job_duration_str(&job("1", "soon")));
    assert!(deploy_status_glyph("SUCCEED").0 != deploy_status_glyph("FAILED").0);
}

#[test]
fn errors_are_shortened() {
    assert_eq!(short_error_reason("An error: ThrottlingException"), "throttled");
    assert_eq!(short_error_reason("AccessDeniedException"), "no access");
    assert_eq!(first_line_of("a\nb"), "a");
}

#[test]
fn long_logs_are_cut() {
    assert_eq!(trim_log("short".into()), "short");
    let long = "x".repeat(MAX_LOG + 100);
    let remark = "\n\n… (truncated at 204800 bytes)";
    assert_eq!(trim_log(long), format!("{}{remark}", "x".repeat(MAX_LOG)));
    let wide = format!("x{}", "ä".repeat(MAX_LOG));
    let shown = trim_log(wide);
    assert_eq!(shown.len(), MAX_LOG - 1 + remark.len());
    assert!(shown.ends_with(remark));
}

#[test]
fn arguments_and_replies_of_aws_apps() {
    assert!(list_apps_args(Some("eu-west-1")).iter().any(|a| a == "eu-west-1"));
    let args = get_job_args("a", "main", "7", None);
    for x in ["a", "main", "7"] {
        assert!(args.iter().any(|a| a == x));
    }
    assert!(read_reply(&Ran::Done("{}".into())).is_ok());
    assert!(read_reply(&Ran::Failed("denied".into())).err().unwrap().contains("denied"));
    assert!(read_reply(&Ran::NotStarted("gone".into())).is_err());
    assert!(read_reply(&Ran::Done("{".into())).is_err());
}

#[test]
fn a_change_is_dated_by_its_day() {
    assert_eq!(update_text(Some(UpdateTime::Epoch(0))).as_deref(), Some("1970-01-01T00:00:00Z"));
    assert_eq!(update_text(Some(UpdateTime::Epoch(951_782_400))).as_deref(), Some("2000-02-29T00:00:00Z"));
    assert_eq!(update_text(Some(UpdateTime::Text("then".into()))).as_deref(), Some("then"));
    assert_eq!(update_text(Some(UpdateTime::Other)), None);
    assert_eq!(update_text(None), None);
}

#[test]
fn a_fetched_log_names_its_step() {
    match fetched_log("BUILD".into(), Ok("ok".into())) {
        AmplifyEvent::Log { step_name, text } => {
            assert_eq!(step_name, "BUILD");
            assert_eq!(text, "ok");
        },
        _ => panic!("no log"),
    }
    match fetched_log("BUILD".into(), Err("timed out".into())) {
        AmplifyEvent::Failed(m) => assert_eq!(m, "log fetch BUILD: timed out"),
        _ => panic!("a log"),
    }
}

#[test]
fn everything_is_asked_for_anew_in_time() {
    let every = |secs: u64| {
        let mut cfg = config();
        cfg.refresh_interval_secs = secs;
        App::new(cfg).0
    };
    assert!(!every(30).refresh_due(29));
    assert!(every(30).refresh_due(30));
    assert!(!every(0).refresh_due(u64::MAX));
}
