//! The projects browser.

use mnml_aws::codebuild::app::{App, Request};
use mnml_aws::codebuild::codebuild::{
    batch_get_projects, list_projects, parse_build, parse_iso_ms, parse_project, recent_builds,
    start_build, started_build, BuildStatus, CodeBuildRecord, Recent,
};
use mnml_aws::codebuild::config::Config;
use mnml_aws::codebuild::keys::{handle, handle_mouse};
use mnml_aws::codebuild::ui::{
    draw_list, format_duration, format_latest, format_when, header_line, status_lines,
};
use mnml_aws::command::{Poll, Ran, Turn};
use mnml_aws::json::read_json;
use mnml_aws::keys::{Key, Mouse};

fn done(s: &str) -> Ran {
    Ran::Done(s.into())
}

fn build(n: u64) -> CodeBuildRecord {
    CodeBuildRecord {
        id: format!("p:{n}"),
        build_number: n,
        status: BuildStatus::Succeeded,
        started_at_ms: Some(0),
        duration_ms: Some(61_000),
        source_version: None,
        initiator: None,
        logs_deep_link: None,
        logs_group: None,
        logs_stream: None,
    }
}

fn listed() -> App {
    let (mut app, first) = App::new(Config::without_file());
    assert!(matches!(first, Request::Projects));
    let (changed, requests) = app.on_projects(Poll::Ready(Ok(vec!["a".into(), "b".into(), "c".into()])));
    assert!(changed);
    assert_eq!(requests.len(), 2);
    app
}

#[test]
fn build_status_glyph_and_label() {
    assert_eq!(BuildStatus::parse("SUCCEEDED"), BuildStatus::Succeeded);
    assert_eq!(BuildStatus::parse("FAILED"), BuildStatus::Failed);
    assert_eq!(BuildStatus::parse("IN_PROGRESS"), BuildStatus::InProgress);
    assert_eq!(BuildStatus::parse("garbage"), BuildStatus::Unknown);
    assert_eq!(BuildStatus::Failed.glyph(), "✗");
    assert_eq!(BuildStatus::Succeeded.label(), "succeeded");
}

#[test]
fn parse_iso_ms_round_trip() {
    // Known good: 2026-05-15T14:37:02.559000-04:00 → UTC 2026-05-15T18:37:02.559Z
    let got = parse_iso_ms("2026-05-15T14:37:02.559000-04:00").expect("parses");
    // Use `parse_iso_ms` on the UTC form too and confirm they match.
    let utc = parse_iso_ms("2026-05-15T18:37:02.559Z").expect("parses");
    assert_eq!(got, utc);
}

#[test]
fn parse_iso_ms_handles_offset_signs() {
    let east = parse_iso_ms("2026-01-01T00:00:00+05:30").unwrap();
    let utc = parse_iso_ms("2025-12-31T18:30:00Z").unwrap();
    assert_eq!(east, utc);
}

#[test]
fn points_in_time() {
    assert_eq!(parse_iso_ms("1970-01-01T00:00:00Z"), Some(0));
    assert_eq!(parse_iso_ms("2024-02-29T00:00:00Z"), Some(1_709_164_800_000));
    assert_eq!(parse_iso_ms("2024-03-01T00:00:00Z"), Some(1_709_251_200_000));
    assert!(parse_iso_ms("yesterday").is_none());
    assert!(parse_iso_ms("").is_none());
}

#[test]
fn parse_build_full_response() {
    let json = read_json(
        r#"{
            "id": "my-playwright:abc",
            "buildNumber": 38788,
            "buildStatus": "FAILED",
            "startTime": "2026-05-15T14:37:02.559000-04:00",
            "endTime":   "2026-05-15T14:37:31.431000-04:00",
            "resolvedSourceVersion": "629eda29d63c03c1fcfa01de38204e5b9d25559b",
            "sourceVersion": "arn:aws:s3:::pipeline-stuff",
            "initiator": "codepipeline/my-playwright",
            "logs": {
                "deepLink": "https://console.aws.amazon.com/cloudwatch/…",
                "groupName": "my-playwright",
                "streamName": "abc"
            }
        }"#,
    )
    .ok()
    .unwrap();
    let rec = parse_build(&json).expect("parses");
    assert_eq!(rec.id, "my-playwright:abc");
    assert_eq!(rec.build_number, 38788);
    assert!(rec.status == BuildStatus::Failed);
    assert!(rec.started_at_ms.is_some());
    assert!(rec.duration_ms.is_some_and(|d| d > 0));
    // Prefer `resolvedSourceVersion` over the raw S3 ARN.
    assert!(rec.source_version.as_deref().unwrap().starts_with("629eda29"));
    assert_eq!(rec.initiator.as_deref(), Some("codepipeline/my-playwright"));
    assert_eq!(rec.logs_group.as_deref(), Some("my-playwright"));
    assert_eq!(rec.duration_ms, Some(28_872));
}

#[test]
fn parse_build_falls_back_to_source_version_when_no_resolved() {
    let json = read_json(
        r#"{
            "id": "p:x",
            "buildStatus": "SUCCEEDED",
            "sourceVersion": "develop"
        }"#,
    )
    .ok()
    .unwrap();
    let rec = parse_build(&json).expect("parses");
    assert_eq!(rec.source_version.as_deref(), Some("develop"));
}

#[test]
fn a_build_without_an_id_is_none() {
    assert!(parse_build(&read_json("{}").ok().unwrap()).is_none());
}

#[test]
fn a_project_is_read() {
    let json = read_json(
        r#"{"name": "web", "arn": "a", "source": {"type": "GITHUB", "location": "x"},
            "environment": {"image": "i", "computeType": "c"}, "timeoutInMinutes": 60}"#,
    )
    .ok()
    .unwrap();
    let p = parse_project(&json).expect("reads");
    assert_eq!(p.name, "web");
    assert_eq!(p.source_type.as_deref(), Some("GITHUB"));
    assert_eq!(p.environment_image.as_deref(), Some("i"));
    assert_eq!(p.timeout_minutes, Some(60));
    assert!(p.service_role.is_none());
    assert!(parse_project(&read_json("[]").ok().unwrap()).is_none());
}

#[test]
fn all_pages_of_projects_are_listed() {
    let first = list_projects();
    let args = first.args(Some("eu-west-1"));
    assert_eq!(args[0], "--region");
    assert!(args.iter().any(|a| a == "list-projects"));
    assert!(!args.iter().any(|a| a == "--next-token"));
    let second = match first.next(&done(r#"{"projects": ["c", "a"], "nextToken": "t"}"#)) {
        Turn::Ask(l) => l,
        Turn::End(_) => panic!("there is a second page"),
    };
    let args = second.args(None);
    let at = args.iter().position(|a| a == "--next-token").unwrap();
    assert_eq!(args[at + 1], "t");
    match second.next(&done(r#"{"projects": ["b"]}"#)) {
        Turn::End(Ok(names)) => assert_eq!(names, vec!["a", "b", "c"]),
        _ => panic!("that is all"),
    }
}

#[test]
fn a_listing_that_fails() {
    match list_projects().next(&Ran::Failed(" denied ".into())) {
        Turn::End(Err(e)) => assert_eq!(e, "aws codebuild → denied"),
        _ => panic!("it fails"),
    }
    match list_projects().next(&Ran::NotStarted("gone".into())) {
        Turn::End(Err(e)) => assert_eq!(e, "spawn aws: gone — is the AWS CLI on PATH?"),
        _ => panic!("it fails"),
    }
    match list_projects().next(&done("no json")) {
        Turn::End(Err(e)) => assert!(e.starts_with("parse json: ")),
        _ => panic!("it fails"),
    }
}

#[test]
fn projects_are_read_a_hundred_at_a_time() {
    let names = (0..150).map(|i| format!("p{i}")).collect::<Vec<_>>();
    let b = match batch_get_projects(names) {
        Turn::Ask(b) => b,
        Turn::End(_) => panic!("something is asked for"),
    };
    let args = b.args(None);
    assert!(args.iter().any(|a| a == "p99"));
    assert!(!args.iter().any(|a| a == "p100"));
    let b = match b.next(&done(r#"{"projects": [{"name": "p0", "arn": "x"}]}"#)) {
        Turn::Ask(b) => b,
        Turn::End(_) => panic!("there are more"),
    };
    let args = b.args(None);
    assert!(args.iter().any(|a| a == "p100"));
    assert!(args.iter().any(|a| a == "p149"));
    match b.next(&done(r#"{"projects": []}"#)) {
        Turn::End(Ok(out)) => assert_eq!(out.len(), 1),
        _ => panic!("that is all"),
    }
    assert!(matches!(batch_get_projects(vec![]), Turn::End(Ok(out)) if out.is_empty()));
}

#[test]
fn recent_builds_come_newest_first() {
    let r = recent_builds("web", 2);
    let args = r.args(None);
    assert!(args.iter().any(|a| a == "web"));
    let at = args.iter().position(|a| a == "--max-items").unwrap();
    assert_eq!(args[at + 1], "2");
    let r = match r.next(&done(r#"{"ids": ["web:1", "web:2", "web:3"]}"#)) {
        Turn::Ask(r) => r,
        Turn::End(_) => panic!("the builds are asked for"),
    };
    match &r {
        Recent::Builds { ids } => assert_eq!(ids.len(), 3),
        Recent::Ids { .. } => panic!("the builds are asked for"),
    }
    let reply = r#"{"builds": [
        {"id": "web:1", "startTime": "2026-01-01T00:00:00Z"},
        {"id": "web:2", "startTime": "2026-01-02T00:00:00Z"}]}"#;
    match r.next(&done(reply)) {
        Turn::End(Ok(out)) => {
            assert_eq!(out[0].id, "web:2");
            assert_eq!(out[1].id, "web:1");
        },
        _ => panic!("that is all"),
    }
    assert!(matches!(
        recent_builds("web", 2).next(&done(r#"{"ids": []}"#)),
        Turn::End(Ok(out)) if out.is_empty()
    ));
}

#[test]
fn a_build_is_started() {
    let args = start_build("web", Some("eu-west-1"));
    assert!(args.iter().any(|a| a == "start-build"));
    assert!(args.iter().any(|a| a == "web"));
    assert_eq!(started_build(&done(r#"{"build": {"id": "web:9"}}"#)).ok().unwrap(), "web:9");
    assert!(started_build(&Ran::Failed("denied".into())).is_err());
}

#[test]
fn only_the_wanted_projects_are_shown() {
    let mut cfg = Config::without_file();
    cfg.projects = vec!["b".into()];
    let (mut app, _) = App::new(cfg);
    app.on_projects(Poll::Ready(Ok(vec!["a".into(), "b".into()])));
    assert_eq!(app.projects, vec!["b"]);
}

#[test]
fn the_selection_stays_in_the_list() {
    let mut app = listed();
    app.move_selection(10);
    assert_eq!(app.selected, 2);
    app.move_selection(-10);
    assert_eq!(app.selected, 0);
    app.move_selection(2);
    app.on_projects(Poll::Empty);
    app.refresh();
    app.on_projects(Poll::Ready(Ok(vec!["a".into()])));
    assert_eq!(app.selected, 0);
    assert!(handle(&mut app, Key::Down, false).is_none());
    assert_eq!(app.selected, 0);
}

#[test]
fn what_a_project_has_is_shown_and_hidden() {
    let mut app = listed();
    assert!(!app.expanded.contains(&"a".to_string()));
    app.toggle_expand_at(0);
    assert!(app.expanded.contains(&"a".to_string()));
    app.toggle_expand_at(0);
    assert!(!app.expanded.contains(&"a".to_string()));
    app.expand_selected();
    app.expand_selected();
    assert!(app.expanded.contains(&"a".to_string()));
    app.collapse_selected();
    assert!(!app.expanded.contains(&"a".to_string()));
}

#[test]
fn late_replies_do_not_count_after_a_refresh() {
    let mut app = listed();
    app.refresh();
    assert!(!app.on_builds(vec![("a".into(), Ok(vec![build(1)]))], false));
    assert!(app.builds_cache.get(&"a".to_string()).is_none());
}

#[test]
fn one_build_is_started_at_a_time() {
    let mut app = listed();
    match app.start_build() {
        Some(Request::Start { name }) => assert_eq!(name, "a"),
        _ => panic!("a build is started"),
    }
    assert!(app.start_build().is_none());
    let (changed, requests) = app.on_start(Poll::Ready(Ok("a:1".into())));
    assert!(changed);
    assert!(matches!(&requests[0], Request::Refetch { name, .. } if name == "a"));
    assert!(app.pending_builds);
    assert!(app.on_refetch(Poll::Ready(Ok(vec![build(1)]))));
    assert_eq!(app.builds_cache.get(&"a".to_string()).unwrap().len(), 1);
}

#[test]
fn errors_are_kept() {
    let mut app = listed();
    app.refresh();
    let (_, requests) = app.on_projects(Poll::Ready(Err("denied".into())));
    assert!(requests.is_empty());
    assert_eq!(app.last_error.as_deref(), Some("denied"));
}

#[test]
fn everything_is_polled() {
    let mut app = listed();
    let (changed, requests) = app.poll_background(
        Poll::Empty,
        Poll::Ready(Ok(vec![])),
        vec![("b".into(), Ok(vec![build(2)]))],
        true,
        Poll::Empty,
        Poll::Empty,
    );
    assert!(changed);
    assert!(requests.is_empty());
    assert!(!app.pending_builds);
    assert!(app.builds_cache.get(&"b".to_string()).is_some());
}

#[test]
fn keys_of_the_list() {
    let mut app = listed();
    assert!(matches!(handle(&mut app, Key::Char('r'), false), Some(Request::Projects)));
    handle(&mut app, Key::Enter, false);
    assert!(app.expanded.contains(&"a".to_string()));
    handle(&mut app, Key::Char('c'), false);
    assert!(!app.should_quit);
    handle(&mut app, Key::Char('c'), true);
    assert!(app.should_quit);
}

#[test]
fn a_press_selects_and_then_toggles() {
    let mut app = listed();
    draw_list(&mut app, 0, 20, 0);
    let (row, top, _) = app.row_hits[1];
    assert_eq!(row, 1);
    handle_mouse(&mut app, Mouse::Press, top);
    assert_eq!(app.selected, 1);
    assert!(!app.expanded.contains(&"b".to_string()));
    handle_mouse(&mut app, Mouse::Press, top);
    assert!(app.expanded.contains(&"b".to_string()));
    handle_mouse(&mut app, Mouse::ScrollDown, 0);
    assert_eq!(app.scroll_offset, 3);
    handle_mouse(&mut app, Mouse::ScrollUp, 0);
    assert_eq!(app.scroll_offset, 0);
}

#[test]
fn times_and_durations() {
    assert_eq!(format_duration(None), "—");
    assert_eq!(format_duration(Some(61_000)), "1m 1s");
    assert_eq!(format_when(None, 0), "—");
    let minute = format_when(Some(0), 60_000);
    assert!(minute.contains("1m"));
    assert!(format_latest(&build(7), 60_000).contains('7'));
}

#[test]
fn lists_are_drawn() {
    let mut app = listed();
    assert_eq!(draw_list(&mut app, 0, 20, 0).len(), 3);
    assert!(!header_line().spans.is_empty());
    let (left, right) = status_lines(&app);
    assert!(!left.spans.is_empty() || !right.spans.is_empty());
}

#[test]
fn long_lists_are_drawn_at_the_edge_of_the_screen() {
    let (mut app, _) = App::new(Config::without_file());
    let names: Vec<String> = (0..300).map(|i| format!("p{i:03}")).collect();
    app.on_projects(Poll::Ready(Ok(names)));
    assert_eq!(draw_list(&mut app, 65_333, 202, 0).len(), 300);
    assert_eq!(app.row_hits.len(), 201);
    assert_eq!(draw_list(&mut app, 65_534, 1, 0).len(), 300);
    assert!(app.row_hits.is_empty());
}
