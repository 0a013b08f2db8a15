//! The logs browser.

use mnml_aws::cloudwatch_logs::app::{urlencode, App, Batch, TabSpec, KEPT};
use mnml_aws::cloudwatch_logs::config::{Config, Tab};
use mnml_aws::cloudwatch_logs::keys::{handle, Action};
use mnml_aws::keys::{Common, Key};
use mnml_aws::cloudwatch_logs::log_tail::{
    complained, spawn_error, LineSeverity, LogTailEvent, LogTailPane, DEFAULT_CAPACITY,
};
use mnml_aws::cloudwatch_logs::ui::{draw_logs, draw_status, tab_labels, LogsPane};

fn tab(group: &str) -> Tab {
    Tab {
        name: "t".into(),
        log_group: group.into(),
        log_stream: None,
        region: None,
        filter: None,
    }
}

fn running() -> App {
    let cfg = Config {
        region: Some("eu-west-1".into()),
        refresh_interval_secs: 0,
        tabs: vec![tab("/aws/lambda/x"), tab("/g")],
    };
    let (mut app, args) = App::new(cfg).ok().unwrap();
    assert!(args.is_some());
    app.tailed(Ok(()));
    app
}

fn line(s: &str) -> LogTailEvent {
    LogTailEvent::Line(s.into())
}

#[test]
fn tab_spec_rejects_empty_log_group() {
    let t = Tab {
        name: "bad".into(),
        log_group: "".into(),
        log_stream: None,
        region: None,
        filter: None,
    };
    assert!(TabSpec::resolve(&t, None).is_err());
}

#[test]
fn urlencode_escapes_slash_correctly() {
    let s = urlencode("/aws/lambda/my-func");
    assert!(s.contains("$252F"));
    assert!(!s.contains('/'));
    assert_eq!(s, "$252Faws$252Flambda$252Fmy-func");
}

#[test]
fn one_off_tab_derives_label_from_last_path_segment() {
    let cfg = Config::one_off_tab("/aws/lambda/api-handler".to_string(), None, None, None);
    assert_eq!(cfg.tabs.len(), 1);
    assert_eq!(cfg.tabs[0].name, "api-handler");
    assert_eq!(cfg.tabs[0].log_group, "/aws/lambda/api-handler");
}

#[test]
fn one_off_tab_uses_explicit_name_when_given() {
    let cfg = Config::one_off_tab(
        "/aws/lambda/x".to_string(),
        Some("My Lambda".to_string()),
        None,
        None,
    );
    assert_eq!(cfg.tabs[0].name, "My Lambda");
}

#[test]
fn one_off_tab_threads_filter_and_region() {
    let cfg = Config::one_off_tab(
        "/g".to_string(),
        None,
        Some("ERROR".to_string()),
        Some("us-west-2".to_string()),
    );
    assert_eq!(cfg.region.as_deref(), Some("us-west-2"));
    assert_eq!(cfg.tabs[0].filter.as_deref(), Some("ERROR"));
    assert_eq!(cfg.tabs[0].region.as_deref(), Some("us-west-2"));
}

#[test]
fn one_off_tab_validates_clean() {
    let cfg = Config::one_off_tab("/x".to_string(), None, None, None);
    assert!(cfg.validate().is_ok(), "one-off tab must validate");
}

#[test]
fn rejects_empty_log_group() {
    let cfg = Config {
        region: None,
        refresh_interval_secs: 0,
        tabs: vec![Tab {
            name: "bad".into(),
            log_group: "".into(),
            log_stream: None,
            region: None,
            filter: None,
        }],
    };
    assert!(cfg.validate().is_err());
}

#[test]
fn classify_picks_severity() {
    assert_eq!(LineSeverity::classify("[ERROR] something broke"), LineSeverity::Error);
    assert_eq!(LineSeverity::classify("WARNING: rate limit approaching"), LineSeverity::Warn);
    assert_eq!(LineSeverity::classify("[INFO] connected"), LineSeverity::Info);
    assert_eq!(LineSeverity::classify("[DEBUG] handshake bytes"), LineSeverity::Debug);
    assert_eq!(LineSeverity::classify("plain text with no tags"), LineSeverity::Plain);
    // Exception keyword in the middle of a stack trace still hits.
    assert_eq!(LineSeverity::classify("    at /usr/lib... raised Exception"), LineSeverity::Error);
    // panicked-at hits.
    assert_eq!(
        LineSeverity::classify("thread 'foo' panicked at src/lib.rs:42:5"),
        LineSeverity::Error
    );
}

#[test]
fn plain_words_are_known_in_any_case() {
    assert_eq!(LineSeverity::classify("an exception was raised"), LineSeverity::Error);
    assert_eq!(LineSeverity::classify("PANIC: at the disco"), LineSeverity::Error);
    assert_eq!(LineSeverity::classify(""), LineSeverity::Plain);
}

#[test]
fn push_line_classifies_and_caps_capacity() {
    let mut p = LogTailPane {
        log_group: "g".into(),
        log_stream: Some("s".into()),
        lines: Vec::new(),
        scroll: usize::MAX,
        capacity: 3,
    };
    p.push_line("[ERROR] bad".into());
    p.push_line("[INFO] hi".into());
    p.push_line("plain".into());
    p.push_line("[WARN] mild".into());
    // Capacity 3 → first entry dropped.
    assert_eq!(p.lines.len(), 3);
    assert_eq!(p.lines[0].text, "[INFO] hi");
    assert_eq!(p.lines[2].severity, LineSeverity::Warn);
}

#[test]
fn a_reader_keeps_the_line() {
    let (mut p, _) = LogTailPane::spawn_with_filter("g".into(), None, None, None);
    assert_eq!(p.capacity, DEFAULT_CAPACITY);
    p.capacity = 3;
    for s in ["a", "b", "c"] {
        p.push_line(s.into());
    }
    p.scroll = 1;
    p.push_line("d".into());
    assert_eq!(p.scroll, 0);
    assert_eq!(p.lines[p.scroll].text, "b");
    p.scroll = usize::MAX;
    p.push_line("e".into());
    assert_eq!(p.scroll, usize::MAX);
}

#[test]
fn arguments_of_a_tail() {
    let (_, args) = LogTailPane::spawn_with_filter(
        "/g".into(),
        Some("s".into()),
        Some("ERROR".into()),
        Some("eu-west-1".into()),
    );
    assert!(args.contains(&"/g".to_string()));
    for pair in [("--log-stream-names", "s"), ("--filter-pattern", "ERROR"), ("--region", "eu-west-1")] {
        let at = args.iter().position(|a| a == pair.0).unwrap();
        assert_eq!(args[at + 1], pair.1);
    }
    let (_, args) = LogTailPane::spawn_with_filter("/g".into(), None, None, None);
    assert!(!args.iter().any(|a| a == "--region"));
}

#[test]
fn complaints_of_a_tail() {
    assert!(complained(&vec![]).is_none());
    match complained(&vec!["x".to_string(), "denied".to_string()]) {
        Some(LogTailEvent::Failed(e)) => assert!(e.contains("denied")),
        _ => panic!("a failure is reported"),
    }
    assert!(spawn_error("no such file").contains("no such file"));
}

#[test]
fn lines_arrive_and_no_more_than_enough_are_kept() {
    let mut app = running();
    assert!(!app.drain(vec![Batch { events: vec![], closed: false }]));
    assert!(app.drain(vec![Batch { events: vec![line("[WARN] a"), line("b")], closed: false }]));
    let pane = app.active().data.pane.as_ref().unwrap();
    assert_eq!(pane.lines.len(), 2);
    assert_eq!(pane.lines[0].severity, LineSeverity::Warn);
    let many = (0..KEPT + 10).map(|i| line(&format!("{i}"))).collect::<Vec<_>>();
    assert!(app.drain(vec![Batch { events: many, closed: false }]));
    let pane = app.active().data.pane.as_ref().unwrap();
    assert_eq!(pane.lines.len(), KEPT);
    assert_eq!(pane.lines[KEPT - 1].text, format!("{}", KEPT + 9));
}

#[test]
fn a_tail_that_fails_or_ends() {
    let mut app = running();
    assert!(app.drain(vec![Batch { events: vec![LogTailEvent::Failed("no".into())], closed: false }]));
    assert_eq!(app.active().data.last_error.as_deref(), Some("no"));
    match draw_logs(app.active(), 10) {
        LogsPane::Message { text, .. } => assert!(text.contains("no")),
        LogsPane::Log { .. } => panic!("the error is shown"),
    }
    let mut app = running();
    app.drain(vec![Batch { events: vec![LogTailEvent::Exited], closed: true }]);
    assert!(!app.active().data.pending);
}

#[test]
fn a_tail_that_does_not_start() {
    let cfg = Config::one_off_tab("/x".to_string(), None, None, None);
    let (mut app, args) = App::new(cfg).ok().unwrap();
    assert!(args.is_some());
    app.tailed(Err("no aws".into()));
    assert!(app.active().data.last_error.as_deref().unwrap().contains("no aws"));
}

#[test]
fn scrolling_and_following() {
    let mut app = running();
    app.drain(vec![Batch { events: vec![line("a"), line("b"), line("c")], closed: false }]);
    app.move_selection(-1);
    assert!(app.active().data.pane.as_ref().unwrap().scroll < 3);
    app.move_selection(100);
    assert_eq!(app.active().data.pane.as_ref().unwrap().scroll, usize::MAX);
    match draw_logs(app.active(), 3) {
        LogsPane::Log { lines, .. } => {
            let last = lines.last().unwrap();
            assert!(last.spans.iter().any(|s| s.text.contains('c')));
        },
        LogsPane::Message { .. } => panic!("lines are shown"),
    }
}

#[test]
fn console_page_of_a_group() {
    let mut app = running();
    let url = app.open_console();
    assert!(url.starts_with("https://eu-west-1.console.aws.amazon.com/cloudwatch/home?region=eu-west-1"));
    assert!(url.contains("$252Faws$252Flambda$252Fx"));
    app.opened(&url, &Ok(()));
    assert_eq!(app.status, format!("opened {url}"));
    app.opened(&url, &Err("e".into()));
    assert_eq!(app.status, "open failed: e");
}

#[test]
fn the_focused_line_is_copied() {
    let mut app = running();
    assert!(app.yank_focused_line().is_none());
    app.drain(vec![Batch { events: vec![line("a"), line("b")], closed: false }]);
    let l = app.yank_focused_line().unwrap();
    assert_eq!(l, "b");
    app.line_copied(&l, &Err("e".into()));
    assert_eq!(app.status, "copy failed: e");
}

#[test]
fn tabs_are_started_when_they_are_shown() {
    let mut app = running();
    assert!(app.switch_tab(1).is_some());
    assert_eq!(app.active_tab, 1);
    app.tailed(Ok(()));
    assert!(app.switch_tab(0).is_none());
    assert!(app.switch_tab(7).is_none());
    assert_eq!(app.active_tab, 0);
    assert_eq!(tab_labels(&app).len(), 2);
    assert!(draw_status(&app).spans.len() >= 2);
}

#[test]
fn keys_of_the_logs() {
    let app = running();
    assert_eq!(handle(Key::Char('y'), false, &app), Some(Action::YankLine));
    assert_eq!(handle(Key::Char('x'), false, &app), None);
    assert_eq!(handle(Key::Char('j'), false, &app), Some(Action::Common(Common::Move(1))));
    assert_eq!(handle(Key::Char('c'), true, &app), Some(Action::Common(Common::Quit)));
}
