//! What the browsers share.

use mnml_aws::clock::{is_later, moment_text, span_text, Moment};
use mnml_aws::command::{aws_args, launched_status, read_aws_reply, tail_launch_of, Ran};
use mnml_aws::json::{
    from_value, json_text, parse_json, read_json, remove_member, set_member, to_value, Json,
};
use mnml_aws::keys::{clamp_selection, common_of, keep_selection, Common, Key};
use mnml_aws::numeral::{
    byte_count_text, dec, dec_padded, hex, parse_i64, parse_u32, parse_u64,
};
use mnml_aws::offsets::{is_boundary, take_bytes};
use mnml_aws::order::{name_before, sort_texts};
use mnml_aws::paging::Pages;
use mnml_aws::rows::{clamp_scroll, find_row, split_status};
use mnml_aws::table::{table_of, KeySet, Table};
use mnml_aws::tabs::{first_row, tab_labels, ListTab, TabState};
use mnml_aws::text::{
    join, last_piece, lines, pad_right, split, split_words, strip_prefix, trim,
};
use mnml_aws::url::urlencode_path;

#[test]
fn numbers_are_read_as_they_are_written() {
    for n in [0, 1, 9, 10, 1234567890, u64::MAX] {
        assert_eq!(dec(n), format!("{n}"));
        assert_eq!(parse_u64(&dec(n)), Some(n));
    }
    assert!(dec(12) != dec(21));
    assert_eq!(dec_padded(7, 2), "07");
    assert_eq!(hex(0x2f), "2F");
}

#[test]
fn what_is_no_number_is_not_read() {
    for s in ["", "x", "1x", " 1", "-1", "18446744073709551616"] {
        assert_eq!(parse_u64(s), s.parse::<u64>().ok());
    }
    assert_eq!(parse_u64("+1"), Some(1));
    assert_eq!(parse_u32("4294967296"), None);
    assert_eq!(parse_i64("-12"), Some(-12));
    assert_eq!(parse_i64("--1"), None);
}

#[test]
fn counts_of_bytes_are_rounded_as_printed() {
    for n in [1024u64, 1100, 1587, 1588, 1_048_575, 1_048_576, 5_000_000_000] {
        let unit = [(1u64 << 30, "GB"), (1 << 20, "MB"), (1 << 10, "KB")];
        let (size, name) = unit.into_iter().find(|(s, _)| n >= *s).unwrap();
        assert_eq!(byte_count_text(n), format!("{:.1} {}", n as f64 / size as f64, name));
    }
}

#[test]
fn json_goes_through_the_reader() {
    let v = read_json(r#"{"b": {"c": [1, -2.5, "x"]}, "a": null}"#).ok().unwrap();
    assert_eq!(v.get("b").unwrap().array_at("c").unwrap().len(), 3);
    assert!(matches!(v.get("a"), Some(Json::Null)));
    assert!(v.get("z").is_none());
    assert_eq!(json_text(&v), r#"{"a":null,"b":{"c":[1,-2.5,"x"]}}"#);
    assert!(read_json("{").is_err());
    assert!(parse_json("{").is_none());
    assert_eq!(json_text(&v.copy()), json_text(&v));
}

#[test]
fn members_are_set_and_taken_away() {
    let mut m = vec![("a".to_string(), Json::Null), ("b".to_string(), Json::Bool(true))];
    set_member(&mut m, "a", Json::Text("x".into()));
    set_member(&mut m, "c", Json::Null);
    assert_eq!(m.len(), 3);
    remove_member(&mut m, "b");
    let v = Json::Object(m);
    assert_eq!(v.text_at("a").as_deref(), Some("x"));
    assert!(v.get("b").is_none());
    assert!(v.get("c").is_some());
    assert_eq!(v.text_or("z", "?"), "?");
}

#[test]
fn the_minute_of_a_time() {
    let m = Moment { secs: 0, rank: 0, raw: "0".into() };
    assert_eq!(moment_text(&m), "1970-01-01 00:00");
    let later = Moment { secs: 1, rank: 1, raw: "1".into() };
    assert!(is_later(&Some(later), &Some(m)));
    assert_eq!(span_text(90), "1m 30s");
}

#[test]
fn replies_of_aws() {
    assert!(read_aws_reply("x", &Ran::Done("[1]".into())).is_ok());
    assert_eq!(read_aws_reply("x", &Ran::Failed(" no ".into())).err().unwrap(), "aws x → no");
    assert_eq!(
        aws_args(&vec!["s3".to_string()], Some("r")),
        vec!["--region", "r", "s3", "--output", "json"]
    );
    let l = tail_launch_of("/g", "n", None, "done".into());
    assert_eq!(l.args, vec!["--log-group", "/g", "--log-group-name", "n"]);
    assert_eq!(launched_status(&l, &Ok(())), "done");
    assert!(launched_status(&l, &Err("e".into())).ends_with("e"));
}

#[test]
fn a_selection_ends_on_a_row() {
    assert_eq!(clamp_selection(2, 1, 3), 2);
    assert_eq!(clamp_selection(2, -9, 3), 0);
    assert_eq!(clamp_selection(usize::MAX, isize::MAX, 3), 2);
    assert_eq!(keep_selection(5, 3), 2);
    assert_eq!(keep_selection(5, 0), 0);
}

#[test]
fn keys_that_every_browser_knows() {
    for (c, what) in [
        ('q', Common::Quit),
        ('k', Common::Move(-1)),
        ('j', Common::Move(1)),
        ('r', Common::Refresh),
        ('o', Common::Open),
        ('1', Common::Tab(0)),
        ('9', Common::Tab(8)),
        ('0', Common::Other),
        ('c', Common::Other),
    ] {
        assert_eq!(common_of(Key::Char(c), false, 1, 3), what);
    }
    assert_eq!(common_of(Key::Char('c'), true, 1, 3), Common::Quit);
    assert_eq!(common_of(Key::PageDown, false, 1, 3), Common::Move(10));
    assert_eq!(common_of(Key::Enter, false, 1, 3), Common::Open);
}

#[test]
fn the_next_tab_and_back() {
    for active in 0..3 {
        let Common::Tab(next) = common_of(Key::Tab, false, active, 3) else {
            panic!("no tab");
        };
        assert_eq!(next, (active + 1) % 3);
        assert_eq!(common_of(Key::BackTab, false, next, 3), Common::Tab(active));
    }
}

#[test]
fn fractions_stay_as_they_are() {
    let v = read_json(r#"[1786912499.25, -7, 18446744073709551615]"#).ok().unwrap();
    assert_eq!(json_text(&v), "[1786912499.25,-7,18446744073709551615]");
    // 31.24527019143944, read again, would be another number.
    let digits = "31.2452701914394382";
    let plain: serde_json::Value = serde_json::from_str(digits).unwrap();
    assert_eq!(json_text(&read_json(digits).ok().unwrap()), plain.to_string());
    assert_eq!(plain.to_string(), "31.245270191439438");
}

#[test]
fn texts_are_sorted() {
    let v = ["b", "a", "c", "a"].iter().map(|s| s.to_string()).collect::<Vec<_>>();
    assert_eq!(sort_texts(v), vec!["a", "a", "b", "c"]);
    assert!(name_before("Ab", "b"));
    assert!(name_before("äa", "ÄB"));
    assert!(!name_before("ÄB", "äa"));
}

#[test]
fn pages_are_read_to_the_end() {
    let mut p: Pages<u8> = Pages::new();
    assert!(!p.done);
    p.take(vec![1], Some("t".into()));
    assert_eq!(p.token.as_deref(), Some("t"));
    assert!(!p.done);
    p.take(vec![2], Some("".into()));
    assert!(p.done);
    assert_eq!(p.items, vec![1, 2]);
    let mut q: Pages<u8> = Pages::new();
    q.take_up_to(vec![1, 2], Some("t".into()), 2);
    assert!(q.done);
}

#[test]
fn scrolling_stops_at_the_end() {
    assert_eq!(clamp_scroll(100, 10, 4), 6);
    assert_eq!(clamp_scroll(3, 10, 4), 3);
    assert_eq!(clamp_scroll(3, 2, 4), 0);
    assert_eq!(find_row(&vec![(0, 1, 2), (1, 2, 4)], 3), Some(1));
    assert_eq!(find_row(&vec![(0, 1, 2)], 9), None);
    let (a, b) = split_status(&None, 80);
    assert!(a + b <= 80);
}

#[test]
fn tables_hold_the_last_value() {
    let mut t: Table<String, u8> = Table::new();
    t.insert("a".into(), 1);
    t.insert("a".into(), 2);
    assert_eq!(t.len(), 1);
    assert_eq!(t.get(&"a".to_string()), Some(&2));
    t.remove(&"a".to_string());
    assert!(!t.contains(&"a".to_string()));
    let mut s: KeySet<(String, String)> = KeySet::new();
    let k = ("a".to_string(), "b".to_string());
    s.insert(k.clone());
    s.insert(k.clone());
    assert_eq!(s.len(), 1);
    s.remove(&k);
    assert!(!s.contains(&k));
    let two = table_of(vec![("a".into(), "1".into()), ("a".into(), "2".into())]);
    assert_eq!(two.get(&"a".to_string()).map(|s| s.as_str()), Some("2"));
}

#[test]
fn the_selected_row_is_on_the_screen() {
    for selected in 0..50 {
        let first = first_row(selected, 50, 7);
        assert!(first <= selected && selected < first + 7);
        assert!(first + 7 <= 50);
    }
    assert_eq!(first_row(3, 5, 7), 0);
}

#[test]
fn a_list_keeps_its_items_when_loading_fails() {
    let mut l: ListTab<u8> = ListTab::empty();
    assert!(l.is_stale(10, 0));
    l.finish(Ok(vec![1, 2, 3]), 1_000);
    assert!(!l.is_stale(10, 1_000));
    assert!(l.is_stale(10, 11_000));
    assert!(!l.is_stale(10, 0));
    l.move_selection(5);
    assert_eq!(l.focused(), Some(&3));
    l.finish(Err("e".into()), 2_000);
    assert_eq!(l.items.len(), 3);
    l.finish(Ok(vec![9]), 3_000);
    assert_eq!(l.selected, 0);
    let tabs = vec![TabState { name: "n".to_string(), spec: (), data: l }];
    assert_eq!(tab_labels(&tabs), vec!["1.n (1)"]);
}

#[test]
fn texts_are_taken_apart() {
    assert_eq!(split("a,,b", ','), "a,,b".split(',').collect::<Vec<_>>());
    assert_eq!(split_words(" a  b\t"), " a  b\t".split_whitespace().collect::<Vec<_>>());
    assert_eq!(lines("a\r\nb\n"), "a\r\nb\n".lines().collect::<Vec<_>>());
    assert_eq!(trim(" \u{3000}x\n"), " \u{3000}x\n".trim());
    assert_eq!(last_piece("a/b/", '/'), "");
    assert_eq!(join(&vec!["a".into(), "b".into()], ", "), "a, b");
    assert_eq!(strip_prefix("abc", "ab").as_deref(), Some("c"));
    assert_eq!(pad_right("ä", 3), format!("{:<3}", "ä"));
}

#[test]
fn bytes_are_taken_at_boundaries_only() {
    assert_eq!(take_bytes("äb", 2), Some("ä"));
    assert_eq!(take_bytes("äb", 1), None);
    assert_eq!(take_bytes("äb", 9), None);
    assert!(is_boundary("äb", 3));
}

#[test]
fn addresses_are_encoded() {
    assert_eq!(urlencode_path("a b/c"), "a%20b/c");
}

#[test]
fn written_values_are_filed_by_name() {
    let j = Json::Object(vec![
        ("b".into(), Json::Bool(true)),
        ("a".into(), Json::Array(vec![Json::Null, Json::Text("x".into())])),
        ("b".into(), Json::Bool(false)),
    ]);
    assert_eq!(json_text(&j), r#"{"a":[null,"x"],"b":false}"#);
    assert_eq!(to_value(&j)["b"], serde_json::Value::Bool(false));
    let back = from_value(to_value(&j));
    assert_eq!(json_text(&back), json_text(&j));
    assert_eq!(to_value(&back), to_value(&j));
}

#[test]
fn a_removed_name_is_gone() {
    let mut m = vec![
        ("a".to_string(), Json::Null),
        ("b".to_string(), Json::Bool(true)),
        ("a".to_string(), Json::Bool(false)),
    ];
    remove_member(&mut m, "a");
    assert_eq!(json_text(&Json::Object(m)), r#"{"b":true}"#);
}

#[test]
fn an_empty_token_can_name_a_page() {
    let mut p: Pages<u8> = Pages::new();
    p.take_as_named(vec![1], Some("".into()));
    assert!(!p.done);
    assert_eq!(p.token.as_deref(), Some(""));
    p.take_as_named(vec![2, 3], None);
    assert!(p.done);
    assert_eq!(p.items, vec![1, 2, 3]);
}
