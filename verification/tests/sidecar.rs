use greycat_zed::sidecar::{
    is_stale, json_string, last_check_from_fields, last_check_json, parse_last_check, LastCheck, LAST_CHECK_FILE,
    UPDATE_CHECK_INTERVAL_MS,
};
use greycat_zed::text::decimal_string;

#[test]
fn sidecar_file_name() {
    assert_eq!(LAST_CHECK_FILE, ".last-check.json");
    assert_eq!(UPDATE_CHECK_INTERVAL_MS, 24 * 60 * 60 * 1000);
}

#[test]
fn lookups_stay_fresh_for_a_day() {
    let day = 86_400_000u128;
    assert!(!is_stale(1_000, 1_000));
    assert!(!is_stale(1_000, 1_000 + day));
    assert!(is_stale(1_000, 1_001 + day));
    assert!(is_stale(1_000, 999));
    assert!(is_stale(0, u128::MAX));
}

#[test]
fn decimal_rendering() {
    assert_eq!(decimal_string(0), "0");
    assert_eq!(decimal_string(7), "7");
    assert_eq!(decimal_string(10), "10");
    assert_eq!(decimal_string(1_700_000_000_000), "1700000000000");
    assert_eq!(decimal_string(u128::MAX), u128::MAX.to_string());
}

#[test]
fn sidecar_is_written_with_quoted_tag() {
    let check = LastCheck { tag: Some("v0.1.4".to_string()), at_ms: 1_700_000_000_000 };
    assert_eq!(last_check_json(&check), r#"{"tag":"v0.1.4","at_ms":1700000000000}"#);
    let quoted = LastCheck { tag: Some("a\"b".to_string()), at_ms: 5 };
    assert_eq!(last_check_json(&quoted), r#"{"tag":"a\"b","at_ms":5}"#);
    let none = LastCheck { tag: None, at_ms: 0 };
    assert_eq!(last_check_json(&none), r#"{"tag":null,"at_ms":0}"#);
}

#[test]
fn sidecar_is_read_back() {
    let check = parse_last_check(r#"{"tag":"v0.1.4","at_ms":1700000000000}"#).unwrap();
    assert_eq!(check, LastCheck { tag: Some("v0.1.4".to_string()), at_ms: 1_700_000_000_000 });
    let written = last_check_json(&LastCheck { tag: Some("v2".to_string()), at_ms: 42 });
    assert_eq!(parse_last_check(&written), Some(LastCheck { tag: Some("v2".to_string()), at_ms: 42 }));
}

#[test]
fn sidecar_fields_fall_back() {
    assert_eq!(parse_last_check(r#"{"tag":null,"at_ms":"soon"}"#), Some(LastCheck { tag: None, at_ms: 0 }));
    assert_eq!(parse_last_check(r#"{"at_ms":-4}"#), Some(LastCheck { tag: None, at_ms: 0 }));
    assert_eq!(parse_last_check("[]"), Some(LastCheck { tag: None, at_ms: 0 }));
    assert_eq!(last_check_from_fields(Some("v1"), None), LastCheck { tag: Some("v1".to_string()), at_ms: 0 });
    assert_eq!(last_check_from_fields(None, Some(9)), LastCheck { tag: None, at_ms: 9 });
}

#[test]
fn broken_sidecar_reads_as_none() {
    assert_eq!(parse_last_check(""), None);
    assert_eq!(parse_last_check("{\"tag\":"), None);
    assert_eq!(parse_last_check("{} trailing"), None);
}

#[test]
fn tags_are_written_as_json_strings() {
    assert_eq!(json_string("v1"), "\"v1\"");
    assert_eq!(json_string("a\"b\\c"), "\"a\\\"b\\\\c\"");
    assert_eq!(json_string("\n\r\t\u{8}\u{c}"), "\"\\n\\r\\t\\b\\f\"");
    assert_eq!(json_string("\u{1b}[\u{0}"), "\"\\u001b[\\u0000\"");
    assert_eq!(json_string("caf\u{e9}\u{7f}"), "\"caf\u{e9}\u{7f}\"");
}

#[test]
fn any_tag_is_read_back() {
    for tag in ["v0.1.4", "v\u{7f}", "esc\u{1b}", "q\"uote\\", "line\nbreak", "caf\u{e9}", ""] {
        let check = LastCheck { tag: Some(tag.to_string()), at_ms: 1_700_000_000_000 };
        let written = last_check_json(&check);
        assert_eq!(parse_last_check(&written), Some(check));
    }
}
