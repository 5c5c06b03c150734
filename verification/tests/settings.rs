use greycat_zed::settings::{build_env, build_rust_log, level_from_setting, resolve_level};
use greycat_zed::text::str_equal;

fn json(text: &str) -> serde_json::Value {
    serde_json::from_str(text).unwrap()
}

#[test]
fn known_levels_are_kept() {
    for level in ["off", "info", "debug", "trace"] {
        assert_eq!(level_from_setting(Some(level)), level);
    }
}

#[test]
fn unknown_or_missing_level_is_info() {
    assert_eq!(level_from_setting(None), "info");
    assert_eq!(level_from_setting(Some("verbose")), "info");
    assert_eq!(level_from_setting(Some("DEBUG")), "info");
    assert_eq!(level_from_setting(Some("")), "info");
}

#[test]
fn level_is_read_from_settings_json() {
    assert_eq!(resolve_level(Some(&json(r#"{"level": "trace"}"#))), "trace");
    assert_eq!(resolve_level(Some(&json(r#"{"level": "off", "other": 1}"#))), "off");
    assert_eq!(resolve_level(Some(&json(r#"{"level": 3}"#))), "info");
    assert_eq!(resolve_level(Some(&json(r#"{"lvl": "debug"}"#))), "info");
    assert_eq!(resolve_level(Some(&json(r#"["debug"]"#))), "info");
    assert_eq!(resolve_level(None), "info");
}

#[test]
fn rust_log_targets_analyzer_crates() {
    assert_eq!(
        build_rust_log("debug"),
        "greycat_analyzer_server=debug,greycat_analyzer_core=debug,greycat_analyzer_analysis=debug"
    );
    assert_eq!(build_rust_log("off"), "off");
}

#[test]
fn env_has_backtrace_and_log() {
    assert_eq!(
        build_env("info"),
        vec![
            ("RUST_BACKTRACE".to_string(), "1".to_string()),
            (
                "RUST_LOG".to_string(),
                "greycat_analyzer_server=info,greycat_analyzer_core=info,greycat_analyzer_analysis=info".to_string()
            ),
        ]
    );
    assert_eq!(build_env("off")[1], ("RUST_LOG".to_string(), "off".to_string()));
}

#[test]
fn string_equality_is_exact() {
    assert!(str_equal("caf\u{e9}", "caf\u{e9}"));
    assert!(!str_equal("caf\u{e9}", "cafe"));
    assert!(!str_equal("ab", "abc"));
    assert!(str_equal("", ""));
}
