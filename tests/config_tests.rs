use rust_nexus::config::{u32_setting, u64_setting, DatabaseConfig};

#[test]
fn config_defaults_apply_when_absent() {
    let c = DatabaseConfig::from_settings("postgres://x".to_string(), None, None, None, None, None);
    assert_eq!(c.url, "postgres://x");
    assert_eq!(c.max_connections, 100);
    assert_eq!(c.min_connections, 10);
    assert_eq!(c.acquire_timeout_secs, 5);
    assert_eq!(c.idle_timeout_secs, 600);
    assert_eq!(c.max_lifetime_secs, 1800);
    assert!(c.test_before_acquire);
}

#[test]
fn config_values_parse_or_fall_back() {
    let c = DatabaseConfig::from_settings(
        "u".to_string(),
        Some("250".to_string()),
        Some("x".to_string()),
        Some("+7".to_string()),
        Some(" 9".to_string()),
        Some("3600".to_string()),
    );
    assert_eq!(c.max_connections, 250);
    assert_eq!(c.min_connections, 10);
    assert_eq!(c.acquire_timeout_secs, 7);
    assert_eq!(c.idle_timeout_secs, 600);
    assert_eq!(c.max_lifetime_secs, 3600);
}

#[test]
fn settings_reject_out_of_range_and_signs() {
    assert_eq!(u32_setting(&Some("4294967295".to_string()), 1), 4294967295);
    assert_eq!(u32_setting(&Some("4294967296".to_string()), 1), 1);
    assert_eq!(u32_setting(&Some("-3".to_string()), 1), 1);
    assert_eq!(u32_setting(&Some("".to_string()), 1), 1);
    assert_eq!(u64_setting(&Some("18446744073709551615".to_string()), 2), u64::MAX);
    assert_eq!(u64_setting(&Some("+".to_string()), 2), 2);
}
