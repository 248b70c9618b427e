use tb_operator::format::{
    ago_secs, bool_label, day_of_week_label, duration_to_ms, format_bytes,
    format_device_code_lifetime, format_duration, format_expiry_seconds, format_login_expiry,
    humanize_key, is_http_url, millis_to_i64, percent, short_ts_str, sparkline, truncate,
};
use time::{Duration, OffsetDateTime};

#[test]
fn percent_handles_zero_denominator() {
    assert_eq!(percent(0, 0), "0%");
    assert_eq!(percent(3, 4), "75%");
    assert_eq!(percent(2, 2), "100%");
}

#[test]
fn sparkline_scales_and_handles_empty_max() {
    assert_eq!(sparkline(&[0, 0, 0]), "▁▁▁");
    let line = sparkline(&[0, 4, 8]);
    assert_eq!(line.chars().count(), 3);
    assert!(line.starts_with('▁'));
    assert!(line.ends_with('█'));
}

#[test]
fn format_bytes_uses_binary_units_with_one_decimal() {
    assert_eq!(format_bytes(500), "500 B");
    assert_eq!(format_bytes(1536), "1.5 KiB");
    assert_eq!(format_bytes(1_073_741_824), "1.0 GiB");
}

#[test]
fn format_login_expiry_counts_down_and_expires() {
    let now = OffsetDateTime::UNIX_EPOCH;

    assert_eq!(format_login_expiry(now + Duration::seconds(59), now), "59s");
    assert_eq!(
        format_login_expiry(now + Duration::seconds(60), now),
        "1m 00s"
    );
    assert_eq!(
        format_login_expiry(now + Duration::seconds(125), now),
        "2m 05s"
    );
    assert_eq!(format_login_expiry(now, now), "expired");
}

#[test]
fn format_duration_splits_minutes_and_pads_millis() {
    assert_eq!(format_duration(-1), "—");
    assert_eq!(format_duration(4_200), "4.200s");
    assert_eq!(format_duration(5), "0.005s");
    assert_eq!(format_duration(65_000), "1m 5s");
    assert_eq!(format_duration(3_599_999), "59m 59s");
}

#[test]
fn duration_to_ms_counts_whole_millis_and_saturates() {
    assert_eq!(duration_to_ms(std::time::Duration::from_millis(1_500)), 1_500);
    assert_eq!(duration_to_ms(std::time::Duration::from_secs(u64::MAX)), i64::MAX);
    assert_eq!(millis_to_i64(u128::MAX), i64::MAX);
    assert_eq!(millis_to_i64(7), 7);
}

#[test]
fn truncate_cuts_with_an_ellipsis() {
    assert_eq!(truncate("hello", 5), "hello");
    assert_eq!(truncate("hello world", 5), "hell…");
    assert_eq!(truncate("héllo", 2), "h…");
    assert_eq!(truncate("abc", 0), "…");
}

#[test]
fn day_labels_cover_the_week() {
    assert_eq!(day_of_week_label(0), "Sunday");
    assert_eq!(day_of_week_label(3), "Wednesday");
    assert_eq!(day_of_week_label(6), "Saturday");
    assert_eq!(day_of_week_label(7), "—");
}

#[test]
fn humanize_key_replaces_separators() {
    assert_eq!(humanize_key("no_answer"), "no answer");
    assert_eq!(humanize_key("hung-up_early"), "hung up early");
    assert_eq!(humanize_key("plain"), "plain");
}

#[test]
fn percent_saturates_huge_parts() {
    assert_eq!(percent(u64::MAX, 1), format!("{}%", u64::MAX));
    assert_eq!(percent(1, 3), "33%");
}

#[test]
fn sparkline_levels_scale_to_the_maximum() {
    assert_eq!(sparkline(&[]), "");
    assert_eq!(sparkline(&[1, 2, 7]), "▂▃█");
    assert_eq!(sparkline(&[u64::MAX]), "▂");
}

#[test]
fn short_ts_str_takes_the_clock_time() {
    assert_eq!(short_ts_str("2026-01-01T12:34:56Z"), "12:34:56");
    assert_eq!(short_ts_str("12:34"), "12:34");
    assert_eq!(short_ts_str("2026-01-01é12:34:56Z"), "2026-01-01é12:34:56Z");
    assert_eq!(short_ts_str("2026-01-01Té2:34:56Z"), "é2:34:5");
}

#[test]
fn bool_label_reads_on_and_off() {
    assert_eq!(bool_label(true), "on");
    assert_eq!(bool_label(false), "off");
}

#[test]
fn format_bytes_caps_at_pebibytes() {
    assert_eq!(format_bytes(0), "0 B");
    assert_eq!(format_bytes(1023), "1023 B");
    assert_eq!(format_bytes(1024), "1.0 KiB");
    assert_eq!(format_bytes(u64::MAX), "16383.9 PiB");
}

#[test]
fn ago_secs_phrases_ages() {
    assert_eq!(ago_secs(0), "just now");
    assert_eq!(ago_secs(42), "42s ago");
    assert_eq!(ago_secs(125), "2m 5s ago");
}

#[test]
fn device_code_lifetime_clamps_and_pads() {
    assert_eq!(format_device_code_lifetime(-5), "0s");
    assert_eq!(format_device_code_lifetime(59), "59s");
    assert_eq!(format_device_code_lifetime(600), "10m 00s");
    assert_eq!(format_device_code_lifetime(61), "1m 01s");
    assert_eq!(format_expiry_seconds(-3), "expired");
    assert_eq!(format_expiry_seconds(9), "9s");
}

#[test]
fn is_http_url_requires_a_scheme() {
    assert!(is_http_url("http://localhost:8080"));
    assert!(is_http_url("https://booth.example"));
    assert!(!is_http_url("ftp://booth"));
    assert!(!is_http_url("http:/x"));
    assert!(!is_http_url(""));
}
