use rho_ui::formatting::{cap_head, cap_tail, format_secs, relative_time, relative_time_at};
use std::time::{SystemTime, UNIX_EPOCH};

#[test]
fn format_secs_whole_second() {
    assert_eq!(format_secs(1000), "1.0s");
}

#[test]
fn format_secs_fractional() {
    assert_eq!(format_secs(3200), "3.2s");
}

#[test]
fn format_secs_zero() {
    assert_eq!(format_secs(0), "0.0s");
}

#[test]
fn format_secs_large_value() {
    assert_eq!(format_secs(65500), "65.5s");
}

#[test]
fn format_secs_rounds_to_nearest_tenth() {
    assert_eq!(format_secs(3249), "3.2s");
    assert_eq!(format_secs(3251), "3.3s");
    assert_eq!(format_secs(999_960), "1000.0s");
}

#[test]
fn cap_head_short_string_unchanged() {
    assert_eq!(cap_head("hello", 100), "hello");
}

#[test]
fn cap_head_exact_length_unchanged() {
    assert_eq!(cap_head("hello", 5), "hello");
}

#[test]
fn cap_head_truncates_with_suffix() {
    assert_eq!(cap_head("hello world", 5), "hello\n\u{2026} (6 more chars)");
}

#[test]
fn cap_head_empty_string() {
    assert_eq!(cap_head("", 10), "");
}

#[test]
fn cap_head_multibyte_chars() {
    let value = "\u{1f600}\u{1f600}\u{1f600}";
    assert_eq!(cap_head(value, 10), value);
}

#[test]
fn cap_head_multibyte_truncation() {
    let value = "\u{1f600}\u{1f600}\u{1f600}\u{1f600}";
    assert_eq!(cap_head(value, 2), "\u{1f600}\u{1f600}\n\u{2026} (2 more chars)");
}

#[test]
fn cap_head_zero_cap_keeps_only_the_note() {
    assert_eq!(cap_head("abc", 0), "\n\u{2026} (3 more chars)");
}

#[test]
fn cap_tail_short_string_unchanged() {
    assert_eq!(cap_tail("hello", 100), "hello");
}

#[test]
fn cap_tail_exact_length_unchanged() {
    assert_eq!(cap_tail("hello", 5), "hello");
}

#[test]
fn cap_tail_truncates_with_prefix() {
    assert_eq!(cap_tail("hello world", 5), "\u{2026} (6 earlier chars)\nworld");
}

#[test]
fn cap_tail_empty_string() {
    assert_eq!(cap_tail("", 10), "");
}

#[test]
fn cap_tail_multibyte_chars() {
    let value = "\u{1f600}\u{1f600}\u{1f600}";
    assert_eq!(cap_tail(value, 10), value);
}

#[test]
fn cap_tail_multibyte_truncation() {
    let value = "\u{1f600}\u{1f600}\u{1f600}\u{1f600}";
    assert_eq!(cap_tail(value, 2), "\u{2026} (2 earlier chars)\n\u{1f600}\u{1f600}");
}

fn now_secs() -> u64 {
    SystemTime::now()
        .duration_since(UNIX_EPOCH)
        .map(|duration| duration.as_secs())
        .unwrap_or(0)
}

#[test]
fn relative_time_just_now() {
    assert_eq!(relative_time(now_secs()), "just now");
}

#[test]
fn relative_time_minutes_ago() {
    assert_eq!(relative_time(now_secs().saturating_sub(300)), "5m ago");
}

#[test]
fn relative_time_hours_ago() {
    assert_eq!(relative_time(now_secs().saturating_sub(7200)), "2h ago");
}

#[test]
fn relative_time_days_ago() {
    assert_eq!(relative_time(now_secs().saturating_sub(86_400 * 3)), "3d ago");
}

#[test]
fn relative_time_weeks_ago() {
    assert_eq!(relative_time(now_secs().saturating_sub(86_400 * 14)), "2w ago");
}

#[test]
fn relative_time_months_ago() {
    assert_eq!(relative_time(now_secs().saturating_sub(86_400 * 60)), "2mo ago");
}

#[test]
fn relative_time_future_timestamp() {
    assert_eq!(relative_time(now_secs() + 10_000), "just now");
}

#[test]
fn relative_time_at_boundaries() {
    assert_eq!(relative_time_at(1_000, 1_000 - 59), "just now");
    assert_eq!(relative_time_at(1_000, 1_000 - 60), "1m ago");
    assert_eq!(relative_time_at(10_000, 10_000 - 3599), "59m ago");
    assert_eq!(relative_time_at(10_000, 10_000 - 3600), "1h ago");
    assert_eq!(relative_time_at(1_000_000, 1_000_000 - 86_399), "23h ago");
    assert_eq!(relative_time_at(1_000_000, 1_000_000 - 86_400 * 7), "1w ago");
    assert_eq!(relative_time_at(10_000_000, 10_000_000 - 86_400 * 30), "1mo ago");
    assert_eq!(relative_time_at(5, 10), "just now");
}

fn float_secs(ms: u64) -> String {
    format!("{:.1}s", ms as f64 / 1000.0)
}

#[test]
fn format_secs_halves_follow_double_rounding() {
    assert_eq!(format_secs(150), "0.1s");
    assert_eq!(format_secs(150), float_secs(150));
    assert_eq!(format_secs(250), float_secs(250));
    assert_eq!(format_secs(350), float_secs(350));
    assert_eq!(format_secs(1150), float_secs(1150));
}

#[test]
fn format_secs_matches_double_formatting_small() {
    for ms in 0..300_000u64 {
        assert_eq!(format_secs(ms), float_secs(ms), "ms = {}", ms);
    }
}

#[test]
fn format_secs_matches_double_formatting_large() {
    let mut x: u64 = 0x9E37_79B9_7F4A_7C15;
    let mut samples: Vec<u64> = vec![u64::MAX, u64::MAX - 1, 1 << 53, (1 << 53) + 1, (1 << 53) - 1, 1 << 63, (1 << 60) + 50];
    for k in 0..64u32 {
        let p = 1u64 << k;
        samples.push(p);
        samples.push(p.wrapping_add(50));
        samples.push(p.wrapping_sub(1));
    }
    for _ in 0..100_000 {
        x = x.wrapping_mul(6364136223846793005).wrapping_add(1442695040888963407);
        samples.push(x >> (x % 64));
        samples.push((x >> (x % 64)) / 100 * 100 + 50);
    }
    for ms in samples {
        assert_eq!(format_secs(ms), float_secs(ms), "ms = {}", ms);
    }
}
