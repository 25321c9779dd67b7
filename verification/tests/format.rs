use tshare::utility::format::{format_bytes, format_count, i64_to_string, u64_to_string};

#[test]
fn format_count_groups_thousands() {
    assert_eq!(format_count(565), "565");
    assert_eq!(format_count(1234567), "1،234،567");
}

#[test]
fn format_bytes_scales() {
    assert_eq!(format_bytes(512), "512 بایت");
    assert!(format_bytes(1536).ends_with("کیلو"));
    assert!(format_bytes(5 * 1024 * 1024).ends_with("مگ"));
    assert!(format_bytes(2 * 1024 * 1024 * 1024).ends_with("گیگ"));
}

#[test]
fn format_count_edges() {
    assert_eq!(format_count(0), "0");
    assert_eq!(format_count(1000), "1،000");
    assert_eq!(format_count(-1234), "-1،234");
    assert_eq!(format_count(999), "999");
    assert_eq!(format_count(i64::MIN), "-9،223،372،036،854،775،808");
    assert_eq!(format_count(i64::MAX), "9،223،372،036،854،775،807");
}

#[test]
fn format_bytes_exact_values() {
    assert_eq!(format_bytes(0), "0 بایت");
    assert_eq!(format_bytes(1023), "1،023 بایت");
    assert_eq!(format_bytes(1024), "1 کیلو");
    assert_eq!(format_bytes(1536), "1.5 کیلو");
    // 1280 / 1024 is exactly 1.25; with one fraction digit the tie goes to the even digit.
    assert_eq!(format_bytes(1280), "1.2 کیلو");
    assert_eq!(format_bytes(5 * 1024 * 1024), "5 مگ");
    assert_eq!(format_bytes(1024 * 1024 + 1024 * 1024 / 4), "1.25 مگ");
    assert_eq!(format_bytes(2 * 1024 * 1024 * 1024), "2 گیگ");
}

#[test]
fn format_bytes_matches_float_formatting() {
    for b in [1100u64, 2047, 4096, 10_000, 123_456, 1_048_575, 3_000_000, 999_999_999, 5_000_000_000, u64::MAX] {
        let (value, digits, unit) = if b < 1024 {
            (b as f64, 0usize, "بایت")
        } else if b < 1024 * 1024 {
            (b as f64 / 1024.0, 1, "کیلو")
        } else if b < 1024 * 1024 * 1024 {
            (b as f64 / (1024.0 * 1024.0), 2, "مگ")
        } else {
            (b as f64 / (1024.0 * 1024.0 * 1024.0), 2, "گیگ")
        };
        let rounded = format!("{value:.digits$}");
        let trimmed = rounded.trim_end_matches('0').trim_end_matches('.');
        assert_eq!(format_bytes(b), format!("{trimmed} {unit}"), "bytes {b}");
    }
}

#[test]
fn integers_as_text() {
    assert_eq!(u64_to_string(0), "0");
    assert_eq!(u64_to_string(18446744073709551615), "18446744073709551615");
    assert_eq!(i64_to_string(-42), "-42");
    assert_eq!(i64_to_string(i64::MIN), "-9223372036854775808");
}
