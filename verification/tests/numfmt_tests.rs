use common_core_geometry::{format_fixed, format_u64};

#[test]
fn test_format_u64_zero() {
    assert_eq!(format_u64(0), "0");
}

#[test]
fn test_format_u64_single_digit() {
    assert_eq!(format_u64(7), "7");
}

#[test]
fn test_format_u64_many_digits() {
    assert_eq!(format_u64(1234567890), "1234567890");
    assert_eq!(format_u64(u64::MAX), "18446744073709551615");
}

#[test]
fn test_format_fixed_zero() {
    assert_eq!(format_fixed(0), "0.00");
}

#[test]
fn test_format_fixed_small_negative() {
    assert_eq!(format_fixed(-5), "-0.05");
}

#[test]
fn test_format_fixed_fraction_only() {
    assert_eq!(format_fixed(99), "0.99");
    assert_eq!(format_fixed(5), "0.05");
}

#[test]
fn test_format_fixed_whole_and_fraction() {
    assert_eq!(format_fixed(123456), "1234.56");
    assert_eq!(format_fixed(100), "1.00");
    assert_eq!(format_fixed(-100), "-1.00");
}

#[test]
fn test_format_fixed_extremes() {
    assert_eq!(format_fixed(i64::MAX), "92233720368547758.07");
    assert_eq!(format_fixed(i64::MIN), "-92233720368547758.08");
}

#[test]
fn test_format_fixed_matches_float_formatting() {
    // A count of hundredths renders exactly as the two-decimal formatting of
    // the value it stands for.
    for h in [-12345i64, -1, 0, 1, 99, 100, 101, 250000] {
        let expected = format!("{:.2}", h as f64 / 100.0);
        assert_eq!(format_fixed(h), expected);
    }
}
