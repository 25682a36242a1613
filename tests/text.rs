use agpui::text::{digits_text, int_text};

#[test]
fn decimal_of_zero() {
    assert_eq!(int_text(0), "0");
    assert_eq!(digits_text(0), "0");
}

#[test]
fn decimal_of_positive_values() {
    assert_eq!(int_text(7), "7");
    assert_eq!(int_text(42), "42");
    assert_eq!(int_text(4999), "4999");
    assert_eq!(digits_text(1000), "1000");
    assert_eq!(digits_text(u64::MAX), "18446744073709551615");
}

#[test]
fn decimal_of_negative_values() {
    assert_eq!(int_text(-7), "-7");
    assert_eq!(int_text(-120), "-120");
    assert_eq!(int_text(i64::MIN), "-9223372036854775808");
    assert_eq!(int_text(i64::MAX), "9223372036854775807");
}

#[test]
fn decimal_matches_display() {
    for i in [-1_000_001i64, -10, -9, -1, 0, 1, 9, 10, 99, 100, 65_536, 1_000_000_007] {
        assert_eq!(int_text(i), i.to_string());
    }
}
