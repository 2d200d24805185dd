use sync_service::text::{i64_to_decimal, usize_to_decimal};

#[test]
fn decimal_of_signed_values() {
    assert_eq!(i64_to_decimal(0), "0");
    assert_eq!(i64_to_decimal(7), "7");
    assert_eq!(i64_to_decimal(3650), "3650");
    assert_eq!(i64_to_decimal(-1), "-1");
    assert_eq!(i64_to_decimal(-120), "-120");
    assert_eq!(i64_to_decimal(i64::MIN), i64::MIN.to_string());
    assert_eq!(i64_to_decimal(i64::MAX), i64::MAX.to_string());
}

#[test]
fn decimal_of_counts() {
    assert_eq!(usize_to_decimal(0), "0");
    assert_eq!(usize_to_decimal(2001), "2001");
    assert_eq!(usize_to_decimal(usize::MAX), usize::MAX.to_string());
}
