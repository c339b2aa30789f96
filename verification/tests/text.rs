use skima_sidecar::text::{decimal_string, optional_number_string, signed_decimal_string};

#[test]
fn decimal_of_small_and_large_numbers() {
    assert_eq!(decimal_string(0), "0");
    assert_eq!(decimal_string(7), "7");
    assert_eq!(decimal_string(10), "10");
    assert_eq!(decimal_string(11420), "11420");
    assert_eq!(decimal_string(65535), "65535");
    assert_eq!(decimal_string(1234567890), "1234567890");
    assert_eq!(decimal_string(u64::MAX), "18446744073709551615");
}

#[test]
fn decimal_agrees_with_std_formatting() {
    let mut n: u64 = 0;
    while n < 5000 {
        assert_eq!(decimal_string(n), format!("{}", n));
        n += 1;
    }
}

#[test]
fn signed_decimal_puts_minus_before_magnitude() {
    assert_eq!(signed_decimal_string(0), "0");
    assert_eq!(signed_decimal_string(42), "42");
    assert_eq!(signed_decimal_string(-1), "-1");
    assert_eq!(signed_decimal_string(-130), "-130");
    assert_eq!(signed_decimal_string(i32::MAX), "2147483647");
    assert_eq!(signed_decimal_string(i32::MIN), "-2147483648");
}

#[test]
fn optional_number_reads_like_debug_output() {
    assert_eq!(optional_number_string(None), "None");
    assert_eq!(optional_number_string(Some(0)), "Some(0)");
    assert_eq!(optional_number_string(Some(-9)), "Some(-9)");
    assert_eq!(optional_number_string(Some(137)), format!("{:?}", Some(137)));
}
