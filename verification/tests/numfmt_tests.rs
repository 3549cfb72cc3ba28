use snapshot_report::numfmt::{addr_str, avg_tenths, dec_str, dec_str_usize, one_decimal_str, percent_tenths};

#[test]
fn decimal_zero() {
    assert_eq!(dec_str(0).as_str(), "0");
}

#[test]
fn decimal_single_digit() {
    assert_eq!(dec_str(7).as_str(), "7");
}

#[test]
fn decimal_many_digits() {
    assert_eq!(dec_str(1234567890123456789).as_str(), "1234567890123456789");
    assert_eq!(dec_str_usize(1048576).as_str(), "1048576");
}

#[test]
fn hex_address_zero() {
    assert_eq!(addr_str(0).as_str(), "0x0");
}

#[test]
fn hex_address_digits() {
    assert_eq!(addr_str(0xdeadbeef).as_str(), "0xdeadbeef");
    assert_eq!(addr_str(0x2a).as_str(), "0x2a");
}

#[test]
fn one_decimal_rendering() {
    assert_eq!(one_decimal_str(0).as_str(), "0.0");
    assert_eq!(one_decimal_str(25).as_str(), "2.5");
    assert_eq!(one_decimal_str(1000).as_str(), "100.0");
    assert_eq!(one_decimal_str(7).as_str(), "0.7");
}

#[test]
fn percent_zero_denominator_is_zero() {
    assert_eq!(percent_tenths(0, 0), 0);
    assert_eq!(percent_tenths(5, 0), 0);
}

#[test]
fn percent_exact_values() {
    assert_eq!(percent_tenths(1, 2), 500);
    assert_eq!(percent_tenths(2, 3), 667);
    assert_eq!(percent_tenths(1, 3), 333);
    assert_eq!(percent_tenths(3, 3), 1000);
}

#[test]
fn average_zero_count_is_zero() {
    assert_eq!(avg_tenths(0, 0), 0);
}

#[test]
fn average_exact_values() {
    assert_eq!(avg_tenths(10, 4), 25);
    assert_eq!(avg_tenths(7, 2), 35);
    assert_eq!(avg_tenths(9, 3), 30);
}
