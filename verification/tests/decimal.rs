use request_counter::decimal::u32_to_dec;

#[test]
fn single_digits() {
    assert_eq!(u32_to_dec(0), "0");
    assert_eq!(u32_to_dec(7), "7");
    assert_eq!(u32_to_dec(9), "9");
}

#[test]
fn multiple_digits() {
    assert_eq!(u32_to_dec(10), "10");
    assert_eq!(u32_to_dec(42), "42");
    assert_eq!(u32_to_dec(123), "123");
    assert_eq!(u32_to_dec(1000000), "1000000");
}

#[test]
fn largest_value() {
    assert_eq!(u32_to_dec(u32::MAX), "4294967295");
}
