use volume_bot::text::{milli_to_dec, u64_to_dec, u64_to_hex};

#[test]
fn test_decimal_rendering() {
    assert_eq!(u64_to_dec(0), "0");
    assert_eq!(u64_to_dec(7), "7");
    assert_eq!(u64_to_dec(1234), "1234");
    assert_eq!(u64_to_dec(u64::MAX), "18446744073709551615");
}

#[test]
fn test_hexadecimal_rendering() {
    assert_eq!(u64_to_hex(0), "0");
    assert_eq!(u64_to_hex(255), "ff");
    assert_eq!(u64_to_hex(0xdead_beef), "deadbeef");
}

#[test]
fn test_milli_rendering() {
    assert_eq!(milli_to_dec(0), "0.000");
    assert_eq!(milli_to_dec(1_970_000), "1970.000");
    assert_eq!(milli_to_dec(98_500), "98.500");
    assert_eq!(milli_to_dec(405), "0.405");
    assert_eq!(milli_to_dec(-1_500), "-1.500");
    assert_eq!(milli_to_dec(i64::MIN), "-9223372036854775.808");
}
