use mcli::numfmt::u16_to_string;
use mcli::numfmt::u32_to_string;

#[test]
fn decimal_single_digits() {
    assert_eq!(u32_to_string(0), "0");
    assert_eq!(u32_to_string(7), "7");
    assert_eq!(u32_to_string(9), "9");
}

#[test]
fn decimal_multi_digit() {
    assert_eq!(u32_to_string(10), "10");
    assert_eq!(u32_to_string(854), "854");
    assert_eq!(u32_to_string(1_000_000), "1000000");
    assert_eq!(u32_to_string(u32::MAX), "4294967295");
}

#[test]
fn decimal_ports() {
    assert_eq!(u16_to_string(0), "0");
    assert_eq!(u16_to_string(25565), "25565");
    assert_eq!(u16_to_string(u16::MAX), "65535");
}
