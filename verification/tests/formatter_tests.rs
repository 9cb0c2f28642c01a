use uberbyte::UberByte;

#[test]
fn bit_formatter() {
    let my_bit = UberByte::from(0b_1001_1001);

    assert_eq!(String::from("10011001"), my_bit.to_binary_string());
}

#[test]
fn lowerhex_formatter() {
    let my_bit = UberByte::from(0b_1101_1001);

    assert_eq!(String::from("d9"), my_bit.to_lower_hex_string());
}

#[test]
fn upperhex_formatter() {
    let my_bit = UberByte::from(0b_1101_1001);

    assert_eq!(String::from("D9"), my_bit.to_upper_hex_string());
}

#[test]
fn octa_formatter() {
    let my_bit = UberByte::from(0b_1001_1001);

    assert_eq!(String::from("231"), my_bit.to_octal_string());
}

#[test]
fn decimal_formatter() {
    assert_eq!(String::from("217"), UberByte::from(0b_1101_1001).to_decimal_string());
    assert_eq!(String::from("42"), UberByte::from(42).to_decimal_string());
}

#[test]
fn formats_of_zero() {
    let zero = UberByte::min_value();

    assert_eq!(String::from("0"), zero.to_binary_string());
    assert_eq!(String::from("0"), zero.to_octal_string());
    assert_eq!(String::from("0"), zero.to_decimal_string());
    assert_eq!(String::from("0"), zero.to_lower_hex_string());
    assert_eq!(String::from("0"), zero.to_upper_hex_string());
}

#[test]
fn formats_of_full_byte() {
    let full = UberByte::max_value();

    assert_eq!(String::from("11111111"), full.to_binary_string());
    assert_eq!(String::from("377"), full.to_octal_string());
    assert_eq!(String::from("255"), full.to_decimal_string());
    assert_eq!(String::from("ff"), full.to_lower_hex_string());
    assert_eq!(String::from("FF"), full.to_upper_hex_string());
}
