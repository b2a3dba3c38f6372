use hashstar::hex::to_hex;

#[test]
fn hex_of_nothing_is_empty() {
    assert_eq!(to_hex(&[]), "");
}

#[test]
fn hex_pads_each_byte_to_two_digits() {
    assert_eq!(to_hex(&[0x00, 0x0f, 0xf0, 0xff, 0x12, 0xab]), "000ff0ff12ab");
}

#[test]
fn hex_puts_the_high_nibble_first() {
    assert_eq!(to_hex(&[0x1e]), "1e");
    assert_eq!(to_hex(&[0xe1]), "e1");
}

#[test]
fn hex_keeps_the_order_of_the_bytes() {
    assert_eq!(to_hex(&[0x01, 0x23, 0x45, 0x67, 0x89]), "0123456789");
    assert_eq!(to_hex(&[0x89, 0x67, 0x45, 0x23, 0x01]), "8967452301");
}

#[test]
fn hex_uses_lowercase_letters() {
    assert_eq!(to_hex(&[0xab, 0xcd, 0xef]), "abcdef");
}

#[test]
fn hex_of_every_byte_value() {
    for value in 0..=255u8 {
        assert_eq!(to_hex(&[value]), format!("{:02x}", value));
    }
}

#[test]
fn hex_is_twice_as_long_as_its_input() {
    let data: Vec<u8> = (0..=255u8).collect();
    let hex = to_hex(&data);
    assert_eq!(hex.len(), 512);
    assert!(hex.chars().all(|c| matches!(c, '0'..='9' | 'a'..='f')));
}
