use pingo::hex::encode;

#[test]
fn hex_encode_renders_two_lower_case_digits_per_byte() {
    assert_eq!(encode(&[0x00, 0x0f, 0xa5, 0xff]), "000fa5ff");
    assert_eq!(encode(&[]), "");
}
