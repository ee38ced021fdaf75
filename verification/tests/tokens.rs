use syncnote::tokens::{gen_code, gen_temp_password, gen_token, hex_encode};

#[test]
fn hex_encoding() {
    let h: String = hex_encode(&[0x00, 0x0f, 0xa5, 0xff]).into_iter().collect();
    assert_eq!(h, "000fa5ff");
    let bytes = [1u8, 2, 250];
    let expected: String = bytes.iter().map(|b| format!("{b:02x}")).collect();
    assert_eq!(hex_encode(&bytes).into_iter().collect::<String>(), expected);
}

#[test]
fn tokens_are_48_hex_digits() {
    let t = gen_token();
    assert_eq!(t.len(), 48);
    assert!(t.chars().all(|c| c.is_ascii_digit() || ('a'..='f').contains(&c)));
    assert_ne!(gen_token(), t);
}

#[test]
fn codes_are_16_hex_digits() {
    let c = gen_code();
    assert_eq!(c.len(), 16);
    assert!(c.chars().all(|c| c.is_ascii_hexdigit() && !c.is_ascii_uppercase()));
}

#[test]
fn temp_passwords_are_12_alphanumerics() {
    let p = gen_temp_password();
    assert_eq!(p.chars().count(), 12);
    assert!(p.chars().all(|c| c.is_ascii_alphanumeric()));
}
