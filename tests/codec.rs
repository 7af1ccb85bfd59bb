use paddle_rust_sdk::codec::{decode_hex, push_decimal};

#[test]
fn decimal_rendering() {
    let mut out = b"x".to_vec();
    push_decimal(&mut out, -120);
    assert_eq!(out, b"x-120".to_vec());
    let mut out = Vec::new();
    push_decimal(&mut out, 0);
    assert_eq!(out, b"0".to_vec());
    let mut out = Vec::new();
    push_decimal(&mut out, i64::MIN);
    assert_eq!(out, b"-9223372036854775808".to_vec());
    let mut out = Vec::new();
    push_decimal(&mut out, 1671552777);
    assert_eq!(out, b"1671552777".to_vec());
}

#[test]
fn hex_decoding() {
    assert_eq!(decode_hex("eb4D00").unwrap(), vec![0xeb, 0x4d, 0x00]);
    assert_eq!(decode_hex("").unwrap(), Vec::<u8>::new());
    assert!(decode_hex("+f").is_err());
    assert!(decode_hex("abc").is_err());
    assert!(decode_hex("a").is_err());
    assert!(decode_hex("zz").is_err());
    assert!(decode_hex("0g").is_err());
    assert!(decode_hex("éa").is_err());
}
