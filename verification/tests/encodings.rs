use hwmr::encoding::{decode_base64_standard, hex_encode};
use hwmr::json::json_string_of;

#[test]
fn hex_text() {
    assert_eq!(hex_encode(&[0x00, 0x0f, 0xa5, 0xff]), "000fa5ff");
    assert_eq!(hex_encode(&[]), "");
}

#[test]
fn standard_base64_decoding() {
    assert_eq!(decode_base64_standard("aGVsbG8="), Some(b"hello".to_vec()));
    assert_eq!(decode_base64_standard(""), Some(vec![]));
    assert_eq!(decode_base64_standard("aGVsbG8"), None);
    assert_eq!(decode_base64_standard("aGVsbG9="), None);
    assert_eq!(decode_base64_standard("a-8="), None);
    assert_eq!(decode_base64_standard("/w=="), Some(vec![0xff]));
}

#[test]
fn json_string_literals() {
    assert_eq!(json_string_of("plain"), "\"plain\"");
    assert_eq!(json_string_of("a\"b\\c"), "\"a\\\"b\\\\c\"");
    assert_eq!(json_string_of("\u{8}\t\n\u{c}\r\u{1}\u{1f}\u{7f}é"), "\"\\b\\t\\n\\f\\r\\u0001\\u001f\u{7f}é\"");
    for s in ["x\u{0}y", "tab\there", "quote\"", "ünï", "\u{2028}"] {
        assert_eq!(json_string_of(s), serde_json::to_string(s).unwrap());
    }
}
