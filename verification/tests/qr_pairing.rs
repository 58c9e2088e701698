use base64::Engine;
use hwmr::auth::{Auth, PairOutcome, PairRequest};
use hwmr::qr::{
    deep_link, issue_qr, issue_qr_with_nonce, qr_pair_response, qr_request_allowed, qr_text,
    render_qr, trusted_lan_address, ClientAddress, QrIssueError, PWA_DEEP_LINK,
};

fn payload_of(link: &str) -> serde_json::Value {
    let encoded = link.split("#connect=").nth(1).unwrap();
    let bytes = base64::engine::general_purpose::URL_SAFE_NO_PAD.decode(encoded).unwrap();
    serde_json::from_slice(&bytes).unwrap()
}

#[test]
fn deep_link_payload() {
    let nonce = "0123456789abcdef0123456789abcdef";
    let link = deep_link([192, 168, 1, 20], 8787, nonce);
    assert!(link.starts_with(&format!("{PWA_DEEP_LINK}#connect=")));
    let payload = payload_of(&link);
    let object = payload.as_object().unwrap();
    assert_eq!(object.len(), 4);
    assert_eq!(payload["v"], 1);
    assert_eq!(payload["host"], "192.168.1.20");
    assert_eq!(payload["port"], 8787);
    assert_eq!(payload["nonce"], nonce);
    let encoded = link.split("#connect=").nth(1).unwrap();
    let bytes = base64::engine::general_purpose::URL_SAFE_NO_PAD.decode(encoded).unwrap();
    assert_eq!(
        String::from_utf8(bytes).unwrap(),
        format!("{{\"host\":\"192.168.1.20\",\"nonce\":\"{nonce}\",\"port\":8787,\"v\":1}}")
    );
}

#[test]
fn deep_link_escapes_the_nonce() {
    let link = deep_link([10, 0, 0, 2], 1, "a\"b");
    assert_eq!(payload_of(&link)["nonce"], "a\"b");
}

#[test]
fn qr_rendering_matches_the_code() {
    let qr = qrcodegen::QrCode::encode_text("http://example.com", qrcodegen::QrCodeEcc::Medium).unwrap();
    let text = render_qr(&qr);
    let size = qr.size();
    let lines: Vec<&str> = text.lines().collect();
    assert_eq!(lines.len() as i32, size + 8);
    for (row, line) in lines.iter().enumerate() {
        let y = row as i32 - 4;
        let cells: Vec<char> = line.chars().collect();
        assert_eq!(cells.len() as i32, 2 * (size + 8));
        for col in 0..(size + 8) {
            let x = col - 4;
            let expected = if qr.get_module(x, y) { ' ' } else { '█' };
            assert_eq!(cells[(2 * col) as usize], expected);
            assert_eq!(cells[(2 * col + 1) as usize], expected);
        }
    }
    assert_eq!(qr_text("http://example.com").unwrap(), text);
}

#[test]
fn qr_too_large() {
    assert!(qr_text(&"x".repeat(5000)).is_err());
}

#[test]
fn issuing_a_qr_enables_its_nonce() {
    let mut auth = Auth::new("code".to_string());
    let nonce = "00112233445566778899aabbccddeeff".to_string();
    let qr = issue_qr_with_nonce(&mut auth, Some([192, 168, 0, 5]), 8787, nonce.clone(), 5).unwrap();
    assert!(qr.contains("██"));
    let request = PairRequest { code: None, nonce: Some(nonce) };
    assert!(auth.accepts_pairing(&request, 100));
    let outcome = auth.pair_with(&request, 100, "t".to_string(), "c".to_string());
    assert!(matches!(outcome, PairOutcome::Paired { .. }));
}

#[test]
fn issuing_needs_a_trusted_lan_address() {
    let mut auth = Auth::new("code".to_string());
    assert!(matches!(issue_qr(&mut auth, None, 8787, 0), Err(QrIssueError::NoLanAddress)));
    assert!(matches!(issue_qr(&mut auth, Some([8, 8, 8, 8]), 8787, 0), Err(QrIssueError::NoLanAddress)));
    assert_eq!(QrIssueError::NoLanAddress.message(), "no trusted LAN address detected");
    assert_eq!(QrIssueError::TooLarge.message(), "QR payload is too large");
    let nonce = "n".repeat(3000);
    assert!(matches!(
        issue_qr_with_nonce(&mut auth, Some([10, 1, 1, 1]), 8787, nonce.clone(), 0),
        Err(QrIssueError::TooLarge)
    ));
    assert!(!auth.accepts_pairing(&PairRequest { code: None, nonce: Some(nonce) }, 1));
    assert!(issue_qr(&mut auth, Some([10, 1, 1, 1]), 8787, 0).unwrap().contains("██"));
}

#[test]
fn only_local_programs_get_a_qr() {
    assert!(qr_request_allowed(&ClientAddress::V4([127, 0, 0, 1])));
    assert!(qr_request_allowed(&ClientAddress::V4([127, 8, 9, 10])));
    assert!(!qr_request_allowed(&ClientAddress::V4([192, 168, 1, 2])));
    assert!(qr_request_allowed(&ClientAddress::V6([0, 0, 0, 0, 0, 0, 0, 1])));
    assert!(!qr_request_allowed(&ClientAddress::V6([0, 0, 0, 0, 0, 0xffff, 0x7f00, 1])));
    assert_eq!(qr_pair_response("ab\ncd"), "{\"ok\":true,\"qr\":\"ab\\ncd\"}");
}

#[test]
fn lan_address_filter() {
    assert_eq!(trusted_lan_address(Some([192, 168, 3, 4])), Some([192, 168, 3, 4]));
    assert_eq!(trusted_lan_address(Some([100, 64, 0, 1])), None);
    assert_eq!(trusted_lan_address(None), None);
}
