use hwmr::auth::{pair_response, random_hex, Auth, PairOutcome, PairRequest, WsAuth};

fn request(code: Option<&str>, nonce: Option<&str>) -> PairRequest {
    PairRequest { code: code.map(|c| c.to_string()), nonce: nonce.map(|n| n.to_string()) }
}

fn is_lower_hex(s: &str) -> bool {
    s.chars().all(|c| c.is_ascii_digit() || ('a'..='f').contains(&c))
}

#[test]
fn random_hex_has_two_digits_per_byte() {
    let s = random_hex(16).ok().unwrap();
    assert_eq!(s.len(), 32);
    assert!(is_lower_hex(&s));
    assert_eq!(random_hex(0).ok().unwrap(), "");
}

#[test]
fn manual_code_pairs_and_rotates() {
    let mut auth = Auth::new("abc123".to_string());
    let outcome = auth.pair(&request(Some("abc123"), None), 0).ok().unwrap();
    let token = match outcome {
        PairOutcome::Paired { token } => token,
        PairOutcome::Rejected => panic!("rejected"),
    };
    assert_eq!(token.len(), 64);
    assert!(is_lower_hex(&token));
    assert_eq!(auth.code().len(), 6);
    assert!(is_lower_hex(auth.code()));
    assert!(auth.authorizes(Some(&format!("Bearer {token}"))));
    assert!(!auth.authorizes(Some(&token)));
    assert!(!auth.authorizes(Some("Bearer wrong")));
    assert!(!auth.authorizes(None));
    // The used code no longer pairs (unless the new random code repeats it).
    if auth.code() != "abc123" {
        let again = auth.pair(&request(Some("abc123"), None), 0).ok().unwrap();
        assert!(matches!(again, PairOutcome::Rejected));
    }
}

#[test]
fn wrong_code_is_rejected_without_change() {
    let mut auth = Auth::new("abc123".to_string());
    let outcome = auth.pair(&request(Some("zzz"), None), 0).ok().unwrap();
    assert!(matches!(outcome, PairOutcome::Rejected));
    let outcome = auth.pair(&request(None, None), 0).ok().unwrap();
    assert!(matches!(outcome, PairOutcome::Rejected));
    assert_eq!(auth.code(), "abc123");
    assert!(!auth.authorizes(Some("Bearer ")));
}

#[test]
fn pairing_replaces_the_previous_token() {
    let mut auth = Auth::new("c1".to_string());
    let first = auth.pair_with(&request(Some("c1"), None), 0, "t1".to_string(), "c2".to_string());
    assert!(matches!(first, PairOutcome::Paired { ref token } if token == "t1"));
    assert!(auth.authorizes(Some("Bearer t1")));
    let second = auth.pair_with(&request(Some("c2"), None), 0, "t2".to_string(), "c3".to_string());
    assert!(matches!(second, PairOutcome::Paired { ref token } if token == "t2"));
    assert!(!auth.authorizes(Some("Bearer t1")));
    assert!(auth.authorizes(Some("Bearer t2")));
    assert_eq!(auth.code(), "c3");
}

#[test]
fn qr_nonce_expires_after_two_minutes() {
    let mut auth = Auth::new("code".to_string());
    auth.issue_nonce("n1".to_string(), 1_000);
    assert!(auth.accepts_pairing(&request(None, Some("n1")), 120_999));
    assert!(!auth.accepts_pairing(&request(None, Some("n1")), 121_000));
    assert!(!auth.accepts_pairing(&request(None, Some("n2")), 2_000));
    let late = auth.pair_with(&request(None, Some("n1")), 121_000, "t".to_string(), "c".to_string());
    assert!(matches!(late, PairOutcome::Rejected));
}

#[test]
fn qr_nonce_is_single_use() {
    let mut auth = Auth::new("code".to_string());
    auth.issue_nonce("n1".to_string(), 0);
    let first = auth.pair_with(&request(None, Some("n1")), 10, "t1".to_string(), "c2".to_string());
    assert!(matches!(first, PairOutcome::Paired { .. }));
    let second = auth.pair_with(&request(None, Some("n1")), 20, "t2".to_string(), "c3".to_string());
    assert!(matches!(second, PairOutcome::Rejected));
    assert!(auth.authorizes(Some("Bearer t1")));
}

#[test]
fn manual_code_still_works_with_a_qr_out() {
    let mut auth = Auth::new("code".to_string());
    auth.issue_nonce("n1".to_string(), 0);
    assert!(auth.accepts_pairing(&request(Some("code"), None), 500_000));
    auth.issue_nonce("n2".to_string(), 10);
    assert!(!auth.accepts_pairing(&request(None, Some("n1")), 20));
    assert!(auth.accepts_pairing(&request(None, Some("n2")), 20));
}

#[test]
fn logout_ends_the_session() {
    let mut auth = Auth::new("code".to_string());
    auth.pair_with(&request(Some("code"), None), 0, "tok".to_string(), "c2".to_string());
    auth.issue_nonce("n".to_string(), 0);
    assert!(!auth.logout_with(Some("Bearer nope"), "c3".to_string()));
    assert_eq!(auth.code(), "c2");
    assert!(auth.logout_with(Some("Bearer tok"), "c3".to_string()));
    assert_eq!(auth.code(), "c3");
    assert!(!auth.authorizes(Some("Bearer tok")));
    assert!(!auth.accepts_pairing(&request(None, Some("n")), 1));
    assert!(!auth.logout_with(Some("Bearer tok"), "c4".to_string()));
}

#[test]
fn websocket_authentication() {
    let mut auth = Auth::new("code".to_string());
    let ws = |kind: &str, token: &str| WsAuth { kind: kind.to_string(), token: token.to_string() };
    assert!(!auth.accepts_ws_auth(Some(&ws("auth", ""))));
    auth.pair_with(&request(Some("code"), None), 0, "tok".to_string(), "c2".to_string());
    assert!(auth.accepts_ws_auth(Some(&ws("auth", "tok"))));
    assert!(!auth.accepts_ws_auth(Some(&ws("hello", "tok"))));
    assert!(!auth.accepts_ws_auth(Some(&ws("auth", "other"))));
    assert!(!auth.accepts_ws_auth(None));
}

#[test]
fn fresh_state_has_no_session() {
    let auth = Auth::new_random().ok().unwrap();
    assert_eq!(auth.code().len(), 6);
    assert!(is_lower_hex(auth.code()));
    assert!(!auth.authorizes(Some("Bearer ")));
}

#[test]
fn pairing_answers() {
    assert_eq!(
        pair_response(&PairOutcome::Paired { token: "ab".to_string() }),
        "{\"ok\":true,\"token\":\"ab\"}"
    );
    assert_eq!(
        pair_response(&PairOutcome::Rejected),
        "{\"error\":\"invalid_pairing_code\",\"ok\":false}"
    );
}
