use veilmail::webhook::{constant_time_eq, expected_signature, verify_signature};

const BODY: &str = "what do ya want for nothing?";
const SECRET: &str = "Jefe";
const KNOWN: &str = "5bdcc146bf60754e6a042426089575c75a003f089d2739839dec58b964ec3843";

#[test]
fn expected_signature_matches_known_vector() {
    assert_eq!(expected_signature(BODY, SECRET).as_deref(), Some(KNOWN));
}

#[test]
fn signed_body_verifies() {
    assert!(verify_signature(BODY, KNOWN, SECRET));
    let body = r#"{"type":"email.delivered"}"#;
    let sig = expected_signature(body, "whsec_test").unwrap();
    assert!(verify_signature(body, &sig, "whsec_test"));
}

#[test]
fn other_secret_is_rejected() {
    let body = r#"{"type":"email.delivered"}"#;
    let sig = expected_signature(body, "whsec_test").unwrap();
    assert!(!verify_signature(body, &sig, "whsec_other"));
}

#[test]
fn wrong_signature_is_rejected() {
    assert!(!verify_signature(BODY, "wrong", SECRET));
}

#[test]
fn last_character_changed_is_rejected() {
    let mut sig = KNOWN.to_string();
    sig.pop();
    sig.push('4');
    assert!(!verify_signature(BODY, &sig, SECRET));
}

#[test]
fn uppercase_signature_is_rejected() {
    assert!(!verify_signature(BODY, &KNOWN.to_uppercase(), SECRET));
}

#[test]
fn signature_has_sixty_four_hex_digits() {
    let sig = expected_signature("any body", "any secret").unwrap();
    assert_eq!(sig.len(), 64);
    assert!(sig.chars().all(|c| c.is_ascii_hexdigit() && !c.is_ascii_uppercase()));
}

#[test]
fn truncated_signature_is_rejected() {
    assert!(!verify_signature(BODY, &KNOWN[..62], SECRET));
}

#[test]
fn constant_time_eq_cases() {
    assert!(constant_time_eq(b"", b""));
    assert!(constant_time_eq(b"abc", b"abc"));
    assert!(!constant_time_eq(b"abc", b"abd"));
    assert!(!constant_time_eq(b"xbc", b"abc"));
    assert!(!constant_time_eq(b"abc", b"abcd"));
}
