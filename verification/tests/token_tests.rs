use medbook_auth::errors::AuthError;
use medbook_auth::roles::Roles;
use medbook_auth::token::{mint, verify, Claims};

fn claims(sub: u64, role: Roles, iat: u64, exp: u64) -> Claims {
    Claims { sub, role, exp, iat }
}

#[test]
fn mint_verify_roundtrip_returns_same_claims() {
    let c = claims(42, Roles::Patient, 1_700_000_000, 1_700_086_400);
    let token = mint("patient-secret", &c);
    let got = verify("patient-secret", &token, 1_700_000_000).expect("fresh token must verify");
    assert_eq!(got, c);
}

#[test]
fn mint_verify_roundtrip_doctor_role() {
    let c = claims(7, Roles::Doctor, 100, 200);
    let token = mint("k", &c);
    let got = verify("k", &token, 150).expect("fresh token must verify");
    assert_eq!(got.sub, 7);
    assert_eq!(got.role, Roles::Doctor);
    assert_eq!(got.iat, 100);
    assert_eq!(got.exp, 200);
}

#[test]
fn minting_is_deterministic() {
    let c = claims(1, Roles::Patient, 10, 20);
    assert_eq!(mint("s", &c), mint("s", &c));
}

#[test]
fn token_fails_under_other_audience_secret() {
    let c = claims(42, Roles::Patient, 1_700_000_000, 1_700_086_400);
    let token = mint("patient-secret", &c);
    let got = verify("doctor-secret", &token, 1_700_000_000);
    assert_eq!(got, Err(AuthError::TokenInvalidSignature));
}

#[test]
fn expired_token_fails_expired_under_right_secret() {
    let c = claims(42, Roles::Patient, 100, 200);
    let token = mint("s", &c);
    assert_eq!(verify("s", &token, 200), Err(AuthError::TokenExpired));
    assert_eq!(verify("s", &token, 10_000), Err(AuthError::TokenExpired));
}

#[test]
fn expired_token_fails_expired_even_with_wrong_secret() {
    // Expiry dominates the signature check: even a token whose signature
    // would not verify is reported expired.
    let c = claims(42, Roles::Patient, 100, 200);
    let token = mint("patient-secret", &c);
    assert_eq!(verify("doctor-secret", &token, 500), Err(AuthError::TokenExpired));
}

#[test]
fn expiry_is_a_hard_boundary() {
    let c = claims(1, Roles::Patient, 100, 200);
    let token = mint("s", &c);
    assert!(verify("s", &token, 199).is_ok());
    assert_eq!(verify("s", &token, 200), Err(AuthError::TokenExpired));
}

#[test]
fn tampered_payload_fails_signature() {
    let c = claims(42, Roles::Patient, 100, 200);
    let token = mint("s", &c);
    // Raise the subject by one without re-signing.
    let mut chars: Vec<char> = token.chars().collect();
    assert_eq!(chars[19], '2');
    chars[19] = '3';
    let forged: String = chars.into_iter().collect();
    assert_eq!(verify("s", &forged, 100), Err(AuthError::TokenInvalidSignature));
}

#[test]
fn tampered_role_fails_signature() {
    let c = claims(42, Roles::Patient, 100, 200);
    let token = mint("s", &c);
    let mut chars: Vec<char> = token.chars().collect();
    assert_eq!(chars[20], 'P');
    chars[20] = 'D';
    let forged: String = chars.into_iter().collect();
    assert_eq!(verify("s", &forged, 100), Err(AuthError::TokenInvalidSignature));
}

#[test]
fn short_token_is_malformed() {
    assert_eq!(verify("s", "", 0), Err(AuthError::TokenMalformed));
    assert_eq!(verify("s", "abc", 0), Err(AuthError::TokenMalformed));
}

#[test]
fn bad_role_char_is_malformed() {
    let c = claims(42, Roles::Patient, 100, 200);
    let token = mint("s", &c);
    let mut chars: Vec<char> = token.chars().collect();
    chars[20] = 'X';
    let forged: String = chars.into_iter().collect();
    assert_eq!(verify("s", &forged, 100), Err(AuthError::TokenMalformed));
}

#[test]
fn non_digit_subject_is_malformed() {
    let c = claims(42, Roles::Patient, 100, 200);
    let token = mint("s", &c);
    let mut chars: Vec<char> = token.chars().collect();
    chars[0] = 'z';
    let forged: String = chars.into_iter().collect();
    assert_eq!(verify("s", &forged, 100), Err(AuthError::TokenMalformed));
}

#[test]
fn missing_dot_is_malformed() {
    let c = claims(42, Roles::Patient, 100, 200);
    let token = mint("s", &c);
    let mut chars: Vec<char> = token.chars().collect();
    assert_eq!(chars[61], '.');
    chars[61] = '-';
    let forged: String = chars.into_iter().collect();
    assert_eq!(verify("s", &forged, 100), Err(AuthError::TokenMalformed));
}

#[test]
fn token_layout_is_fixed_width() {
    let c = claims(42, Roles::Patient, 100, 200);
    let token = mint("s", &c);
    assert_eq!(token.len(), 126);
    assert_eq!(&token[0..20], "00000000000000000042");
    assert_eq!(&token[20..21], "P");
    assert_eq!(&token[21..41], "00000000000000000100");
    assert_eq!(&token[41..61], "00000000000000000200");
    assert_eq!(&token[61..62], ".");
    assert!(token[62..].chars().all(|ch| ch.is_ascii_hexdigit()));
}

#[test]
fn largest_subject_roundtrips() {
    let c = claims(u64::MAX, Roles::Doctor, 0, 1);
    let token = mint("s", &c);
    let got = verify("s", &token, 0).expect("must verify");
    assert_eq!(got.sub, u64::MAX);
}
