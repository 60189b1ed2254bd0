use medbook_auth::codec::{parse_dec_field, push_dec_pad, push_hex};
use medbook_auth::errors::AuthError;
use medbook_auth::hashing::{hash_password, verify_password};

#[test]
fn decimal_rendering_is_zero_padded() {
    let mut s = String::new();
    push_dec_pad(&mut s, 42, 20);
    assert_eq!(s, "00000000000000000042");
    let mut s = String::new();
    push_dec_pad(&mut s, 0, 20);
    assert_eq!(s, "00000000000000000000");
    let mut s = String::new();
    push_dec_pad(&mut s, u64::MAX, 20);
    assert_eq!(s, "18446744073709551615");
}

#[test]
fn decimal_parsing_undoes_rendering() {
    let mut s = String::new();
    push_dec_pad(&mut s, 1_234_567, 20);
    assert_eq!(parse_dec_field(&s, 0, 20), Some(1_234_567));
    assert_eq!(parse_dec_field("18446744073709551615", 0, 20), Some(u64::MAX));
}

#[test]
fn decimal_parsing_rejects_non_digits_and_overflow() {
    assert_eq!(parse_dec_field("0000000000000000004x", 0, 20), None);
    // One above u64::MAX.
    assert_eq!(parse_dec_field("18446744073709551616", 0, 20), None);
    assert_eq!(parse_dec_field("99999999999999999999", 0, 20), None);
}

#[test]
fn hex_rendering_is_lowercase_two_chars_a_byte() {
    let mut s = String::new();
    push_hex(&mut s, &[0x00, 0xff, 0x1a, 0xb2]);
    assert_eq!(s, "00ff1ab2");
    let mut s = String::new();
    push_hex(&mut s, &[]);
    assert_eq!(s, "");
}

#[test]
fn password_hash_verifies_its_own_password() {
    let hash = hash_password("open sesame").expect("hashing must succeed");
    assert_eq!(verify_password("open sesame", &hash), Some(true));
    assert_eq!(verify_password("open sesam", &hash), Some(false));
    assert_eq!(verify_password("", &hash), Some(false));
}

#[test]
fn two_hashes_of_one_password_differ_by_salt() {
    let h1 = hash_password("pw").expect("hashing must succeed");
    let h2 = hash_password("pw").expect("hashing must succeed");
    assert_ne!(h1, h2);
    assert_eq!(verify_password("pw", &h1), Some(true));
    assert_eq!(verify_password("pw", &h2), Some(true));
}

#[test]
fn malformed_hash_is_detected() {
    assert_eq!(verify_password("pw", "definitely-not-a-hash"), None);
    assert_eq!(verify_password("pw", ""), None);
}

#[test]
fn error_texts_are_stable() {
    assert_eq!(AuthError::NotFound.text(), "user not found");
    assert_eq!(AuthError::TokenExpired.text(), "token expired");
    assert_eq!(AuthError::NotFound.outward_text(), "authentication failed");
    assert_eq!(AuthError::InvalidCredentials.outward_text(), "authentication failed");
}
