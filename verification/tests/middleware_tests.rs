use medbook_auth::errors::AuthError;
use medbook_auth::middleware::{authorize, get_cookie_value};
use medbook_auth::roles::Roles;
use medbook_auth::token::{mint, Claims};

#[test]
fn cookie_value_is_found_by_name() {
    assert_eq!(get_cookie_value("act=abc", "act"), Some("abc".to_string()));
    assert_eq!(get_cookie_value("rft=r1; act=abc", "act"), Some("abc".to_string()));
    assert_eq!(get_cookie_value("act=abc; rft=r1", "rft"), Some("r1".to_string()));
}

#[test]
fn cookie_value_absent_name_is_none() {
    assert_eq!(get_cookie_value("rft=r1", "act"), None);
    assert_eq!(get_cookie_value("", "act"), None);
}

#[test]
fn cookie_name_and_value_are_trimmed() {
    assert_eq!(get_cookie_value("other=x;  act = abc ", "act"), Some("abc".to_string()));
    assert_eq!(get_cookie_value(" act =  spaced value ", "act"), Some("spaced value".to_string()));
}

#[test]
fn cookie_without_equals_is_skipped() {
    assert_eq!(get_cookie_value("junk; act=abc", "act"), Some("abc".to_string()));
    assert_eq!(get_cookie_value("act", "act"), None);
}

#[test]
fn first_matching_cookie_wins() {
    assert_eq!(get_cookie_value("act=first; act=second", "act"), Some("first".to_string()));
}

#[test]
fn cookie_value_may_contain_equals() {
    assert_eq!(get_cookie_value("act=a=b=c", "act"), Some("a=b=c".to_string()));
}

#[test]
fn authorize_without_header_is_missing_token() {
    assert_eq!(authorize(None, Some("k"), 0), Err(AuthError::MissingToken));
}

#[test]
fn authorize_without_access_cookie_is_missing_token() {
    assert_eq!(authorize(Some("rft=r1"), Some("k"), 0), Err(AuthError::MissingToken));
}

#[test]
fn authorize_without_secret_is_configuration_error() {
    assert_eq!(authorize(Some("act=x"), None, 0), Err(AuthError::ConfigurationError));
}

#[test]
fn authorize_with_bad_token_fails_closed() {
    assert_eq!(authorize(Some("act=garbage"), Some("k"), 0), Err(AuthError::TokenMalformed));
}

#[test]
fn authorize_resolves_subject_from_valid_cookie() {
    let c = Claims { sub: 77, role: Roles::Patient, exp: 1000, iat: 0 };
    let token = mint("k", &c);
    let header = format!("rft=other; act={}", token);
    assert_eq!(authorize(Some(&header), Some("k"), 500), Ok(77));
    // Same cookie against the wrong secret fails closed, no fallback.
    assert_eq!(
        authorize(Some(&header), Some("other-k"), 500),
        Err(AuthError::TokenInvalidSignature)
    );
    // And after expiry the request is rejected again.
    assert_eq!(authorize(Some(&header), Some("k"), 1000), Err(AuthError::TokenExpired));
}
