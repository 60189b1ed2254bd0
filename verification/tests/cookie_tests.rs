use medbook_auth::authentication::resolve_me_claims;
use medbook_auth::config::Stage;
use medbook_auth::cookies::{build_session_cookie, login_cookies, logout_cookies};
use medbook_auth::errors::AuthError;
use medbook_auth::roles::Roles;
use medbook_auth::token::{mint, Claims, Passport};

#[test]
fn session_cookie_carries_fixed_attributes() {
    let c = build_session_cookie("act", "tok", false);
    assert_eq!(c, "act=tok; Path=/; HttpOnly; SameSite=Lax; Max-Age=1209600");
    let s = build_session_cookie("act", "tok", true);
    assert_eq!(s, "act=tok; Path=/; HttpOnly; SameSite=Lax; Max-Age=1209600; Secure");
}

#[test]
fn login_sets_both_token_cookies() {
    let passport =
        Passport { access_token: "AAA".to_string(), refresh_token: "RRR".to_string() };
    let (act, rft) = login_cookies(&passport, false);
    assert_eq!(act, "act=AAA; Path=/; HttpOnly; SameSite=Lax; Max-Age=1209600");
    assert_eq!(rft, "rft=RRR; Path=/; HttpOnly; SameSite=Lax; Max-Age=1209600");
}

#[test]
fn logout_clears_both_cookies_with_zero_max_age() {
    let (act, rft) = logout_cookies(false);
    assert_eq!(act, "act=; Path=/; HttpOnly; SameSite=Lax; Max-Age=0");
    assert_eq!(rft, "rft=; Path=/; HttpOnly; SameSite=Lax; Max-Age=0");
    assert!(act.contains("Max-Age=0"));
    assert!(!act.contains("tok"));
    let (act_s, rft_s) = logout_cookies(true);
    assert_eq!(act_s, "act=; Path=/; HttpOnly; SameSite=Lax; Max-Age=0; Secure");
    assert_eq!(rft_s, "rft=; Path=/; HttpOnly; SameSite=Lax; Max-Age=0; Secure");
}

#[test]
fn stage_parses_and_defaults_to_local() {
    assert_eq!(Stage::from_text("local"), Some(Stage::Local));
    assert_eq!(Stage::from_text("development"), Some(Stage::Development));
    assert_eq!(Stage::from_text("production"), Some(Stage::Production));
    assert_eq!(Stage::from_text(""), None);
    assert_eq!(Stage::from_text("Production"), None);
    assert_eq!(Stage::default(), Stage::Local);
    assert!(Stage::Production.is_production());
    assert!(!Stage::Development.is_production());
}

#[test]
fn me_resolution_tries_patient_then_doctor_secret() {
    let c = Claims { sub: 5, role: Roles::Patient, exp: 1000, iat: 0 };
    let patient_token = mint("p-secret", &c);
    let d = Claims { sub: 6, role: Roles::Doctor, exp: 1000, iat: 0 };
    let doctor_token = mint("d-secret", &d);

    let got = resolve_me_claims("p-secret", "d-secret", &patient_token, 10).expect("patient");
    assert_eq!(got.sub, 5);
    let got = resolve_me_claims("p-secret", "d-secret", &doctor_token, 10).expect("doctor");
    assert_eq!(got.sub, 6);
    let got = resolve_me_claims("p-secret", "d-secret", "junk", 10);
    assert_eq!(got.err(), Some(AuthError::TokenMalformed));
}
