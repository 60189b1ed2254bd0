use medbook_auth::admin::AdminUseCase;
use medbook_auth::entities::RegisterUserEntity;
use medbook_auth::authentication::{
    refresh_checked, AuthenticationUseCase, LoginModel, ACCESS_TOKEN_SECS, REFRESH_TOKEN_SECS,
};
use medbook_auth::config::{DoctorsSecret, PatientsSecret};
use medbook_auth::errors::AuthError;
use medbook_auth::repository::{UsersMemory, UsersRepository};
use medbook_auth::roles::Roles;
use medbook_auth::token::{mint, verify, Claims};
use medbook_auth::users::{RegisterUserModel, UsersUseCase};

fn secrets() -> (PatientsSecret, DoctorsSecret) {
    (
        PatientsSecret {
            secret: "patient-secret".to_string(),
            refresh_secret: "patient-refresh-secret".to_string(),
        },
        DoctorsSecret {
            secret: "doctor-secret".to_string(),
            refresh_secret: "doctor-refresh-secret".to_string(),
        },
    )
}

fn register_model(password: &str) -> RegisterUserModel {
    RegisterUserModel {
        citizen_id: "1234567890123".to_string(),
        first_name: "Ada".to_string(),
        last_name: "Lovelace".to_string(),
        phone_number: "0800000000".to_string(),
        password: password.to_string(),
    }
}

fn service_with_user(
    password: &str,
) -> (AuthenticationUseCase<UsersMemory>, u64) {
    let mut users = UsersUseCase::new(UsersMemory::new());
    let id = users
        .register(register_model(password))
        .expect("registration must succeed");
    let (p, d) = secrets();
    (AuthenticationUseCase::new(users.users_repository, p, d), id)
}

#[test]
fn patient_login_returns_patient_access_token_one_day_long() {
    let (auth, id) = service_with_user("s3cret-pw");
    let passport = auth
        .patients_login(LoginModel { hospital_number: id, password: "s3cret-pw".to_string() })
        .expect("login must succeed");
    let access = verify("patient-secret", &passport.access_token, 0).expect("must decode");
    assert_eq!(access.role, Roles::Patient);
    assert_eq!(access.sub, id);
    assert_eq!(access.exp - access.iat, 86400);
    let refresh =
        verify("patient-refresh-secret", &passport.refresh_token, 0).expect("must decode");
    assert_eq!(refresh.exp - refresh.iat, 604800);
}

#[test]
fn doctor_audience_rejects_patient_even_with_correct_password() {
    let (auth, id) = service_with_user("s3cret-pw");
    let got =
        auth.doctors_login(LoginModel { hospital_number: id, password: "s3cret-pw".to_string() });
    assert_eq!(got.err(), Some(AuthError::RoleMismatch));
}

#[test]
fn login_with_wrong_password_is_invalid_credentials() {
    let (auth, id) = service_with_user("s3cret-pw");
    let got =
        auth.patients_login(LoginModel { hospital_number: id, password: "wrong".to_string() });
    assert_eq!(got.err(), Some(AuthError::InvalidCredentials));
}

#[test]
fn login_with_unknown_id_is_not_found() {
    let (auth, id) = service_with_user("s3cret-pw");
    let got = auth
        .patients_login(LoginModel { hospital_number: id + 1, password: "s3cret-pw".to_string() });
    assert_eq!(got.err(), Some(AuthError::NotFound));
}

#[test]
fn login_after_soft_delete_is_not_found() {
    let mut users = UsersUseCase::new(UsersMemory::new());
    let id = users.register(register_model("pw")).expect("registration must succeed");
    let mut admin = AdminUseCase::new(users.users_repository);
    admin.remove_user(1, id).expect("soft delete must succeed");
    let (p, d) = secrets();
    let auth = AuthenticationUseCase::new(admin.users_repository, p, d);
    let got = auth.patients_login(LoginModel { hospital_number: id, password: "pw".to_string() });
    assert_eq!(got.err(), Some(AuthError::NotFound));
    // The row itself is kept: "who am I" still resolves it.
    assert!(auth.get_me(id).is_ok());
}

#[test]
fn malformed_stored_hash_is_hashing_error() {
    let mut repo = UsersMemory::new();
    let id = repo
        .register(RegisterUserEntity {
            citizen_id: "1".to_string(),
            first_name: "A".to_string(),
            last_name: "B".to_string(),
            phone_number: "0".to_string(),
            password: "not-a-valid-hash".to_string(),
            role: vec![Roles::Patient],
            created_at: 0,
            updated_at: 0,
            deleted_at: None,
        })
        .expect("insert must succeed");
    let (p, d) = secrets();
    let auth = AuthenticationUseCase::new(repo, p, d);
    let got = auth.patients_login(LoginModel { hospital_number: id, password: "pw".to_string() });
    assert_eq!(got.err(), Some(AuthError::HashingError));
}

#[test]
fn doctor_can_login_after_role_grant() {
    let mut users = UsersUseCase::new(UsersMemory::new());
    let id = users.register(register_model("docpw")).expect("registration must succeed");
    let mut admin = AdminUseCase::new(users.users_repository);
    admin.assign_doctor_role(1, id).expect("grant must succeed");
    let (p, d) = secrets();
    let auth = AuthenticationUseCase::new(admin.users_repository, p, d);
    let passport = auth
        .doctors_login(LoginModel { hospital_number: id, password: "docpw".to_string() })
        .expect("doctor login must succeed");
    let access = verify("doctor-secret", &passport.access_token, 0).expect("must decode");
    assert_eq!(access.role, Roles::Doctor);
}

#[test]
fn revoked_doctor_cannot_login() {
    let mut users = UsersUseCase::new(UsersMemory::new());
    let id = users.register(register_model("docpw")).expect("registration must succeed");
    let mut admin = AdminUseCase::new(users.users_repository);
    admin.assign_doctor_role(1, id).expect("grant must succeed");
    admin.remove_doctor_role(1, id).expect("revoke must succeed");
    let (p, d) = secrets();
    let auth = AuthenticationUseCase::new(admin.users_repository, p, d);
    let got = auth.doctors_login(LoginModel { hospital_number: id, password: "docpw".to_string() });
    assert_eq!(got.err(), Some(AuthError::RoleMismatch));
}

#[test]
fn refresh_rotation_preserves_expiry_ceiling() {
    // Initial grant at T0: refresh expiry T0 + 7d.
    let t0: u64 = 1_700_000_000;
    let day: u64 = 86400;
    let ceiling = t0 + REFRESH_TOKEN_SECS;
    let initial = Claims { sub: 9, role: Roles::Patient, exp: ceiling, iat: t0 };
    let mut refresh_token = mint("refresh-key", &initial);
    // Rotate once a day; the expiry never moves, the issued-at advances.
    for k in 1..=6u64 {
        let now = t0 + k * day;
        let passport = refresh_checked("access-key", "refresh-key", &refresh_token, now)
            .expect("rotation before the ceiling must succeed");
        let rotated = verify("refresh-key", &passport.refresh_token, now).expect("must decode");
        assert_eq!(rotated.exp, ceiling);
        assert_eq!(rotated.iat, now);
        assert_eq!(rotated.sub, 9);
        assert_eq!(rotated.role, Roles::Patient);
        let access = verify("access-key", &passport.access_token, now).expect("must decode");
        assert_eq!(access.exp, now + ACCESS_TOKEN_SECS);
        assert_eq!(access.iat, now);
        refresh_token = passport.refresh_token;
    }
    // Past the ceiling the rotated token is expired like any other.
    assert_eq!(
        refresh_checked("access-key", "refresh-key", &refresh_token, ceiling).err(),
        Some(AuthError::TokenExpired)
    );
}

#[test]
fn refresh_with_garbage_token_is_malformed() {
    let (auth, _) = service_with_user("pw");
    let got = auth.patients_refresh_token("garbage".to_string());
    assert_eq!(got.err(), Some(AuthError::TokenMalformed));
}

#[test]
fn refresh_with_access_secret_signed_token_fails_signature() {
    // A token minted under the access secret must not pass as a refresh
    // token: the two signing domains are independent.
    let c = Claims { sub: 1, role: Roles::Patient, exp: 2_000_000_000, iat: 0 };
    let token = mint("patient-secret", &c);
    let got = refresh_checked("patient-secret", "patient-refresh-secret", &token, 100);
    assert_eq!(got.err(), Some(AuthError::TokenInvalidSignature));
}

#[test]
fn get_me_returns_current_row() {
    let (auth, id) = service_with_user("pw");
    let me = auth.get_me(id).expect("row must be found");
    assert_eq!(me.id, id);
    assert_eq!(me.first_name, "Ada");
    assert_eq!(me.role, vec![Roles::Patient]);
    assert_eq!(auth.get_me(id + 1).err(), Some(AuthError::NotFound));
}

#[test]
fn registration_stores_hash_not_plaintext() {
    let (auth, id) = service_with_user("plain-text-pw");
    let me = auth.get_me(id).expect("row must be found");
    assert_ne!(me.password, "plain-text-pw");
    assert!(me.password.starts_with("$argon2"));
}
