//! Login, refresh and "who am I": the authentication flows.
//!
//! Each flow is one self-contained transition: look the user up, check role
//! and credentials, and mint a token pair — or validate a refresh token and
//! rotate it. Rotation caps the session: the re-minted refresh token keeps
//! the expiry of the one it replaces, so refreshing extends the access
//! window but never the refresh window itself.

use vstd::prelude::*;

use crate::clock::{clamp_time, current_unix_time};
use crate::config::{DoctorsSecret, PatientsSecret};
use crate::entities::{user_active, UserEntity, UserView};
use crate::errors::AuthError;
use crate::hashing::{password_check, verify_password};
use crate::repository::UsersRepository;
use crate::roles::{roles_contain, Roles};
use crate::token::{mint, spec_mint, spec_verify, verify, Claims, Passport};

verus! {

/// Lifetime of an access token: one day, in seconds.
pub const ACCESS_TOKEN_SECS: u64 = 86400;

/// Lifetime of a freshly granted refresh token: seven days, in seconds.
pub const REFRESH_TOKEN_SECS: u64 = 604800;

/// A login request: the user id and the plaintext password.
#[derive(Debug, Clone)]
pub struct LoginModel {
    pub hospital_number: u64,
    pub password: String,
}

/// The body of a successful login response; the tokens travel as cookies,
/// not in the body.
#[derive(Debug, Clone)]
pub struct LoginResponseModel {}

/// What "who am I" resolves: the validated claims and the current row.
#[derive(Debug)]
pub struct GetMeResponseModel {
    pub claims: Claims,
    pub me: UserEntity,
}

/// The claims of an access token issued at `now`.
pub open spec fn spec_access_claims(sub: u64, role: Roles, now: u64) -> Claims {
    Claims { sub, role, exp: (now + ACCESS_TOKEN_SECS) as u64, iat: now }
}

/// The claims of a freshly granted refresh token issued at `now`.
pub open spec fn spec_refresh_claims(sub: u64, role: Roles, now: u64) -> Claims {
    Claims { sub, role, exp: (now + REFRESH_TOKEN_SECS) as u64, iat: now }
}

/// The error a login yields for a fetched row: absent-by-soft-delete first,
/// then role membership, then the credential check.
pub open spec fn spec_login_error(u: UserView, required: Roles, pw: Option<bool>) -> AuthError {
    if !user_active(u) {
        AuthError::NotFound
    } else if !u.role.contains(required) {
        AuthError::RoleMismatch
    } else if pw is None {
        AuthError::HashingError
    } else {
        AuthError::InvalidCredentials
    }
}

/// What a login must have produced, given the stored rows and the time it
/// ran at.
pub open spec fn spec_login_post(
    users: Map<u64, UserView>,
    secret: Seq<char>,
    refresh_secret: Seq<char>,
    required: Roles,
    id: u64,
    password: Seq<char>,
    now: u64,
    res: Result<Passport, AuthError>,
) -> bool {
    &&& (res matches Ok(p) ==> {
        &&& users.contains_key(id)
        &&& user_active(users[id])
        &&& users[id].role.contains(required)
        &&& password_check(users[id].password, password) == Some(true)
        &&& p.access_token@ == spec_mint(
            secret,
            spec_access_claims(users[id].id, required, now),
        )
        &&& p.refresh_token@ == spec_mint(
            refresh_secret,
            spec_refresh_claims(users[id].id, required, now),
        )
    })
    &&& (res matches Err(e) ==> {
        ||| e == AuthError::RepositoryError
        ||| (e == AuthError::NotFound && !users.contains_key(id))
        ||| (users.contains_key(id) && e == spec_login_error(
            users[id],
            required,
            password_check(users[id].password, password),
        ))
    })
}

/// What a refresh yields at a given time: the verification outcome of the
/// old refresh token, and on success the rotated pair — a fresh access
/// token, and a refresh token with the same subject and role, a fresh
/// issued-at, and the expiry of the token it replaces.
pub open spec fn spec_refresh(
    secret: Seq<char>,
    refresh_secret: Seq<char>,
    token: Seq<char>,
    now: u64,
) -> Result<(Seq<char>, Seq<char>), AuthError> {
    match spec_verify(refresh_secret, token, now) {
        Err(e) => Err(e),
        Ok(c) => Ok(
            (
                spec_mint(secret, spec_access_claims(c.sub, c.role, now)),
                spec_mint(refresh_secret, (Claims { sub: c.sub, role: c.role, exp: c.exp, iat: now })),
            ),
        ),
    }
}

/// What a refresh must have produced, given the time it ran at.
pub open spec fn spec_refresh_post(
    secret: Seq<char>,
    refresh_secret: Seq<char>,
    token: Seq<char>,
    now: u64,
    res: Result<Passport, AuthError>,
) -> bool {
    match spec_refresh(secret, refresh_secret, token, now) {
        Ok(pair) => res matches Ok(p) && p.access_token@ == pair.0 && p.refresh_token@ == pair.1,
        Err(e) => res matches Err(e2) && e2 == e,
    }
}

/// Decides a login for a fetched row. Succeeds exactly when the row is not
/// soft-deleted, holds the required role, and the password reproduces the
/// stored hash; the error otherwise names the first failed check. On
/// success the passport carries an access token good for one day and a
/// refresh token good for seven, both issued at `now`.
pub fn login_checked(
    user: &UserEntity,
    required: Roles,
    secret: &str,
    refresh_secret: &str,
    password: &str,
    now: u64,
) -> (res: Result<Passport, AuthError>)
    requires
        now + REFRESH_TOKEN_SECS <= u64::MAX,
    ensures
        res is Ok <==> user_active(user@) && user@.role.contains(required) && password_check(
            user@.password,
            password@,
        ) == Some(true),
        res matches Ok(p) ==> p.access_token@ == spec_mint(
            secret@,
            spec_access_claims(user@.id, required, now),
        ) && p.refresh_token@ == spec_mint(
            refresh_secret@,
            spec_refresh_claims(user@.id, required, now),
        ),
        res matches Err(e) ==> e == spec_login_error(
            user@,
            required,
            password_check(user@.password, password@),
        ),
{
    if user.deleted_at.is_some() {
        return Err(AuthError::NotFound);
    }
    if !roles_contain(&user.role, required) {
        return Err(AuthError::RoleMismatch);
    }
    match verify_password(password, user.password.as_str()) {
        None => Err(AuthError::HashingError),
        Some(false) => Err(AuthError::InvalidCredentials),
        Some(true) => {
            let access_claims = Claims {
                sub: user.id,
                role: required,
                exp: now + ACCESS_TOKEN_SECS,
                iat: now,
            };
            let refresh_claims = Claims {
                sub: user.id,
                role: required,
                exp: now + REFRESH_TOKEN_SECS,
                iat: now,
            };
            Ok(
                Passport {
                    access_token: mint(secret, &access_claims),
                    refresh_token: mint(refresh_secret, &refresh_claims),
                },
            )
        },
    }
}

/// Rotates a validated refresh token. The verification outcome of the old
/// token is propagated unchanged; on success the new refresh token keeps
/// the old expiry — the deliberate session ceiling — while its issued-at
/// advances to `now`.
pub fn refresh_checked(secret: &str, refresh_secret: &str, refresh_token: &str, now: u64) -> (res:
    Result<Passport, AuthError>)
    requires
        now + ACCESS_TOKEN_SECS <= u64::MAX,
    ensures
        spec_refresh_post(secret@, refresh_secret@, refresh_token@, now, res),
{
    let claims = match verify(refresh_secret, refresh_token, now) {
        Ok(c) => c,
        Err(e) => {
            return Err(e);
        },
    };
    let access_claims = Claims {
        sub: claims.sub,
        role: claims.role,
        exp: now + ACCESS_TOKEN_SECS,
        iat: now,
    };
    let refresh_claims = Claims { sub: claims.sub, role: claims.role, exp: claims.exp, iat: now };
    Ok(
        Passport {
            access_token: mint(secret, &access_claims),
            refresh_token: mint(refresh_secret, &refresh_claims),
        },
    )
}

/// Resolves the claims behind a "who am I" request: the token is tried
/// against the patient secret first, then the doctor secret.
///
/// This cross-audience fallback conflates two independent signing domains
/// and is kept deliberately as a documented known issue: a corrected design
/// would carry the audience in the token or the request and validate
/// against exactly one secret.
pub fn resolve_me_claims(patients_secret: &str, doctors_secret: &str, token: &str, now: u64) -> (res:
    Result<Claims, AuthError>)
    ensures
        res == (match spec_verify(patients_secret@, token@, now) {
            Ok(c) => Ok::<Claims, AuthError>(c),
            Err(_) => spec_verify(doctors_secret@, token@, now),
        }),
{
    match verify(patients_secret, token, now) {
        Ok(c) => Ok(c),
        Err(_) => verify(doctors_secret, token, now),
    }
}

/// Orchestrates the authentication flows against an injected user store and
/// the two audiences' secrets.
pub struct AuthenticationUseCase<T: UsersRepository> {
    pub users_repository: T,
    pub patients_secret: PatientsSecret,
    pub doctors_secret: DoctorsSecret,
}

impl<T: UsersRepository> AuthenticationUseCase<T> {
    /// The stored rows, as the injected repository exposes them.
    pub open spec fn users(&self) -> Map<u64, UserView> {
        self.users_repository.users()
    }

    pub fn new(users_repository: T, patients_secret: PatientsSecret, doctors_secret: DoctorsSecret) -> (res:
        Self)
        ensures
            res.users_repository == users_repository,
            res.patients_secret == patients_secret,
            res.doctors_secret == doctors_secret,
    {
        Self { users_repository, patients_secret, doctors_secret }
    }

    /// One login against one audience, at an explicit time.
    pub fn login(
        &self,
        required: Roles,
        secret: &str,
        refresh_secret: &str,
        login_model: &LoginModel,
        now: u64,
    ) -> (res: Result<Passport, AuthError>)
        requires
            now + REFRESH_TOKEN_SECS <= u64::MAX,
        ensures
            spec_login_post(
                self.users(),
                secret@,
                refresh_secret@,
                required,
                login_model.hospital_number,
                login_model.password@,
                now,
                res,
            ),
    {
        let user = match self.users_repository.find_by_id(login_model.hospital_number) {
            Ok(u) => u,
            Err(e) => {
                return Err(e);
            },
        };
        login_checked(
            &user,
            required,
            secret,
            refresh_secret,
            login_model.password.as_str(),
            now,
        )
    }

    /// Logs a patient in: role `Patient` against the patient audience's
    /// secrets, at the current time.
    pub fn patients_login(&self, login_model: LoginModel) -> (res: Result<Passport, AuthError>)
        ensures
            exists|now: u64|
                #[trigger] spec_login_post(
                    self.users(),
                    self.patients_secret.secret@,
                    self.patients_secret.refresh_secret@,
                    Roles::Patient,
                    login_model.hospital_number,
                    login_model.password@,
                    now,
                    res,
                ),
    {
        let now = clamp_time(current_unix_time());
        self.login(
            Roles::Patient,
            self.patients_secret.secret.as_str(),
            self.patients_secret.refresh_secret.as_str(),
            &login_model,
            now,
        )
    }

    /// Logs a doctor in: role `Doctor` against the doctor audience's
    /// secrets, at the current time.
    pub fn doctors_login(&self, login_model: LoginModel) -> (res: Result<Passport, AuthError>)
        ensures
            exists|now: u64|
                #[trigger] spec_login_post(
                    self.users(),
                    self.doctors_secret.secret@,
                    self.doctors_secret.refresh_secret@,
                    Roles::Doctor,
                    login_model.hospital_number,
                    login_model.password@,
                    now,
                    res,
                ),
    {
        let now = clamp_time(current_unix_time());
        self.login(
            Roles::Doctor,
            self.doctors_secret.secret.as_str(),
            self.doctors_secret.refresh_secret.as_str(),
            &login_model,
            now,
        )
    }

    /// Rotates a patient refresh token at the current time.
    pub fn patients_refresh_token(&self, refresh_token: String) -> (res: Result<
        Passport,
        AuthError,
    >)
        ensures
            exists|now: u64|
                #[trigger] spec_refresh_post(
                    self.patients_secret.secret@,
                    self.patients_secret.refresh_secret@,
                    refresh_token@,
                    now,
                    res,
                ),
    {
        let now = clamp_time(current_unix_time());
        refresh_checked(
            self.patients_secret.secret.as_str(),
            self.patients_secret.refresh_secret.as_str(),
            refresh_token.as_str(),
            now,
        )
    }

    /// Rotates a doctor refresh token at the current time.
    pub fn doctors_refresh_token(&self, refresh_token: String) -> (res: Result<
        Passport,
        AuthError,
    >)
        ensures
            exists|now: u64|
                #[trigger] spec_refresh_post(
                    self.doctors_secret.secret@,
                    self.doctors_secret.refresh_secret@,
                    refresh_token@,
                    now,
                    res,
                ),
    {
        let now = clamp_time(current_unix_time());
        refresh_checked(
            self.doctors_secret.secret.as_str(),
            self.doctors_secret.refresh_secret.as_str(),
            refresh_token.as_str(),
            now,
        )
    }

    /// The current row behind a resolved subject id. Soft-deleted rows are
    /// returned too: "who am I" reflects storage, not login eligibility.
    pub fn get_me(&self, hospital_id: u64) -> (res: Result<UserEntity, AuthError>)
        ensures
            res matches Ok(u) ==> self.users().contains_key(hospital_id) && u@ == self.users().index(hospital_id),
            res matches Err(e) ==> e == AuthError::NotFound || e == AuthError::RepositoryError,
            res == Err::<UserEntity, AuthError>(AuthError::NotFound) ==> !self.users().contains_key(
                hospital_id,
            ),
    {
        self.users_repository.find_by_id(hospital_id)
    }
}

/// Refresh rotation preserves the ceiling: rotating a refresh token with
/// claims `c` at time `now1` yields a fresh access token and a refresh
/// token whose subject and role are kept, whose issued-at is `now1`, and
/// whose expiry is still `c.exp` — and that is exactly what the rotated
/// token verifies to at any later time before the ceiling. Applied again to
/// the rotated claims, the expiry therefore never moves, however often
/// refresh is called.
pub proof fn lemma_refresh_rotation(
    secret: Seq<char>,
    refresh_secret: Seq<char>,
    c: Claims,
    now1: u64,
    later: u64,
)
    requires
        now1 < c.exp,
        later < c.exp,
    ensures
        spec_refresh(secret, refresh_secret, spec_mint(refresh_secret, c), now1) == Ok::<
            (Seq<char>, Seq<char>),
            AuthError,
        >(
            (
                spec_mint(secret, spec_access_claims(c.sub, c.role, now1)),
                spec_mint(refresh_secret, (Claims { sub: c.sub, role: c.role, exp: c.exp, iat: now1 })),
            ),
        ),
        spec_verify(
            refresh_secret,
            spec_mint(refresh_secret, (Claims { sub: c.sub, role: c.role, exp: c.exp, iat: now1 })),
            later,
        ) == Ok::<Claims, AuthError>((Claims { sub: c.sub, role: c.role, exp: c.exp, iat: now1 })),
{
    crate::token::lemma_mint_verify_roundtrip(refresh_secret, c, now1);
    crate::token::lemma_mint_verify_roundtrip(
        refresh_secret,
        Claims { sub: c.sub, role: c.role, exp: c.exp, iat: now1 },
        later,
    );
}

} // verus!
