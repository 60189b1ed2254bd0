//! Registration and lookup of users.
//!
//! Registration hashes the plaintext password before anything is stored and
//! grants the `Patient` role; the repository assigns the id.

use vstd::prelude::*;

use crate::clock::{clamp_time, current_unix_time};
use crate::entities::{registered_user, RegisterUserEntity, RegisterView, UserEntity, UserView};
use crate::errors::AuthError;
use crate::hashing::{hash_password, password_check};
use crate::repository::UsersRepository;
use crate::roles::Roles;

verus! {

/// A registration request, with the password still in plaintext.
#[derive(Debug, Clone)]
pub struct RegisterUserModel {
    pub citizen_id: String,
    pub first_name: String,
    pub last_name: String,
    pub phone_number: String,
    pub password: String,
}

/// The body of a successful registration response.
#[derive(Debug, Clone)]
pub struct RegisterUserResponseModel {
    pub hospital_number: u64,
}

/// The row value a registration stores: the model's fields, the given
/// password hash, the `Patient` role, both timestamps at `t`, not deleted.
pub open spec fn spec_registration(
    m: RegisterUserModel,
    hash: Seq<char>,
    t: u64,
) -> RegisterView {
    RegisterView {
        citizen_id: m.citizen_id@,
        first_name: m.first_name@,
        last_name: m.last_name@,
        phone_number: m.phone_number@,
        password: hash,
        role: seq![Roles::Patient],
        created_at: t,
        updated_at: t,
        deleted_at: None,
    }
}

impl RegisterUserModel {
    /// The entity this request inserts, given the already-hashed password
    /// and the registration time. Every new user starts as a patient.
    pub fn to_entity(&self, now: u64) -> (res: RegisterUserEntity)
        ensures
            res@ == spec_registration(*self, self.password@, now),
    {
        let mut role: Vec<Roles> = Vec::new();
        role.push(Roles::Patient);
        proof {
            assert(role@ =~= seq![Roles::Patient]);
        }
        RegisterUserEntity {
            citizen_id: self.citizen_id.clone(),
            first_name: self.first_name.clone(),
            last_name: self.last_name.clone(),
            phone_number: self.phone_number.clone(),
            password: self.password.clone(),
            role,
            created_at: now,
            updated_at: now,
            deleted_at: None,
        }
    }
}

/// Registration and lookup against an injected user store.
pub struct UsersUseCase<T: UsersRepository> {
    pub users_repository: T,
}

impl<T: UsersRepository> UsersUseCase<T> {
    /// The stored rows, as the injected repository exposes them.
    pub open spec fn users(&self) -> Map<u64, UserView> {
        self.users_repository.users()
    }

    pub fn new(users_repository: T) -> (res: Self)
        ensures
            res.users_repository == users_repository,
    {
        Self { users_repository }
    }

    /// Registers a new user: hashes the plaintext, stores the row under a
    /// fresh id, and returns that id. The stored row carries some hash that
    /// the plaintext reproduces — never the plaintext itself — the
    /// `Patient` role, and the registration time in both timestamps.
    pub fn register(&mut self, register_user_model: RegisterUserModel) -> (res: Result<
        u64,
        AuthError,
    >)
        ensures
            res matches Ok(id) ==> !old(self).users().contains_key(id) && exists|
                h: Seq<char>,
                t: u64,
            |
                final(self).users() == old(self).users().insert(
                    id,
                    #[trigger] registered_user(id, spec_registration(register_user_model, h, t)),
                ) && password_check(h, register_user_model.password@) == Some(true),
            res is Err ==> final(self).users() == old(self).users(),
    {
        let hashed = match hash_password(register_user_model.password.as_str()) {
            Ok(h) => h,
            Err(e) => {
                return Err(e);
            },
        };
        let ghost m0 = register_user_model;
        let mut model = register_user_model;
        model.password = hashed;
        let now = clamp_time(current_unix_time());
        let entity = model.to_entity(now);
        proof {
            assert(entity@ == spec_registration(m0, model.password@, now));
        }
        self.users_repository.register(entity)
    }

    /// The row behind an id, soft-deleted rows included.
    pub fn find_by_id(&self, user_id: u64) -> (res: Result<UserEntity, AuthError>)
        ensures
            res matches Ok(u) ==> self.users().contains_key(user_id) && u@ == self.users().index(
                user_id,
            ),
            res matches Err(e) ==> e == AuthError::NotFound || e == AuthError::RepositoryError,
            res == Err::<UserEntity, AuthError>(AuthError::NotFound) ==> !self.users().contains_key(
                user_id,
            ),
    {
        self.users_repository.find_by_id(user_id)
    }
}

} // verus!
