//! User rows as this core sees them.
//!
//! The rows are owned by the repository collaborator; the core only reads
//! the password hash and role membership and patches roles and the
//! soft-delete mark. Timestamps are unix seconds; a row with a set
//! `deleted_at` is soft-deleted and treated as absent by authentication.

use vstd::prelude::*;

use crate::roles::Roles;

verus! {

/// A stored user row.
#[derive(Debug)]
pub struct UserEntity {
    pub id: u64,
    pub citizen_id: String,
    pub first_name: String,
    pub last_name: String,
    pub phone_number: String,
    /// The stored one-way password hash, never the plaintext.
    pub password: String,
    /// Ordered role collection, semantically a set: duplicates are a defect.
    pub role: Vec<Roles>,
    pub created_at: u64,
    pub updated_at: u64,
    /// Soft-delete mark; a set value means the row is gone for this core.
    pub deleted_at: Option<u64>,
}

/// The mathematical value of a user row.
pub ghost struct UserView {
    pub id: u64,
    pub citizen_id: Seq<char>,
    pub first_name: Seq<char>,
    pub last_name: Seq<char>,
    pub phone_number: Seq<char>,
    pub password: Seq<char>,
    pub role: Seq<Roles>,
    pub created_at: u64,
    pub updated_at: u64,
    pub deleted_at: Option<u64>,
}

impl View for UserEntity {
    type V = UserView;

    open spec fn view(&self) -> UserView {
        UserView {
            id: self.id,
            citizen_id: self.citizen_id@,
            first_name: self.first_name@,
            last_name: self.last_name@,
            phone_number: self.phone_number@,
            password: self.password@,
            role: self.role@,
            created_at: self.created_at,
            updated_at: self.updated_at,
            deleted_at: self.deleted_at,
        }
    }
}

/// Whether a row takes part in authentication: present and not soft-deleted.
pub open spec fn user_active(u: UserView) -> bool {
    u.deleted_at is None
}

/// The row after a role patch: same identity, the given role collection,
/// and a touched `updated_at`.
pub open spec fn with_roles(u: UserView, roles: Seq<Roles>, touched_at: u64) -> UserView {
    UserView { role: roles, updated_at: touched_at, ..u }
}

/// The row after a soft delete: unchanged but for the delete mark.
pub open spec fn soft_deleted(u: UserView, at: u64) -> UserView {
    UserView { deleted_at: Some(at), ..u }
}

/// A fresh row for a registration, under an id the repository assigned.
pub open spec fn registered_user(id: u64, r: RegisterView) -> UserView {
    UserView {
        id: id,
        citizen_id: r.citizen_id,
        first_name: r.first_name,
        last_name: r.last_name,
        phone_number: r.phone_number,
        password: r.password,
        role: r.role,
        created_at: r.created_at,
        updated_at: r.updated_at,
        deleted_at: r.deleted_at,
    }
}

/// A user row as handed to the repository for insertion; the repository
/// assigns the id.
#[derive(Debug)]
pub struct RegisterUserEntity {
    pub citizen_id: String,
    pub first_name: String,
    pub last_name: String,
    pub phone_number: String,
    /// Already hashed by the caller.
    pub password: String,
    pub role: Vec<Roles>,
    pub created_at: u64,
    pub updated_at: u64,
    pub deleted_at: Option<u64>,
}

/// The mathematical value of a registration row.
pub ghost struct RegisterView {
    pub citizen_id: Seq<char>,
    pub first_name: Seq<char>,
    pub last_name: Seq<char>,
    pub phone_number: Seq<char>,
    pub password: Seq<char>,
    pub role: Seq<Roles>,
    pub created_at: u64,
    pub updated_at: u64,
    pub deleted_at: Option<u64>,
}

impl View for RegisterUserEntity {
    type V = RegisterView;

    open spec fn view(&self) -> RegisterView {
        RegisterView {
            citizen_id: self.citizen_id@,
            first_name: self.first_name@,
            last_name: self.last_name@,
            phone_number: self.phone_number@,
            password: self.password@,
            role: self.role@,
            created_at: self.created_at,
            updated_at: self.updated_at,
            deleted_at: self.deleted_at,
        }
    }
}

/// Copies a role collection element by element.
pub fn clone_roles(v: &Vec<Roles>) -> (res: Vec<Roles>)
    ensures
        res@ == v@,
{
    let mut out: Vec<Roles> = Vec::new();
    let n = v.len();
    for i in 0..n
        invariant
            n == v@.len(),
            out@ == v@.subrange(0, i as int),
    {
        out.push(v[i]);
        proof {
            assert(out@ =~= v@.subrange(0, i + 1));
        }
    }
    proof {
        assert(v@.subrange(0, n as int) =~= v@);
    }
    out
}

impl Clone for UserEntity {
    /// A copy with the same value: every field reads back equal.
    fn clone(&self) -> (res: Self)
        ensures
            res@ == self@,
    {
        UserEntity {
            id: self.id,
            citizen_id: self.citizen_id.clone(),
            first_name: self.first_name.clone(),
            last_name: self.last_name.clone(),
            phone_number: self.phone_number.clone(),
            password: self.password.clone(),
            role: clone_roles(&self.role),
            created_at: self.created_at,
            updated_at: self.updated_at,
            deleted_at: self.deleted_at,
        }
    }
}

} // verus!
