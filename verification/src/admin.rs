//! Administrative role management and soft deletion.
//!
//! These operations assume an already-authorized administrative caller: who
//! may invoke them is the calling layer's responsibility and is checked
//! before the call, not here. Role addition is idempotent, removal clears
//! every occurrence, and user removal is a soft delete that keeps the row.

use vstd::prelude::*;

use crate::entities::{soft_deleted, user_active, with_roles, UserView};
use crate::errors::AuthError;
use crate::repository::UsersRepository;
use crate::roles::{spec_add_role, spec_remove_role, Roles};

verus! {

/// Role and account administration against an injected user store.
pub struct AdminUseCase<T: UsersRepository> {
    pub users_repository: T,
}

impl<T: UsersRepository> AdminUseCase<T> {
    /// The stored rows, as the injected repository exposes them.
    pub open spec fn users(&self) -> Map<u64, UserView> {
        self.users_repository.users()
    }

    pub fn new(users_repository: T) -> (res: Self)
        ensures
            res.users_repository == users_repository,
    {
        Self { users_repository }
    }

    /// Grants the `Doctor` role to the target user, idempotently: a user
    /// who already holds it is unchanged, and no duplicate entry is ever
    /// produced. The executing user is recorded by the caller; this core
    /// does not gate on it.
    pub fn assign_doctor_role(&mut self, executer_user_id: u64, target_user_id: u64) -> (res:
        Result<(), AuthError>)
        ensures
            res is Ok && old(self).users().contains_key(target_user_id) ==> exists|t: u64|
                final(self).users() == old(self).users().insert(
                    target_user_id,
                    with_roles(
                        old(self).users()[target_user_id],
                        spec_add_role(old(self).users()[target_user_id].role, Roles::Doctor),
                        t,
                    ),
                ),
            res is Ok && !old(self).users().contains_key(target_user_id) ==> final(self).users()
                == old(self).users(),
            res is Err ==> final(self).users() == old(self).users(),
    {
        self.users_repository.add_role_to_user_by_id(Roles::Doctor, target_user_id)
    }

    /// Revokes the `Doctor` role from the target user, clearing every
    /// occurrence even if corrupted state holds it more than once.
    pub fn remove_doctor_role(&mut self, executer_user_id: u64, target_user_id: u64) -> (res:
        Result<(), AuthError>)
        ensures
            res is Ok && old(self).users().contains_key(target_user_id) ==> exists|t: u64|
                final(self).users() == old(self).users().insert(
                    target_user_id,
                    with_roles(
                        old(self).users()[target_user_id],
                        spec_remove_role(old(self).users()[target_user_id].role, Roles::Doctor),
                        t,
                    ),
                ),
            res is Ok && !old(self).users().contains_key(target_user_id) ==> final(self).users()
                == old(self).users(),
            res is Err ==> final(self).users() == old(self).users(),
    {
        self.users_repository.remove_role_from_user_by_id(Roles::Doctor, target_user_id)
    }

    /// Soft-deletes the target user: the delete mark is set, the row stays.
    /// Absent or already-deleted users are left alone, without error.
    pub fn remove_user(&mut self, executer_user_id: u64, user_id: u64) -> (res: Result<
        (),
        AuthError,
    >)
        ensures
            res is Ok && old(self).users().contains_key(user_id) && user_active(
                old(self).users()[user_id],
            ) ==> exists|t: u64|
                final(self).users() == old(self).users().insert(
                    user_id,
                    soft_deleted(old(self).users()[user_id], t),
                ),
            res is Ok && !(old(self).users().contains_key(user_id) && user_active(
                old(self).users()[user_id],
            )) ==> final(self).users() == old(self).users(),
            res is Err ==> final(self).users() == old(self).users(),
    {
        self.users_repository.remove_by_id(user_id)
    }
}

} // verus!
