//! The user-repository capability and its in-memory implementation.
//!
//! Persistence is a collaborator: the core states what it relies on as the
//! contract of [`UsersRepository`], over the abstract map from user id to
//! row value. [`UsersMemory`] implements the contract with a plain vector,
//! both as the verified reference implementation and as the test double; a
//! database-backed implementation lives with the transport, outside the
//! verified core.

use vstd::prelude::*;

use crate::clock::{clamp_time, current_unix_time};
use crate::entities::{
    registered_user, soft_deleted, user_active, with_roles, RegisterUserEntity, UserEntity,
    UserView,
};
use crate::errors::AuthError;
use crate::roles::{add_role, remove_role, spec_add_role, spec_remove_role, Roles};

verus! {

/// What a store of user rows must do. Each method may fail with
/// `RepositoryError` — storage is allowed to be unavailable — but whatever
/// it returns must relate old and new contents as stated.
pub trait UsersRepository: Sized {
    /// The stored rows, as a map from user id to row value.
    spec fn users(&self) -> Map<u64, UserView>;

    /// Inserts a fresh row under a repository-assigned id that was not in
    /// use. The row is stored exactly as handed over.
    fn register(&mut self, entity: RegisterUserEntity) -> (res: Result<u64, AuthError>)
        ensures
            res matches Ok(id) ==> !old(self).users().contains_key(id) && final(self).users()
                == old(self).users().insert(id, registered_user(id, entity@)),
            res is Err ==> final(self).users() == old(self).users(),
    ;

    /// Looks a row up by id, soft-deleted rows included; `NotFound` is
    /// returned exactly for ids that hold no row.
    fn find_by_id(&self, id: u64) -> (res: Result<UserEntity, AuthError>)
        ensures
            res matches Ok(u) ==> self.users().contains_key(id) && u@ == self.users()[id],
            res matches Err(e) ==> e == AuthError::NotFound || e == AuthError::RepositoryError,
            res == Err::<UserEntity, AuthError>(AuthError::NotFound) ==> !self.users().contains_key(
                id,
            ),
    ;

    /// Soft-deletes a row: the delete mark is set at some time, the row
    /// stays. Absent or already-deleted ids are left alone, without error.
    fn remove_by_id(&mut self, id: u64) -> (res: Result<(), AuthError>)
        ensures
            res is Ok && old(self).users().contains_key(id) && user_active(old(self).users()[id])
                ==> exists|t: u64|
                final(self).users() == old(self).users().insert(
                    id,
                    soft_deleted(old(self).users()[id], t),
                ),
            res is Ok && !(old(self).users().contains_key(id) && user_active(
                old(self).users()[id],
            )) ==> final(self).users() == old(self).users(),
            res is Err ==> final(self).users() == old(self).users(),
    ;

    /// Adds a role to a row's role collection, idempotently, touching
    /// `updated_at`. An absent id is left alone, without error.
    fn add_role_to_user_by_id(&mut self, role: Roles, id: u64) -> (res: Result<(), AuthError>)
        ensures
            res is Ok && old(self).users().contains_key(id) ==> exists|t: u64|
                final(self).users() == old(self).users().insert(
                    id,
                    with_roles(
                        old(self).users()[id],
                        spec_add_role(old(self).users()[id].role, role),
                        t,
                    ),
                ),
            res is Ok && !old(self).users().contains_key(id) ==> final(self).users() == old(
                self,
            ).users(),
            res is Err ==> final(self).users() == old(self).users(),
    ;

    /// Removes every occurrence of a role from a row's role collection,
    /// touching `updated_at`. An absent id is left alone, without error.
    fn remove_role_from_user_by_id(&mut self, role: Roles, id: u64) -> (res: Result<
        (),
        AuthError,
    >)
        ensures
            res is Ok && old(self).users().contains_key(id) ==> exists|t: u64|
                final(self).users() == old(self).users().insert(
                    id,
                    with_roles(
                        old(self).users()[id],
                        spec_remove_role(old(self).users()[id].role, role),
                        t,
                    ),
                ),
            res is Ok && !old(self).users().contains_key(id) ==> final(self).users() == old(
                self,
            ).users(),
            res is Err ==> final(self).users() == old(self).users(),
    ;
}

/// The map a row vector denotes: each row under its id, later rows winning.
/// With unique ids — which [`UsersMemory`] maintains — position is
/// irrelevant.
pub open spec fn map_of(s: Seq<UserEntity>) -> Map<u64, UserView>
    decreases s.len(),
{
    if s.len() == 0 {
        Map::empty()
    } else {
        map_of(s.drop_last()).insert(s.last().id, s.last()@)
    }
}

/// Whether no two rows of a vector share an id.
pub open spec fn ids_unique(s: Seq<UserEntity>) -> bool {
    forall|i: int, j: int| 0 <= i < j < s.len() ==> s[i].id != s[j].id
}

/// An id is in the denoted map exactly when some row carries it.
pub proof fn lemma_map_of_contains(s: Seq<UserEntity>, id: u64)
    ensures
        map_of(s).contains_key(id) <==> exists|i: int| 0 <= i < s.len() && #[trigger] s[i].id
            == id,
    decreases s.len(),
{
    if s.len() > 0 {
        lemma_map_of_contains(s.drop_last(), id);
        if map_of(s).contains_key(id) {
            if s.last().id == id {
                assert(s[s.len() - 1].id == id);
            } else {
                let i = choose|i: int| 0 <= i < s.drop_last().len() && #[trigger] s.drop_last()[i].id
                    == id;
                assert(s[i].id == id);
            }
        }
        if exists|i: int| 0 <= i < s.len() && #[trigger] s[i].id == id {
            let i = choose|i: int| 0 <= i < s.len() && #[trigger] s[i].id == id;
            if i < s.len() - 1 {
                assert(s.drop_last()[i].id == id);
            }
        }
    }
}

/// With unique ids, each row is what the denoted map holds under its id.
pub proof fn lemma_map_of_index(s: Seq<UserEntity>, i: int)
    requires
        ids_unique(s),
        0 <= i < s.len(),
    ensures
        map_of(s).contains_key(s[i].id),
        map_of(s)[s[i].id] == s[i]@,
    decreases s.len(),
{
    if i == s.len() - 1 {
    } else {
        assert(ids_unique(s.drop_last()));
        assert(s.drop_last()[i] == s[i]);
        lemma_map_of_index(s.drop_last(), i);
        assert(s[i].id != s.last().id);
    }
}

/// Replacing one row under its own id denotes an insert of the new value.
pub proof fn lemma_map_of_update(s: Seq<UserEntity>, i: int, v: UserEntity)
    requires
        ids_unique(s),
        0 <= i < s.len(),
        v.id == s[i].id,
    ensures
        map_of(s.update(i, v)) == map_of(s).insert(v.id, v@),
    decreases s.len(),
{
    let s2 = s.update(i, v);
    if i == s.len() - 1 {
        assert(s2.drop_last() =~= s.drop_last());
        assert(s2.last() == v);
        assert(map_of(s2) == map_of(s.drop_last()).insert(v.id, v@));
        assert(map_of(s.drop_last()).insert(s.last().id, s.last()@).insert(v.id, v@)
            =~= map_of(s.drop_last()).insert(v.id, v@));
    } else {
        assert(ids_unique(s.drop_last()));
        assert(s.drop_last()[i] == s[i]);
        lemma_map_of_update(s.drop_last(), i, v);
        assert(s2.drop_last() =~= s.drop_last().update(i, v));
        assert(s2.last() == s.last());
        assert(s[i].id != s.last().id);
        assert(map_of(s2) == map_of(s.drop_last()).insert(v.id, v@).insert(s.last().id, s.last()@));
        assert(map_of(s.drop_last()).insert(v.id, v@).insert(s.last().id, s.last()@)
            =~= map_of(s.drop_last()).insert(s.last().id, s.last()@).insert(v.id, v@));
    }
}

/// The in-memory user store: a plain vector of rows and a fresh-id counter.
/// The reference implementation of the repository contract, and the test
/// double for everything built on it.
pub struct UsersMemory {
    store: Vec<UserEntity>,
    next_id: u64,
}

impl UsersMemory {
    /// Ids are unique and always below the fresh-id counter.
    #[verifier::type_invariant]
    spec fn wf(self) -> bool {
        ids_unique(self.store@) && (forall|i: int|
            0 <= i < self.store@.len() ==> #[trigger] self.store@[i].id < self.next_id)
    }

    /// An empty store.
    pub fn new() -> (res: Self)
        ensures
            res.users() == Map::<u64, UserView>::empty(),
    {
        let s = UsersMemory { store: Vec::new(), next_id: 1 };
        proof {
            assert(s.users() =~= Map::<u64, UserView>::empty());
        }
        s
    }

    /// The index of the row carrying an id, if any.
    fn find_index(&self, id: u64) -> (res: Option<usize>)
        ensures
            res matches Some(i) ==> i < self.store@.len() && self.store@[i as int].id == id,
            res is None ==> !self.users().contains_key(id),
    {
        let n = self.store.len();
        for i in 0..n
            invariant
                n == self.store@.len(),
                forall|j: int| 0 <= j < i ==> (#[trigger] self.store@[j].id) != id,
        {
            if self.store[i].id == id {
                return Some(i);
            }
        }
        proof {
            lemma_map_of_contains(self.store@, id);
        }
        None
    }
}

impl UsersRepository for UsersMemory {
    closed spec fn users(&self) -> Map<u64, UserView> {
        map_of(self.store@)
    }

    fn register(&mut self, entity: RegisterUserEntity) -> (res: Result<u64, AuthError>)
        ensures
            res matches Ok(id) ==> !old(self).users().contains_key(id) && final(self).users()
                == old(self).users().insert(id, registered_user(id, entity@)),
            res is Err ==> final(self).users() == old(self).users(),
    {
        proof {
            use_type_invariant(&*self);
        }
        if self.next_id == u64::MAX {
            return Err(AuthError::RepositoryError);
        }
        let id = self.next_id;
        proof {
            lemma_map_of_contains(self.store@, id);
        }
        let user = UserEntity {
            id,
            citizen_id: entity.citizen_id,
            first_name: entity.first_name,
            last_name: entity.last_name,
            phone_number: entity.phone_number,
            password: entity.password,
            role: entity.role,
            created_at: entity.created_at,
            updated_at: entity.updated_at,
            deleted_at: entity.deleted_at,
        };
        let mut store: Vec<UserEntity> = Vec::new();
        std::mem::swap(&mut store, &mut self.store);
        let ghost pre = store@;
        store.push(user);
        self.next_id = id + 1;
        proof {
            assert(store@.drop_last() =~= pre);
            assert(ids_unique(store@));
        }
        self.store = store;
        Ok(id)
    }

    fn find_by_id(&self, id: u64) -> (res: Result<UserEntity, AuthError>)
        ensures
            res matches Ok(u) ==> self.users().contains_key(id) && u@ == self.users()[id],
            res matches Err(e) ==> e == AuthError::NotFound || e == AuthError::RepositoryError,
            res == Err::<UserEntity, AuthError>(AuthError::NotFound) ==> !self.users().contains_key(
                id,
            ),
    {
        proof {
            use_type_invariant(&*self);
        }
        match self.find_index(id) {
            Some(i) => {
                proof {
                    lemma_map_of_index(self.store@, i as int);
                }
                Ok(self.store[i].clone())
            },
            None => Err(AuthError::NotFound),
        }
    }

    fn remove_by_id(&mut self, id: u64) -> (res: Result<(), AuthError>)
        ensures
            res is Ok && old(self).users().contains_key(id) && user_active(old(self).users()[id])
                ==> exists|t: u64|
                final(self).users() == old(self).users().insert(
                    id,
                    soft_deleted(old(self).users()[id], t),
                ),
            res is Ok && !(old(self).users().contains_key(id) && user_active(
                old(self).users()[id],
            )) ==> final(self).users() == old(self).users(),
            res is Err ==> final(self).users() == old(self).users(),
    {
        proof {
            use_type_invariant(&*self);
        }
        let i = match self.find_index(id) {
            Some(i) => i,
            None => {
                return Ok(());
            },
        };
        proof {
            lemma_map_of_index(self.store@, i as int);
        }
        let mut row = self.store[i].clone();
        if row.deleted_at.is_some() {
            return Ok(());
        }
        let t = clamp_time(current_unix_time());
        row.deleted_at = Some(t);
        let ghost pre = self.store@;
        let mut store: Vec<UserEntity> = Vec::new();
        std::mem::swap(&mut store, &mut self.store);
        store.set(i, row);
        proof {
            assert(ids_unique(store@));
            lemma_map_of_update(pre, i as int, store@[i as int]);
            assert(store@[i as int]@ == soft_deleted(map_of(pre)[id], t));
        }
        self.store = store;
        Ok(())
    }

    fn add_role_to_user_by_id(&mut self, role: Roles, id: u64) -> (res: Result<(), AuthError>)
        ensures
            res is Ok && old(self).users().contains_key(id) ==> exists|t: u64|
                final(self).users() == old(self).users().insert(
                    id,
                    with_roles(
                        old(self).users()[id],
                        spec_add_role(old(self).users()[id].role, role),
                        t,
                    ),
                ),
            res is Ok && !old(self).users().contains_key(id) ==> final(self).users() == old(
                self,
            ).users(),
            res is Err ==> final(self).users() == old(self).users(),
    {
        proof {
            use_type_invariant(&*self);
        }
        let i = match self.find_index(id) {
            Some(i) => i,
            None => {
                return Ok(());
            },
        };
        proof {
            lemma_map_of_index(self.store@, i as int);
        }
        let mut row = self.store[i].clone();
        add_role(&mut row.role, role);
        let t = clamp_time(current_unix_time());
        row.updated_at = t;
        let ghost pre = self.store@;
        let mut store: Vec<UserEntity> = Vec::new();
        std::mem::swap(&mut store, &mut self.store);
        store.set(i, row);
        proof {
            assert(ids_unique(store@));
            lemma_map_of_update(pre, i as int, store@[i as int]);
            assert(store@[i as int]@ == with_roles(
                map_of(pre)[id],
                spec_add_role(map_of(pre)[id].role, role),
                t,
            ));
        }
        self.store = store;
        Ok(())
    }

    fn remove_role_from_user_by_id(&mut self, role: Roles, id: u64) -> (res: Result<
        (),
        AuthError,
    >)
        ensures
            res is Ok && old(self).users().contains_key(id) ==> exists|t: u64|
                final(self).users() == old(self).users().insert(
                    id,
                    with_roles(
                        old(self).users()[id],
                        spec_remove_role(old(self).users()[id].role, role),
                        t,
                    ),
                ),
            res is Ok && !old(self).users().contains_key(id) ==> final(self).users() == old(
                self,
            ).users(),
            res is Err ==> final(self).users() == old(self).users(),
    {
        proof {
            use_type_invariant(&*self);
        }
        let i = match self.find_index(id) {
            Some(i) => i,
            None => {
                return Ok(());
            },
        };
        proof {
            lemma_map_of_index(self.store@, i as int);
        }
        let mut row = self.store[i].clone();
        remove_role(&mut row.role, role);
        let t = clamp_time(current_unix_time());
        row.updated_at = t;
        let ghost pre = self.store@;
        let mut store: Vec<UserEntity> = Vec::new();
        std::mem::swap(&mut store, &mut self.store);
        store.set(i, row);
        proof {
            assert(ids_unique(store@));
            lemma_map_of_update(pre, i as int, store@[i as int]);
            assert(store@[i as int]@ == with_roles(
                map_of(pre)[id],
                spec_remove_role(map_of(pre)[id].role, role),
                t,
            ));
        }
        self.store = store;
        Ok(())
    }
}

} // verus!
