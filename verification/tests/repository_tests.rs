use medbook_auth::entities::RegisterUserEntity;
use medbook_auth::errors::AuthError;
use medbook_auth::repository::{UsersMemory, UsersRepository};
use medbook_auth::roles::Roles;
use medbook_auth::users::{RegisterUserModel, UsersUseCase};

fn entity(citizen_id: &str) -> RegisterUserEntity {
    RegisterUserEntity {
        citizen_id: citizen_id.to_string(),
        first_name: "A".to_string(),
        last_name: "B".to_string(),
        phone_number: "0".to_string(),
        password: "hash".to_string(),
        role: vec![Roles::Patient],
        created_at: 5,
        updated_at: 5,
        deleted_at: None,
    }
}

#[test]
fn register_assigns_distinct_ids() {
    let mut repo = UsersMemory::new();
    let a = repo.register(entity("1")).expect("insert");
    let b = repo.register(entity("2")).expect("insert");
    assert_ne!(a, b);
    assert_eq!(repo.find_by_id(a).expect("found").citizen_id, "1");
    assert_eq!(repo.find_by_id(b).expect("found").citizen_id, "2");
}

#[test]
fn find_unknown_id_is_not_found() {
    let repo = UsersMemory::new();
    assert_eq!(repo.find_by_id(1).err(), Some(AuthError::NotFound));
}

#[test]
fn soft_delete_keeps_the_row() {
    let mut repo = UsersMemory::new();
    let id = repo.register(entity("1")).expect("insert");
    repo.remove_by_id(id).expect("soft delete");
    let row = repo.find_by_id(id).expect("row must remain");
    assert!(row.deleted_at.is_some());
    // Idempotent: a second removal changes nothing and is no error.
    let stamp = row.deleted_at;
    repo.remove_by_id(id).expect("second soft delete");
    assert_eq!(repo.find_by_id(id).expect("row").deleted_at, stamp);
    // Removing an absent id is a no-op as well.
    repo.remove_by_id(id + 1).expect("absent id");
}

#[test]
fn role_patch_touches_only_roles_and_updated_at() {
    let mut repo = UsersMemory::new();
    let id = repo.register(entity("1")).expect("insert");
    repo.add_role_to_user_by_id(Roles::Doctor, id).expect("grant");
    let row = repo.find_by_id(id).expect("row");
    assert_eq!(row.role, vec![Roles::Patient, Roles::Doctor]);
    assert_eq!(row.citizen_id, "1");
    assert_eq!(row.created_at, 5);
    repo.add_role_to_user_by_id(Roles::Doctor, id).expect("grant again");
    let row = repo.find_by_id(id).expect("row");
    assert_eq!(row.role, vec![Roles::Patient, Roles::Doctor]);
    repo.remove_role_from_user_by_id(Roles::Doctor, id).expect("revoke");
    let row = repo.find_by_id(id).expect("row");
    assert_eq!(row.role, vec![Roles::Patient]);
    // Patching an absent id is a quiet no-op.
    repo.add_role_to_user_by_id(Roles::Doctor, id + 9).expect("absent id");
}

#[test]
fn to_entity_grants_patient_role_and_timestamps() {
    let model = RegisterUserModel {
        citizen_id: "c".to_string(),
        first_name: "f".to_string(),
        last_name: "l".to_string(),
        phone_number: "p".to_string(),
        password: "already-hashed".to_string(),
    };
    let e = model.to_entity(77);
    assert_eq!(e.role, vec![Roles::Patient]);
    assert_eq!(e.created_at, 77);
    assert_eq!(e.updated_at, 77);
    assert_eq!(e.deleted_at, None);
    assert_eq!(e.password, "already-hashed");
}

#[test]
fn users_use_case_finds_registered_user() {
    let mut users = UsersUseCase::new(UsersMemory::new());
    let id = users
        .register(RegisterUserModel {
            citizen_id: "c".to_string(),
            first_name: "f".to_string(),
            last_name: "l".to_string(),
            phone_number: "p".to_string(),
            password: "pw".to_string(),
        })
        .expect("registration");
    let row = users.find_by_id(id).expect("found");
    assert_eq!(row.citizen_id, "c");
    assert_eq!(users.find_by_id(id + 1).err(), Some(AuthError::NotFound));
}
