use medbook_auth::roles::{add_role, remove_role, roles_contain, Roles};

#[test]
fn role_text_mapping_is_bijective() {
    assert_eq!(Roles::Patient.to_text(), "Patient");
    assert_eq!(Roles::Doctor.to_text(), "Doctor");
    assert_eq!(Roles::from_text("Patient"), Some(Roles::Patient));
    assert_eq!(Roles::from_text("Doctor"), Some(Roles::Doctor));
    assert_eq!(Roles::from_text("doctor"), None);
    assert_eq!(Roles::from_text(""), None);
    assert_eq!(Roles::from_text("Nurse"), None);
}

#[test]
fn add_role_twice_leaves_one_entry() {
    let mut roles = vec![Roles::Patient];
    add_role(&mut roles, Roles::Doctor);
    add_role(&mut roles, Roles::Doctor);
    let doctors = roles.iter().filter(|r| **r == Roles::Doctor).count();
    assert_eq!(doctors, 1);
    assert_eq!(roles, vec![Roles::Patient, Roles::Doctor]);
}

#[test]
fn add_role_on_empty_set() {
    let mut roles: Vec<Roles> = Vec::new();
    add_role(&mut roles, Roles::Doctor);
    assert_eq!(roles, vec![Roles::Doctor]);
}

#[test]
fn remove_role_clears_corrupted_duplicates() {
    let mut roles = vec![Roles::Doctor, Roles::Doctor];
    remove_role(&mut roles, Roles::Doctor);
    assert_eq!(roles, Vec::<Roles>::new());
}

#[test]
fn remove_role_keeps_other_roles_in_order() {
    let mut roles = vec![Roles::Doctor, Roles::Patient, Roles::Doctor];
    remove_role(&mut roles, Roles::Doctor);
    assert_eq!(roles, vec![Roles::Patient]);
}

#[test]
fn remove_role_absent_is_noop() {
    let mut roles = vec![Roles::Patient];
    remove_role(&mut roles, Roles::Doctor);
    assert_eq!(roles, vec![Roles::Patient]);
}

#[test]
fn roles_contain_checks_membership() {
    let roles = vec![Roles::Patient];
    assert!(roles_contain(&roles, Roles::Patient));
    assert!(!roles_contain(&roles, Roles::Doctor));
}
