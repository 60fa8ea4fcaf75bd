use hypercyber::access::{check_entity_access, entity_param, has_access, is_admin, required_entity_param, require_user, Membership};
use hypercyber::failure::Failure;

const ENTITY_TEXT: &str = "67e55044-10b1-426f-9247-bb680e5fe0c8";
const ENTITY: u128 = 0x67e5504410b1426f9247bb680e5fe0c8;

fn membership(user: u128, entity: u128, role: &str) -> Membership {
    Membership { id: user * 1000 + entity, user_id: user, entity_id: entity, role: role.to_string(), created_at: 0 }
}

#[test]
fn membership_grants_access_to_its_tenant_only() {
    let ms = vec![membership(1, 10, "member"), membership(2, 20, "admin")];
    assert!(has_access(&ms, 1, 10));
    assert!(!has_access(&ms, 1, 20));
    assert!(!has_access(&ms, 3, 10));
    assert!(!has_access(&vec![], 1, 10));
}

#[test]
fn only_the_admin_role_administers() {
    let ms = vec![membership(1, 10, "member"), membership(2, 10, "admin"), membership(3, 10, "Admin")];
    assert!(!is_admin(&ms, 1, 10));
    assert!(is_admin(&ms, 2, 10));
    assert!(!is_admin(&ms, 3, 10));
    assert!(!is_admin(&ms, 2, 11));
}

#[test]
fn catalogue_access_is_open_without_tenant() {
    let ms = vec![membership(1, 10, "member")];
    assert!(check_entity_access(&ms, 5, None));
    assert!(check_entity_access(&ms, 1, Some(10)));
    assert!(!check_entity_access(&ms, 5, Some(10)));
}

#[test]
fn user_is_required() {
    assert_eq!(require_user(Some(7)), Ok(7));
    assert_eq!(require_user(None), Err(Failure::NotAuthenticated));
}

#[test]
fn entity_parameter_is_read_as_identifier() {
    assert_eq!(entity_param(Some(ENTITY_TEXT)), Some(ENTITY));
    assert_eq!(entity_param(Some("67E55044-10B1-426F-9247-BB680E5FE0C8")), Some(ENTITY));
    assert_eq!(entity_param(Some("not-a-uuid")), None);
    assert_eq!(entity_param(None), None);
    assert_eq!(required_entity_param(Some(ENTITY_TEXT)), Ok(ENTITY));
    assert_eq!(required_entity_param(Some("42")), Err(Failure::MissingEntityId));
    assert_eq!(required_entity_param(None), Err(Failure::MissingEntityId));
}
