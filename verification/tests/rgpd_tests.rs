use hypercyber::access::Membership;
use hypercyber::failure::{Failure, Resource};
use hypercyber::rgpd::{
    add_to_register, apply_breach_update, apply_register_update, apply_response, build_access_request, build_breach,
    build_register_entry, create_access_request, create_breach, get_access_request, get_breach, get_register,
    list_access_requests, list_breaches, respond_to_request, update_breach, update_register_entry, AccessRequest,
    Breach, CreateAccessRequestRequest, CreateBreachRequest, CreateRegisterEntryRequest, RegisterEntry,
    RespondToRequestRequest, UpdateBreachRequest, UpdateRegisterEntryRequest,
};

const T1: u128 = 0x67e5504410b1426f9247bb680e5fe0c8;
const T1_TEXT: &str = "67e55044-10b1-426f-9247-bb680e5fe0c8";
const T2: u128 = 2;
const T3: u128 = 3;

fn member(user: u128, entity: u128) -> Membership {
    Membership { id: 100 + entity, user_id: user, entity_id: entity, role: "member".to_string(), created_at: 0 }
}

fn strings(v: &[&str]) -> Vec<String> {
    v.iter().map(|s| s.to_string()).collect()
}

fn register_request(name: &str) -> CreateRegisterEntryRequest {
    CreateRegisterEntryRequest {
        processing_name: name.to_string(),
        purpose: "payroll".to_string(),
        legal_basis: "contract".to_string(),
        data_categories: strings(&["identity", "bank"]),
        data_subjects: strings(&["employees"]),
        recipients: strings(&["accountant"]),
        retention_period: Some("5 years".to_string()),
        security_measures: None,
    }
}

fn entry(id: u128, entity: u128, created: i64) -> RegisterEntry {
    build_register_entry(id, entity, register_request("p"), created)
}

fn empty_register_patch() -> UpdateRegisterEntryRequest {
    UpdateRegisterEntryRequest {
        processing_name: None,
        purpose: None,
        legal_basis: None,
        data_categories: None,
        data_subjects: None,
        recipients: None,
        retention_period: None,
        security_measures: None,
    }
}

fn access_request(id: u128, entity: u128, created: i64) -> AccessRequest {
    build_access_request(
        id,
        entity,
        CreateAccessRequestRequest {
            requester_name: "Jo".to_string(),
            requester_email: "jo@example.com".to_string(),
            request_type: "erasure".to_string(),
            description: None,
        },
        created,
    )
}

fn breach_request(discovered: i64) -> CreateBreachRequest {
    CreateBreachRequest {
        breach_date: discovered - 10,
        discovery_date: discovered,
        description: "lost laptop".to_string(),
        data_categories_affected: strings(&["health"]),
        number_of_subjects: Some(12),
        severity: "high".to_string(),
        containment_measures: None,
    }
}

fn empty_breach_patch() -> UpdateBreachRequest {
    UpdateBreachRequest {
        breach_date: None,
        discovery_date: None,
        description: None,
        data_categories_affected: None,
        number_of_subjects: None,
        severity: None,
        status: None,
        containment_measures: None,
        notification_date: None,
        authority_notified: None,
        subjects_notified: None,
    }
}

#[test]
fn register_listing_shows_member_tenants_latest_first() {
    let ms = vec![member(1, T1), member(1, T2), member(9, T3)];
    let rows = vec![entry(1, T1, 10), entry(2, T3, 50), entry(3, T2, 30), entry(4, T1, 20)];
    let out = get_register(Some(1), None, &ms, rows).unwrap();
    let ids: Vec<u128> = out.iter().map(|e| e.id).collect();
    assert_eq!(ids, vec![3, 4, 1]);
}

#[test]
fn register_listing_of_one_tenant() {
    let ms = vec![member(1, T1), member(1, T2)];
    let rows = vec![entry(1, T1, 10), entry(3, T2, 30), entry(4, T1, 20)];
    let out = get_register(Some(1), Some(T1_TEXT), &ms, rows).unwrap();
    let ids: Vec<u128> = out.iter().map(|e| e.id).collect();
    assert_eq!(ids, vec![4, 1]);
}

#[test]
fn register_listing_refusals() {
    let ms = vec![member(1, T2)];
    assert_eq!(get_register(None, None, &ms, vec![]), Err(Failure::NotAuthenticated));
    assert_eq!(get_register(Some(1), Some(T1_TEXT), &ms, vec![entry(1, T1, 1)]), Err(Failure::AccessDenied));
    // A tenant parameter that is not an identifier lists all the user's tenants.
    let out = get_register(Some(1), Some("nope"), &ms, vec![entry(1, T1, 1), entry(2, T2, 2)]).unwrap();
    assert_eq!(out.len(), 1);
    assert_eq!(out[0].id, 2);
}

#[test]
fn equal_keys_are_all_listed() {
    let ms = vec![member(1, T1)];
    let out = get_register(Some(1), None, &ms, vec![entry(1, T1, 5), entry(2, T1, 5), entry(3, T1, 6)]).unwrap();
    let mut ids: Vec<u128> = out.iter().map(|e| e.id).collect();
    assert_eq!(ids[0], 3);
    ids.sort();
    assert_eq!(ids, vec![1, 2, 3]);
}

#[test]
fn adding_to_the_register() {
    let ms = vec![member(1, T1)];
    let e = add_to_register(Some(1), Some(T1_TEXT), &ms, register_request("hr")).unwrap();
    assert_eq!(e.entity_id, T1);
    assert_eq!(e.processing_name, "hr");
    assert_eq!(e.data_categories, strings(&["identity", "bank"]));
    assert_eq!(e.retention_period.as_deref(), Some("5 years"));
    assert_eq!(e.created_at, e.updated_at);
    assert!(e.created_at > 0);
    assert_eq!(add_to_register(None, Some(T1_TEXT), &ms, register_request("x")), Err(Failure::NotAuthenticated));
    assert_eq!(add_to_register(Some(1), None, &ms, register_request("x")), Err(Failure::MissingEntityId));
    assert_eq!(add_to_register(Some(1), Some("bad"), &ms, register_request("x")), Err(Failure::MissingEntityId));
    assert_eq!(add_to_register(Some(2), Some(T1_TEXT), &ms, register_request("x")), Err(Failure::AccessDenied));
}

#[test]
fn register_update_replaces_given_fields_only() {
    let old = entry(1, T1, 10);
    let patch = UpdateRegisterEntryRequest {
        purpose: Some("recruiting".to_string()),
        recipients: Some(vec![]),
        security_measures: Some("encryption".to_string()),
        ..empty_register_patch()
    };
    let e = apply_register_update(old.clone(), patch, 99);
    assert_eq!(e.purpose, "recruiting");
    assert!(e.recipients.is_empty());
    assert_eq!(e.security_measures.as_deref(), Some("encryption"));
    assert_eq!(e.processing_name, old.processing_name);
    assert_eq!(e.retention_period, old.retention_period);
    assert_eq!(e.created_at, 10);
    assert_eq!(e.updated_at, 99);
    let unchanged = apply_register_update(old.clone(), empty_register_patch(), 50);
    assert_eq!(unchanged, RegisterEntry { updated_at: 50, ..old });
}

#[test]
fn register_update_refusals() {
    let ms = vec![member(1, T1)];
    assert_eq!(
        update_register_entry(None, Some(entry(1, T1, 1)), &ms, empty_register_patch()),
        Err(Failure::NotAuthenticated)
    );
    assert_eq!(
        update_register_entry(Some(1), None, &ms, empty_register_patch()),
        Err(Failure::NotFound(Resource::RegisterEntry))
    );
    assert_eq!(
        update_register_entry(Some(1), Some(entry(1, T2, 1)), &ms, empty_register_patch()),
        Err(Failure::AccessDenied)
    );
    let e = update_register_entry(Some(1), Some(entry(1, T1, 1)), &ms, empty_register_patch()).unwrap();
    assert!(e.updated_at > 1);
}

#[test]
fn new_requests_are_pending() {
    let ms = vec![member(1, T1)];
    let r = create_access_request(
        Some(1),
        Some(T1_TEXT),
        &ms,
        CreateAccessRequestRequest {
            requester_name: "Jo".to_string(),
            requester_email: "jo@example.com".to_string(),
            request_type: "access".to_string(),
            description: Some("all my data".to_string()),
        },
    )
    .unwrap();
    assert_eq!(r.status, "pending");
    assert_eq!(r.response, None);
    assert_eq!(r.completed_at, None);
    assert_eq!(r.request_type, "access");
    assert_eq!(r.entity_id, T1);
    assert_eq!(r.created_at, r.updated_at);
}

#[test]
fn completing_a_request_stamps_completion() {
    let old = access_request(1, T1, 5);
    let done = apply_response(
        old.clone(),
        RespondToRequestRequest { status: "completed".to_string(), response: Some("sent".to_string()) },
        77,
    );
    assert_eq!(done.status, "completed");
    assert_eq!(done.response.as_deref(), Some("sent"));
    assert_eq!(done.completed_at, Some(77));
    assert_eq!(done.updated_at, 77);
    assert_eq!(done.created_at, 5);
    let again = apply_response(done.clone(), RespondToRequestRequest { status: "in_progress".to_string(), response: None }, 80);
    assert_eq!(again.completed_at, Some(77));
    assert_eq!(again.response, None);
    let open = apply_response(old, RespondToRequestRequest { status: "Completed".to_string(), response: None }, 90);
    assert_eq!(open.completed_at, None);
}

#[test]
fn requests_are_reached_by_members_only() {
    let ms = vec![member(1, T1)];
    assert_eq!(get_access_request(Some(1), Some(access_request(1, T1, 1)), &ms), Ok(access_request(1, T1, 1)));
    assert_eq!(get_access_request(Some(1), Some(access_request(1, T2, 1)), &ms), Err(Failure::AccessDenied));
    assert_eq!(get_access_request(Some(1), None, &ms), Err(Failure::NotFound(Resource::AccessRequest)));
    assert_eq!(get_access_request(None, None, &ms), Err(Failure::NotAuthenticated));
    let body = || RespondToRequestRequest { status: "rejected".to_string(), response: None };
    assert_eq!(respond_to_request(Some(1), Some(access_request(1, T2, 1)), &ms, body()), Err(Failure::AccessDenied));
    let r = respond_to_request(Some(1), Some(access_request(1, T1, 1)), &ms, body()).unwrap();
    assert_eq!(r.status, "rejected");
    assert_eq!(r.completed_at, None);
}

#[test]
fn request_listing_is_latest_first() {
    let ms = vec![member(1, T1)];
    let out = list_access_requests(
        Some(1),
        None,
        &ms,
        vec![access_request(1, T1, 1), access_request(2, T2, 9), access_request(3, T1, 3)],
    )
    .unwrap();
    let ids: Vec<u128> = out.iter().map(|r| r.id).collect();
    assert_eq!(ids, vec![3, 1]);
}

#[test]
fn declared_breaches_start_detected() {
    let ms = vec![member(1, T1)];
    let b = create_breach(Some(1), Some(T1_TEXT), &ms, breach_request(100)).unwrap();
    assert_eq!(b.status, "detected");
    assert!(!b.authority_notified);
    assert!(!b.subjects_notified);
    assert_eq!(b.notification_date, None);
    assert_eq!(b.discovery_date, 100);
    assert_eq!(b.breach_date, 90);
    assert_eq!(b.number_of_subjects, Some(12));
    assert_eq!(create_breach(Some(1), None, &ms, breach_request(1)), Err(Failure::MissingEntityId));
    assert_eq!(create_breach(Some(3), Some(T1_TEXT), &ms, breach_request(1)), Err(Failure::AccessDenied));
}

#[test]
fn breaches_are_listed_by_discovery_date() {
    let ms = vec![member(1, T1)];
    let rows: Vec<Breach> = vec![
        build_breach(1, T1, breach_request(30), 1),
        build_breach(2, T1, breach_request(10), 3),
        build_breach(3, T1, breach_request(20), 2),
    ];
    let out = list_breaches(Some(1), Some(T1_TEXT), &ms, rows).unwrap();
    let ids: Vec<u128> = out.iter().map(|b| b.id).collect();
    assert_eq!(ids, vec![1, 3, 2]);
}

#[test]
fn breach_update_replaces_given_fields_only() {
    let old = build_breach(1, T1, breach_request(30), 1);
    let patch = UpdateBreachRequest {
        status: Some("reported".to_string()),
        notification_date: Some(40),
        authority_notified: Some(true),
        number_of_subjects: Some(3),
        ..empty_breach_patch()
    };
    let b = apply_breach_update(old.clone(), patch, 41);
    assert_eq!(b.status, "reported");
    assert_eq!(b.notification_date, Some(40));
    assert!(b.authority_notified);
    assert!(!b.subjects_notified);
    assert_eq!(b.number_of_subjects, Some(3));
    assert_eq!(b.description, old.description);
    assert_eq!(b.updated_at, 41);
    assert_eq!(apply_breach_update(old.clone(), empty_breach_patch(), 7), Breach { updated_at: 7, ..old });
}

#[test]
fn breach_update_twice_is_once() {
    let old = build_breach(1, T1, breach_request(30), 1);
    let patch = UpdateBreachRequest { severity: Some("low".to_string()), ..empty_breach_patch() };
    let once = apply_breach_update(old, patch.clone(), 9);
    let twice = apply_breach_update(once.clone(), patch, 9);
    assert_eq!(once, twice);
}

#[test]
fn breaches_are_reached_by_members_only() {
    let ms = vec![member(1, T1)];
    let b = build_breach(1, T2, breach_request(30), 1);
    assert_eq!(get_breach(Some(1), Some(b.clone()), &ms), Err(Failure::AccessDenied));
    assert_eq!(get_breach(Some(1), None, &ms), Err(Failure::NotFound(Resource::Breach)));
    assert_eq!(update_breach(Some(1), Some(b), &ms, empty_breach_patch()), Err(Failure::AccessDenied));
    let mine = build_breach(2, T1, breach_request(30), 1);
    assert_eq!(get_breach(Some(1), Some(mine.clone()), &ms), Ok(mine.clone()));
    let u = update_breach(Some(1), Some(mine), &ms, empty_breach_patch()).unwrap();
    assert!(u.updated_at > 1);
}
