use hypercyber::catalogue::{
    apply_endpoint_update, create_catalogue_relation, create_encryption_algorithm, create_endpoint, create_license_key,
    create_software_version, get_endpoint, list_encryption_algorithms, list_endpoints, list_license_keys,
    list_software_versions, update_endpoint, upload_license_key_file, CreateCatalogueRelationRequest,
    CreateEncryptionAlgorithmRequest, CreateEndpointRequest, CreateLicenseKeyRequest, CreateSoftwareVersionRequest,
    Endpoint, UpdateEndpointRequest,
};
use hypercyber::failure::{Failure, Resource};

fn endpoint(id: u128, kind: &str, created: i64) -> Endpoint {
    Endpoint {
        id,
        name: format!("e{}", id),
        endpoint_type: kind.to_string(),
        description: None,
        address: Some("10.0.0.1".to_string()),
        metadata: Some(serde_json::Value::Bool(true)),
        created_at: created,
        updated_at: created,
    }
}

fn empty_patch() -> UpdateEndpointRequest {
    UpdateEndpointRequest { name: None, endpoint_type: None, description: None, address: None, metadata: None }
}

#[test]
fn endpoints_are_filtered_by_type_and_listed_latest_first() {
    let rows = vec![endpoint(1, "machine", 5), endpoint(2, "url", 9), endpoint(3, "machine", 7)];
    let out = list_endpoints(Some(1), Some("machine"), rows.clone()).unwrap();
    assert_eq!(out.iter().map(|e| e.id).collect::<Vec<_>>(), vec![3, 1]);
    let all = list_endpoints(Some(1), None, rows.clone()).unwrap();
    assert_eq!(all.iter().map(|e| e.id).collect::<Vec<_>>(), vec![2, 3, 1]);
    assert!(list_endpoints(Some(1), Some("api"), rows.clone()).unwrap().is_empty());
    assert_eq!(list_endpoints(None, None, rows), Err(Failure::NotAuthenticated));
}

#[test]
fn endpoints_are_created_and_updated() {
    let e = create_endpoint(
        Some(1),
        CreateEndpointRequest {
            name: "db".to_string(),
            endpoint_type: "machine".to_string(),
            description: None,
            address: Some("db.local".to_string()),
            metadata: Some(serde_json::Value::from(3)),
        },
    )
    .unwrap();
    assert_eq!(e.name, "db");
    assert_eq!(e.metadata, Some(serde_json::Value::from(3)));
    assert_eq!(e.created_at, e.updated_at);
    let u = update_endpoint(
        Some(1),
        e.id,
        Some(e.clone()),
        UpdateEndpointRequest { description: Some("primary".to_string()), ..empty_patch() },
    )
    .unwrap();
    assert_eq!(u.description.as_deref(), Some("primary"));
    assert_eq!(u.address.as_deref(), Some("db.local"));
    assert_eq!(update_endpoint(Some(1), e.id, None, empty_patch()), Err(Failure::NotFound(Resource::Endpoint)));
    assert_eq!(update_endpoint(None, e.id, Some(e), empty_patch()), Err(Failure::NotAuthenticated));
}

#[test]
fn endpoint_lookup() {
    assert_eq!(get_endpoint(Some(1), 4, Some(endpoint(4, "url", 1))), Ok(endpoint(4, "url", 1)));
    assert_eq!(get_endpoint(Some(1), 4, Some(endpoint(5, "url", 1))), Err(Failure::NotFound(Resource::Endpoint)));
    assert_eq!(get_endpoint(Some(1), 4, None), Err(Failure::NotFound(Resource::Endpoint)));
    assert_eq!(get_endpoint(None, 4, None), Err(Failure::NotAuthenticated));
}

#[test]
fn empty_endpoint_update_only_stamps_time() {
    let e = endpoint(1, "url", 3);
    assert_eq!(apply_endpoint_update(e.clone(), empty_patch(), 8), Endpoint { updated_at: 8, ..e });
}

#[test]
fn licence_keys_start_in_local_storage_without_file() {
    let k = create_license_key(
        Some(1),
        CreateLicenseKeyRequest {
            name: "office".to_string(),
            license_type: "string".to_string(),
            key_value: Some("AAAA-BBBB".to_string()),
            description: None,
            expires_at: Some(100),
        },
    )
    .unwrap();
    assert_eq!(k.storage_type, "local");
    assert_eq!(k.file_path, None);
    assert_eq!(k.file_name, None);
    assert_eq!(k.file_size, None);
    assert_eq!(k.key_value.as_deref(), Some("AAAA-BBBB"));
    assert_eq!(k.expires_at, Some(100));
    let keys = list_license_keys(Some(1), vec![k.clone()]).unwrap();
    assert_eq!(keys, vec![k]);
    assert_eq!(list_license_keys(None, vec![]), Err(Failure::NotAuthenticated));
}

#[test]
fn licence_file_upload_is_not_available() {
    assert_eq!(upload_license_key_file(Some(1)), Failure::FileUploadNotImplemented);
    assert_eq!(upload_license_key_file(None), Failure::NotAuthenticated);
}

#[test]
fn versions_algorithms_and_relations() {
    let v = create_software_version(
        Some(1),
        CreateSoftwareVersionRequest {
            name: "nginx".to_string(),
            version: "1.25.3".to_string(),
            description: None,
            release_date: Some(1),
            end_of_life: None,
            metadata: None,
        },
    )
    .unwrap();
    assert_eq!(v.version, "1.25.3");
    let older = hypercyber::catalogue::SoftwareVersion { id: 99, created_at: v.created_at - 1, ..v.clone() };
    let out = list_software_versions(Some(1), vec![older.clone(), v.clone()]).unwrap();
    assert_eq!(out, vec![v.clone(), older]);
    let a = create_encryption_algorithm(
        Some(1),
        CreateEncryptionAlgorithmRequest {
            name: "AES".to_string(),
            algorithm_type: "symmetric".to_string(),
            key_size: Some(256),
            description: None,
            standard: Some("AES-256".to_string()),
            metadata: None,
        },
    )
    .unwrap();
    assert_eq!(a.key_size, Some(256));
    assert_eq!(list_encryption_algorithms(Some(1), vec![a.clone()]).unwrap(), vec![a.clone()]);
    let r = create_catalogue_relation(
        Some(1),
        CreateCatalogueRelationRequest {
            source_type: "endpoint".to_string(),
            source_id: 5,
            target_type: "software_version".to_string(),
            target_id: v.id,
            relation_type: "uses".to_string(),
            description: None,
        },
    )
    .unwrap();
    assert_eq!(r.source_id, 5);
    assert_eq!(r.target_id, v.id);
    assert_eq!(r.relation_type, "uses");
    assert_eq!(
        create_catalogue_relation(
            None,
            CreateCatalogueRelationRequest {
                source_type: String::new(),
                source_id: 0,
                target_type: String::new(),
                target_id: 0,
                relation_type: String::new(),
                description: None
            }
        ),
        Err(Failure::NotAuthenticated)
    );
}
