//! The asset catalogue: endpoints, licence keys, software versions, encryption
//! algorithms and the relations between catalogue items.
use vstd::prelude::*;
use vstd::multiset::*;
use vstd::seq_lib::{group_to_multiset_ensures, to_multiset_build};
use crate::access::require_user;
use crate::clock::{now_micros, MICROS_LIMIT};
use crate::failure::{Failure, Resource};
use crate::ids::new_id;
use crate::listing::{Ranked, latest_first, sort_latest_first};
use crate::rgpd::{overlay, overlay_opt};
use crate::text::same_text;

verus! {

#[verifier::external_type_specification]
#[verifier::external_body]
pub struct ExJsonValue(serde_json::Value);

/// A catalogued endpoint: a machine, a program, a URL, an API...
#[derive(Debug, Clone, PartialEq, Eq)]
pub struct Endpoint {
    pub id: u128,
    pub name: String,
    pub endpoint_type: String,
    pub description: Option<String>,
    /// URL, IP address, host name...
    pub address: Option<String>,
    /// Details specific to the endpoint type, carried as given.
    pub metadata: Option<serde_json::Value>,
    /// Microseconds since the Unix epoch.
    pub created_at: i64,
    pub updated_at: i64,
}

/// A new endpoint.
#[derive(Debug, Clone, PartialEq, Eq)]
pub struct CreateEndpointRequest {
    pub name: String,
    pub endpoint_type: String,
    pub description: Option<String>,
    pub address: Option<String>,
    pub metadata: Option<serde_json::Value>,
}

/// A partial update of an endpoint; absent fields stay as they are.
#[derive(Debug, Clone, PartialEq, Eq)]
pub struct UpdateEndpointRequest {
    pub name: Option<String>,
    pub endpoint_type: Option<String>,
    pub description: Option<String>,
    pub address: Option<String>,
    pub metadata: Option<serde_json::Value>,
}

/// A licence key, held as text or as a stored file.
#[derive(Debug, Clone, PartialEq, Eq)]
pub struct LicenseKey {
    pub id: u128,
    pub name: String,
    /// `string` or `file`.
    pub license_type: String,
    pub key_value: Option<String>,
    pub file_path: Option<String>,
    pub file_name: Option<String>,
    pub file_size: Option<i64>,
    /// `local` or `s3`.
    pub storage_type: String,
    pub description: Option<String>,
    pub expires_at: Option<i64>,
    pub created_at: i64,
    pub updated_at: i64,
}

/// A new licence key.
#[derive(Debug, Clone, PartialEq, Eq)]
pub struct CreateLicenseKeyRequest {
    pub name: String,
    pub license_type: String,
    pub key_value: Option<String>,
    pub description: Option<String>,
    pub expires_at: Option<i64>,
}

/// A partial update of a licence key.
#[derive(Debug, Clone, PartialEq, Eq)]
pub struct UpdateLicenseKeyRequest {
    pub name: Option<String>,
    pub license_type: Option<String>,
    pub key_value: Option<String>,
    pub description: Option<String>,
    pub expires_at: Option<i64>,
}

/// A version of a piece of software.
#[derive(Debug, Clone, PartialEq, Eq)]
pub struct SoftwareVersion {
    pub id: u128,
    pub name: String,
    pub version: String,
    pub description: Option<String>,
    pub release_date: Option<i64>,
    pub end_of_life: Option<i64>,
    pub metadata: Option<serde_json::Value>,
    pub created_at: i64,
    pub updated_at: i64,
}

/// A new software version.
#[derive(Debug, Clone, PartialEq, Eq)]
pub struct CreateSoftwareVersionRequest {
    pub name: String,
    pub version: String,
    pub description: Option<String>,
    pub release_date: Option<i64>,
    pub end_of_life: Option<i64>,
    pub metadata: Option<serde_json::Value>,
}

/// A partial update of a software version.
#[derive(Debug, Clone, PartialEq, Eq)]
pub struct UpdateSoftwareVersionRequest {
    pub name: Option<String>,
    pub version: Option<String>,
    pub description: Option<String>,
    pub release_date: Option<i64>,
    pub end_of_life: Option<i64>,
    pub metadata: Option<serde_json::Value>,
}

/// An encryption algorithm in use.
#[derive(Debug, Clone, PartialEq, Eq)]
pub struct EncryptionAlgorithm {
    pub id: u128,
    pub name: String,
    /// `symmetric`, `asymmetric`, `hashing`...
    pub algorithm_type: String,
    /// Key size in bits.
    pub key_size: Option<i32>,
    pub description: Option<String>,
    pub standard: Option<String>,
    pub metadata: Option<serde_json::Value>,
    pub created_at: i64,
    pub updated_at: i64,
}

/// A new encryption algorithm.
#[derive(Debug, Clone, PartialEq, Eq)]
pub struct CreateEncryptionAlgorithmRequest {
    pub name: String,
    pub algorithm_type: String,
    pub key_size: Option<i32>,
    pub description: Option<String>,
    pub standard: Option<String>,
    pub metadata: Option<serde_json::Value>,
}

/// A partial update of an encryption algorithm.
#[derive(Debug, Clone, PartialEq, Eq)]
pub struct UpdateEncryptionAlgorithmRequest {
    pub name: Option<String>,
    pub algorithm_type: Option<String>,
    pub key_size: Option<i32>,
    pub description: Option<String>,
    pub standard: Option<String>,
    pub metadata: Option<serde_json::Value>,
}

/// A typed link between two catalogue items (or other records).
#[derive(Debug, Clone, PartialEq, Eq)]
pub struct CatalogueRelation {
    pub id: u128,
    pub source_type: String,
    pub source_id: u128,
    pub target_type: String,
    pub target_id: u128,
    /// `uses`, `depends_on`, `implements`, `contains`...
    pub relation_type: String,
    pub description: Option<String>,
    pub created_at: i64,
}

/// A new relation.
#[derive(Debug, Clone, PartialEq, Eq)]
pub struct CreateCatalogueRelationRequest {
    pub source_type: String,
    pub source_id: u128,
    pub target_type: String,
    pub target_id: u128,
    pub relation_type: String,
    pub description: Option<String>,
}

impl Ranked for Endpoint {
    open spec fn rank(&self) -> i64 {
        self.created_at
    }

    fn rank_key(&self) -> (k: i64) {
        self.created_at
    }
}

impl Ranked for LicenseKey {
    open spec fn rank(&self) -> i64 {
        self.created_at
    }

    fn rank_key(&self) -> (k: i64) {
        self.created_at
    }
}

impl Ranked for SoftwareVersion {
    open spec fn rank(&self) -> i64 {
        self.created_at
    }

    fn rank_key(&self) -> (k: i64) {
        self.created_at
    }
}

impl Ranked for EncryptionAlgorithm {
    open spec fn rank(&self) -> i64 {
        self.created_at
    }

    fn rank_key(&self) -> (k: i64) {
        self.created_at
    }
}

/// `out` holds exactly the records of `rows`, latest first.
pub open spec fn all_latest_first<T: Ranked>(out: Seq<T>, rows: Seq<T>) -> bool {
    latest_first(out) && out.to_multiset() == rows.to_multiset()
}

/// The outcome of listing a whole catalogue table.
pub open spec fn catalogue_listing<T: Ranked>(user: Option<u128>, rows: Seq<T>, res: Result<Vec<T>, Failure>) -> bool {
    match user {
        None => res == Err::<Vec<T>, Failure>(Failure::NotAuthenticated),
        Some(_) => res matches Ok(out) && all_latest_first(out@, rows),
    }
}

fn list_all<T: Ranked>(user: Option<u128>, rows: Vec<T>) -> (res: Result<Vec<T>, Failure>)
    ensures
        catalogue_listing(user, rows@, res),
{
    require_user(user)?;
    Ok(sort_latest_first(rows))
}

// ---------------------------------------------------------------- endpoints

/// Whether an endpoint passes the optional type filter.
pub open spec fn of_type(wanted: Option<Seq<char>>) -> spec_fn(Endpoint) -> bool {
    |e: Endpoint| match wanted {
        Some(t) => e.endpoint_type@ == t,
        None => true,
    }
}

/// The view of an optional text.
pub open spec fn opt_view(t: Option<&str>) -> Option<Seq<char>> {
    match t {
        Some(s) => Some(s@),
        None => None,
    }
}

/// Lists endpoints, of the given type if one is given, latest first.
pub fn list_endpoints(user: Option<u128>, endpoint_type: Option<&str>, rows: Vec<Endpoint>) -> (res: Result<Vec<Endpoint>, Failure>)
    ensures
        match user {
            None => res == Err::<Vec<Endpoint>, Failure>(Failure::NotAuthenticated),
            Some(_) => res matches Ok(out) && all_latest_first(
                out@,
                rows@.filter(of_type(opt_view(endpoint_type))),
            ),
        },
{
    broadcast use group_multiset_axioms, group_to_multiset_ensures;
    require_user(user)?;
    let ghost pred = of_type(opt_view(endpoint_type));
    let ghost orig = rows@;
    let mut rows = rows;
    let mut kept: Vec<Endpoint> = Vec::new();
    assert(orig.filter(pred).to_multiset() =~= rows@.filter(pred).to_multiset().add(kept@.to_multiset()));
    while rows.len() > 0
        invariant
            pred == of_type(opt_view(endpoint_type)),
            orig.filter(pred).to_multiset() == rows@.filter(pred).to_multiset().add(kept@.to_multiset()),
        decreases rows.len(),
    {
        let ghost before = rows@;
        let x = rows.pop().unwrap();
        proof {
            assert(before =~= rows@.push(x));
            rows@.lemma_filter_push(x, pred);
        }
        let keep = match endpoint_type {
            Some(t) => same_text(x.endpoint_type.as_str(), t),
            None => true,
        };
        if keep {
            let ghost prev = kept@;
            kept.push(x);
            proof {
                to_multiset_build(rows@.filter(pred), x);
                to_multiset_build(prev, x);
            }
        }
        assert(orig.filter(pred).to_multiset() =~= rows@.filter(pred).to_multiset().add(kept@.to_multiset()));
    }
    assert(rows@.filter(pred) =~= Seq::<Endpoint>::empty()) by {
        reveal(Seq::filter);
    }
    assert(kept@.to_multiset() =~= orig.filter(pred).to_multiset());
    Ok(sort_latest_first(kept))
}

/// The endpoint made from a request at a time.
pub open spec fn endpoint_from(id: u128, req: CreateEndpointRequest, now: i64) -> Endpoint {
    Endpoint {
        id,
        name: req.name,
        endpoint_type: req.endpoint_type,
        description: req.description,
        address: req.address,
        metadata: req.metadata,
        created_at: now,
        updated_at: now,
    }
}

/// Records a new endpoint with a fresh identifier.
pub fn create_endpoint(user: Option<u128>, body: CreateEndpointRequest) -> (res: Result<Endpoint, Failure>)
    ensures
        match user {
            None => res == Err::<Endpoint, Failure>(Failure::NotAuthenticated),
            Some(_) => res matches Ok(e) && e == endpoint_from(e.id, body, e.created_at) && 0
                <= e.created_at < MICROS_LIMIT,
        },
{
    require_user(user)?;
    let now = now_micros();
    Ok(
        Endpoint {
            id: new_id(),
            name: body.name,
            endpoint_type: body.endpoint_type,
            description: body.description,
            address: body.address,
            metadata: body.metadata,
            created_at: now,
            updated_at: now,
        },
    )
}

/// The lookup of endpoint `id` found `existing`.
pub open spec fn found_endpoint(existing: Option<Endpoint>, id: u128) -> bool {
    existing matches Some(e) && e.id == id
}

/// Shows an endpoint.
pub fn get_endpoint(user: Option<u128>, endpoint_id: u128, existing: Option<Endpoint>) -> (res: Result<Endpoint, Failure>)
    ensures
        match user {
            None => res == Err::<Endpoint, Failure>(Failure::NotAuthenticated),
            Some(_) => if found_endpoint(existing, endpoint_id) {
                res == Ok::<Endpoint, Failure>(existing->0)
            } else {
                res == Err::<Endpoint, Failure>(Failure::NotFound(Resource::Endpoint))
            },
        },
{
    require_user(user)?;
    match existing {
        Some(e) => if e.id == endpoint_id {
            Ok(e)
        } else {
            Err(Failure::NotFound(Resource::Endpoint))
        },
        None => Err(Failure::NotFound(Resource::Endpoint)),
    }
}

/// An endpoint after a partial update made at `now`.
pub open spec fn patched_endpoint(old: Endpoint, patch: UpdateEndpointRequest, now: i64) -> Endpoint {
    Endpoint {
        id: old.id,
        name: overlay(patch.name, old.name),
        endpoint_type: overlay(patch.endpoint_type, old.endpoint_type),
        description: overlay_opt(patch.description, old.description),
        address: overlay_opt(patch.address, old.address),
        metadata: overlay_opt(patch.metadata, old.metadata),
        created_at: old.created_at,
        updated_at: now,
    }
}

/// Applies a partial update to an endpoint.
pub fn apply_endpoint_update(old: Endpoint, patch: UpdateEndpointRequest, now: i64) -> (e: Endpoint)
    ensures
        e == patched_endpoint(old, patch, now),
{
    Endpoint {
        id: old.id,
        name: match patch.name {
            Some(v) => v,
            None => old.name,
        },
        endpoint_type: match patch.endpoint_type {
            Some(v) => v,
            None => old.endpoint_type,
        },
        description: match patch.description {
            Some(v) => Some(v),
            None => old.description,
        },
        address: match patch.address {
            Some(v) => Some(v),
            None => old.address,
        },
        metadata: match patch.metadata {
            Some(v) => Some(v),
            None => old.metadata,
        },
        created_at: old.created_at,
        updated_at: now,
    }
}

/// An update that gives no field changes nothing but the update time.
pub proof fn lemma_empty_endpoint_update(old: Endpoint, patch: UpdateEndpointRequest, now: i64)
    requires
        patch.name is None,
        patch.endpoint_type is None,
        patch.description is None,
        patch.address is None,
        patch.metadata is None,
    ensures
        patched_endpoint(old, patch, now) == (Endpoint { updated_at: now, ..old }),
{
}

/// Updates an endpoint, stamping the update time.
pub fn update_endpoint(
    user: Option<u128>,
    endpoint_id: u128,
    existing: Option<Endpoint>,
    body: UpdateEndpointRequest,
) -> (res: Result<Endpoint, Failure>)
    ensures
        match user {
            None => res == Err::<Endpoint, Failure>(Failure::NotAuthenticated),
            Some(_) => if found_endpoint(existing, endpoint_id) {
                res matches Ok(e) && e == patched_endpoint(existing->0, body, e.updated_at) && 0
                    <= e.updated_at < MICROS_LIMIT
            } else {
                res == Err::<Endpoint, Failure>(Failure::NotFound(Resource::Endpoint))
            },
        },
{
    let old = get_endpoint(user, endpoint_id, existing)?;
    let now = now_micros();
    Ok(apply_endpoint_update(old, body, now))
}

// ---------------------------------------------------------------- licence keys

/// Lists licence keys, latest first.
pub fn list_license_keys(user: Option<u128>, rows: Vec<LicenseKey>) -> (res: Result<Vec<LicenseKey>, Failure>)
    ensures
        catalogue_listing(user, rows@, res),
{
    list_all(user, rows)
}

/// `k` is the licence key made from `req` at `now`: kept in local storage, with no file yet.
pub open spec fn is_new_license_key(k: LicenseKey, id: u128, req: CreateLicenseKeyRequest, now: i64) -> bool {
    &&& k.id == id
    &&& k.name == req.name
    &&& k.license_type == req.license_type
    &&& k.key_value == req.key_value
    &&& k.file_path is None
    &&& k.file_name is None
    &&& k.file_size is None
    &&& k.storage_type@ == "local"@
    &&& k.description == req.description
    &&& k.expires_at == req.expires_at
    &&& k.created_at == now
    &&& k.updated_at == now
}

/// Records a new licence key with a fresh identifier.
pub fn create_license_key(user: Option<u128>, body: CreateLicenseKeyRequest) -> (res: Result<LicenseKey, Failure>)
    ensures
        match user {
            None => res == Err::<LicenseKey, Failure>(Failure::NotAuthenticated),
            Some(_) => res matches Ok(k) && is_new_license_key(k, k.id, body, k.created_at) && 0
                <= k.created_at < MICROS_LIMIT,
        },
{
    require_user(user)?;
    let now = now_micros();
    Ok(
        LicenseKey {
            id: new_id(),
            name: body.name,
            license_type: body.license_type,
            key_value: body.key_value,
            file_path: None,
            file_name: None,
            file_size: None,
            storage_type: String::from_str("local"),
            description: body.description,
            expires_at: body.expires_at,
            created_at: now,
            updated_at: now,
        },
    )
}

/// Uploading a licence file: refused, as it is not available.
pub fn upload_license_key_file(user: Option<u128>) -> (refusal: Failure)
    ensures
        refusal == match user {
            None => Failure::NotAuthenticated,
            Some(_) => Failure::FileUploadNotImplemented,
        },
{
    match user {
        None => Failure::NotAuthenticated,
        Some(_) => Failure::FileUploadNotImplemented,
    }
}

// ---------------------------------------------------------------- software versions

/// Lists software versions, latest first.
pub fn list_software_versions(user: Option<u128>, rows: Vec<SoftwareVersion>) -> (res: Result<Vec<SoftwareVersion>, Failure>)
    ensures
        catalogue_listing(user, rows@, res),
{
    list_all(user, rows)
}

/// The software version made from a request at a time.
pub open spec fn software_version_from(id: u128, req: CreateSoftwareVersionRequest, now: i64) -> SoftwareVersion {
    SoftwareVersion {
        id,
        name: req.name,
        version: req.version,
        description: req.description,
        release_date: req.release_date,
        end_of_life: req.end_of_life,
        metadata: req.metadata,
        created_at: now,
        updated_at: now,
    }
}

/// Records a new software version with a fresh identifier.
pub fn create_software_version(user: Option<u128>, body: CreateSoftwareVersionRequest) -> (res: Result<SoftwareVersion, Failure>)
    ensures
        match user {
            None => res == Err::<SoftwareVersion, Failure>(Failure::NotAuthenticated),
            Some(_) => res matches Ok(v) && v == software_version_from(v.id, body, v.created_at) && 0
                <= v.created_at < MICROS_LIMIT,
        },
{
    require_user(user)?;
    let now = now_micros();
    Ok(
        SoftwareVersion {
            id: new_id(),
            name: body.name,
            version: body.version,
            description: body.description,
            release_date: body.release_date,
            end_of_life: body.end_of_life,
            metadata: body.metadata,
            created_at: now,
            updated_at: now,
        },
    )
}

// ---------------------------------------------------------------- algorithms

/// Lists encryption algorithms, latest first.
pub fn list_encryption_algorithms(user: Option<u128>, rows: Vec<EncryptionAlgorithm>) -> (res: Result<Vec<EncryptionAlgorithm>, Failure>)
    ensures
        catalogue_listing(user, rows@, res),
{
    list_all(user, rows)
}

/// The encryption algorithm made from a request at a time.
pub open spec fn encryption_algorithm_from(id: u128, req: CreateEncryptionAlgorithmRequest, now: i64) -> EncryptionAlgorithm {
    EncryptionAlgorithm {
        id,
        name: req.name,
        algorithm_type: req.algorithm_type,
        key_size: req.key_size,
        description: req.description,
        standard: req.standard,
        metadata: req.metadata,
        created_at: now,
        updated_at: now,
    }
}

/// Records a new encryption algorithm with a fresh identifier.
pub fn create_encryption_algorithm(user: Option<u128>, body: CreateEncryptionAlgorithmRequest) -> (res: Result<EncryptionAlgorithm, Failure>)
    ensures
        match user {
            None => res == Err::<EncryptionAlgorithm, Failure>(Failure::NotAuthenticated),
            Some(_) => res matches Ok(a) && a == encryption_algorithm_from(a.id, body, a.created_at)
                && 0 <= a.created_at < MICROS_LIMIT,
        },
{
    require_user(user)?;
    let now = now_micros();
    Ok(
        EncryptionAlgorithm {
            id: new_id(),
            name: body.name,
            algorithm_type: body.algorithm_type,
            key_size: body.key_size,
            description: body.description,
            standard: body.standard,
            metadata: body.metadata,
            created_at: now,
            updated_at: now,
        },
    )
}

// ---------------------------------------------------------------- relations

/// The relation made from a request at a time.
pub open spec fn relation_from(id: u128, req: CreateCatalogueRelationRequest, now: i64) -> CatalogueRelation {
    CatalogueRelation {
        id,
        source_type: req.source_type,
        source_id: req.source_id,
        target_type: req.target_type,
        target_id: req.target_id,
        relation_type: req.relation_type,
        description: req.description,
        created_at: now,
    }
}

/// Records a new relation with a fresh identifier.
pub fn create_catalogue_relation(user: Option<u128>, body: CreateCatalogueRelationRequest) -> (res: Result<CatalogueRelation, Failure>)
    ensures
        match user {
            None => res == Err::<CatalogueRelation, Failure>(Failure::NotAuthenticated),
            Some(_) => res matches Ok(r) && r == relation_from(r.id, body, r.created_at) && 0
                <= r.created_at < MICROS_LIMIT,
        },
{
    require_user(user)?;
    let now = now_micros();
    Ok(
        CatalogueRelation {
            id: new_id(),
            source_type: body.source_type,
            source_id: body.source_id,
            target_type: body.target_type,
            target_id: body.target_id,
            relation_type: body.relation_type,
            description: body.description,
            created_at: now,
        },
    )
}

/// A new endpoint carries each field of the request in the field of the same
/// name and is stamped with the given time.
pub proof fn lemma_new_endpoint_fields(id: u128, req: CreateEndpointRequest, now: i64, r: Endpoint)
    requires
        r == endpoint_from(id, req, now),
    ensures
        r.id == id,
        r.name == req.name,
        r.endpoint_type == req.endpoint_type,
        r.description == req.description,
        r.address == req.address,
        r.metadata == req.metadata,
        r.created_at == now,
        r.updated_at == now,
{
}

/// A field the update gives replaces the stored one, a field it leaves out is
/// kept, each independently of the others; the identity and creation time
/// stay and the update time is the time of the update.
pub proof fn lemma_endpoint_update_fields(old: Endpoint, patch: UpdateEndpointRequest, now: i64, r: Endpoint)
    requires
        r == patched_endpoint(old, patch, now),
    ensures
        patch.name is Some ==> r.name == patch.name.unwrap(),
        patch.name is None ==> r.name == old.name,
        patch.endpoint_type is Some ==> r.endpoint_type == patch.endpoint_type.unwrap(),
        patch.endpoint_type is None ==> r.endpoint_type == old.endpoint_type,
        patch.description is Some ==> r.description == patch.description,
        patch.description is None ==> r.description == old.description,
        patch.address is Some ==> r.address == patch.address,
        patch.address is None ==> r.address == old.address,
        patch.metadata is Some ==> r.metadata == patch.metadata,
        patch.metadata is None ==> r.metadata == old.metadata,
        r.id == old.id,
        r.created_at == old.created_at,
        r.updated_at == now,
{
}

/// A new licence key carries each field of the request in the field of the same
/// name, has no file yet, is kept in local storage and is stamped with the given time.
pub proof fn lemma_new_license_key_fields(id: u128, req: CreateLicenseKeyRequest, now: i64, r: LicenseKey)
    requires
        is_new_license_key(r, id, req, now),
    ensures
        r.id == id,
        r.name == req.name,
        r.license_type == req.license_type,
        r.key_value == req.key_value,
        r.description == req.description,
        r.expires_at == req.expires_at,
        r.file_path == None::<String>,
        r.file_name == None::<String>,
        r.file_size == None::<i64>,
        r.storage_type@ == "local"@,
        r.created_at == now,
        r.updated_at == now,
{
}

/// A new software version carries each field of the request in the field of the
/// same name and is stamped with the given time.
pub proof fn lemma_new_software_version_fields(id: u128, req: CreateSoftwareVersionRequest, now: i64, r: SoftwareVersion)
    requires
        r == software_version_from(id, req, now),
    ensures
        r.id == id,
        r.name == req.name,
        r.version == req.version,
        r.description == req.description,
        r.release_date == req.release_date,
        r.end_of_life == req.end_of_life,
        r.metadata == req.metadata,
        r.created_at == now,
        r.updated_at == now,
{
}

/// A new encryption algorithm carries each field of the request in the field of
/// the same name and is stamped with the given time.
pub proof fn lemma_new_encryption_algorithm_fields(id: u128, req: CreateEncryptionAlgorithmRequest, now: i64, r: EncryptionAlgorithm)
    requires
        r == encryption_algorithm_from(id, req, now),
    ensures
        r.id == id,
        r.name == req.name,
        r.algorithm_type == req.algorithm_type,
        r.key_size == req.key_size,
        r.description == req.description,
        r.standard == req.standard,
        r.metadata == req.metadata,
        r.created_at == now,
        r.updated_at == now,
{
}

/// A new relation links the given source to the given target with the given
/// kind and description, stamped with the given time.
pub proof fn lemma_new_relation_fields(id: u128, req: CreateCatalogueRelationRequest, now: i64, r: CatalogueRelation)
    requires
        r == relation_from(id, req, now),
    ensures
        r.id == id,
        r.source_type == req.source_type,
        r.source_id == req.source_id,
        r.target_type == req.target_type,
        r.target_id == req.target_id,
        r.relation_type == req.relation_type,
        r.description == req.description,
        r.created_at == now,
{
}

} // verus!
