//! Data-protection registers of a tenant: the processing register, the
//! requests of data subjects and the record of personal-data breaches.
use vstd::prelude::*;
use crate::access::{Membership, TenantOwned, member_of, reach_outcome, reach_record, require_user, required_entity_param, requested_entity, opt_text, entity_param, has_access};
use crate::clock::{now_micros, MICROS_LIMIT};
use crate::failure::{Failure, Resource};
use crate::ids::new_id;
use crate::listing::{Ranked, Scoped, list_for, listing_outcome};
use crate::text::same_text;

verus! {

/// The value a field takes under a partial update: the new one when given.
pub open spec fn overlay<T>(patch: Option<T>, current: T) -> T {
    match patch {
        Some(v) => v,
        None => current,
    }
}

/// The value an optional field takes under a partial update: the new one when
/// given (an update never clears such a field).
pub open spec fn overlay_opt<T>(patch: Option<T>, current: Option<T>) -> Option<T> {
    match patch {
        Some(v) => Some(v),
        None => current,
    }
}

// ---------------------------------------------------------------- register

/// An entry of the processing register.
#[derive(Debug, Clone, PartialEq, Eq)]
pub struct RegisterEntry {
    pub id: u128,
    pub entity_id: u128,
    pub processing_name: String,
    pub purpose: String,
    pub legal_basis: String,
    pub data_categories: Vec<String>,
    pub data_subjects: Vec<String>,
    pub recipients: Vec<String>,
    pub retention_period: Option<String>,
    pub security_measures: Option<String>,
    /// Microseconds since the Unix epoch.
    pub created_at: i64,
    pub updated_at: i64,
}

/// A new entry of the processing register.
#[derive(Debug, Clone, PartialEq, Eq)]
pub struct CreateRegisterEntryRequest {
    pub processing_name: String,
    pub purpose: String,
    pub legal_basis: String,
    pub data_categories: Vec<String>,
    pub data_subjects: Vec<String>,
    pub recipients: Vec<String>,
    pub retention_period: Option<String>,
    pub security_measures: Option<String>,
}

/// A partial update of a register entry; absent fields stay as they are.
#[derive(Debug, Clone, PartialEq, Eq)]
pub struct UpdateRegisterEntryRequest {
    pub processing_name: Option<String>,
    pub purpose: Option<String>,
    pub legal_basis: Option<String>,
    pub data_categories: Option<Vec<String>>,
    pub data_subjects: Option<Vec<String>>,
    pub recipients: Option<Vec<String>>,
    pub retention_period: Option<String>,
    pub security_measures: Option<String>,
}

impl TenantOwned for RegisterEntry {
    open spec fn owner(&self) -> u128 {
        self.entity_id
    }

    fn owner_id(&self) -> (e: u128) {
        self.entity_id
    }
}

impl Scoped for RegisterEntry {

}

impl Ranked for RegisterEntry {
    open spec fn rank(&self) -> i64 {
        self.created_at
    }

    fn rank_key(&self) -> (k: i64) {
        self.created_at
    }
}

/// The register entry made from a request, for a tenant, at a time.
pub open spec fn register_entry_from(
    id: u128,
    entity_id: u128,
    req: CreateRegisterEntryRequest,
    now: i64,
) -> RegisterEntry {
    RegisterEntry {
        id,
        entity_id,
        processing_name: req.processing_name,
        purpose: req.purpose,
        legal_basis: req.legal_basis,
        data_categories: req.data_categories,
        data_subjects: req.data_subjects,
        recipients: req.recipients,
        retention_period: req.retention_period,
        security_measures: req.security_measures,
        created_at: now,
        updated_at: now,
    }
}

/// A register entry after a partial update made at `now`.
pub open spec fn patched_register_entry(
    old: RegisterEntry,
    patch: UpdateRegisterEntryRequest,
    now: i64,
) -> RegisterEntry {
    RegisterEntry {
        id: old.id,
        entity_id: old.entity_id,
        processing_name: overlay(patch.processing_name, old.processing_name),
        purpose: overlay(patch.purpose, old.purpose),
        legal_basis: overlay(patch.legal_basis, old.legal_basis),
        data_categories: overlay(patch.data_categories, old.data_categories),
        data_subjects: overlay(patch.data_subjects, old.data_subjects),
        recipients: overlay(patch.recipients, old.recipients),
        retention_period: overlay_opt(patch.retention_period, old.retention_period),
        security_measures: overlay_opt(patch.security_measures, old.security_measures),
        created_at: old.created_at,
        updated_at: now,
    }
}

/// Builds the register entry of a request.
pub fn build_register_entry(
    id: u128,
    entity_id: u128,
    req: CreateRegisterEntryRequest,
    now: i64,
) -> (entry: RegisterEntry)
    ensures
        entry == register_entry_from(id, entity_id, req, now),
{
    RegisterEntry {
        id,
        entity_id,
        processing_name: req.processing_name,
        purpose: req.purpose,
        legal_basis: req.legal_basis,
        data_categories: req.data_categories,
        data_subjects: req.data_subjects,
        recipients: req.recipients,
        retention_period: req.retention_period,
        security_measures: req.security_measures,
        created_at: now,
        updated_at: now,
    }
}

/// Applies a partial update to a register entry.
pub fn apply_register_update(
    old: RegisterEntry,
    patch: UpdateRegisterEntryRequest,
    now: i64,
) -> (entry: RegisterEntry)
    ensures
        entry == patched_register_entry(old, patch, now),
{
    RegisterEntry {
        id: old.id,
        entity_id: old.entity_id,
        processing_name: match patch.processing_name {
            Some(v) => v,
            None => old.processing_name,
        },
        purpose: match patch.purpose {
            Some(v) => v,
            None => old.purpose,
        },
        legal_basis: match patch.legal_basis {
            Some(v) => v,
            None => old.legal_basis,
        },
        data_categories: match patch.data_categories {
            Some(v) => v,
            None => old.data_categories,
        },
        data_subjects: match patch.data_subjects {
            Some(v) => v,
            None => old.data_subjects,
        },
        recipients: match patch.recipients {
            Some(v) => v,
            None => old.recipients,
        },
        retention_period: match patch.retention_period {
            Some(v) => Some(v),
            None => old.retention_period,
        },
        security_measures: match patch.security_measures {
            Some(v) => Some(v),
            None => old.security_measures,
        },
        created_at: old.created_at,
        updated_at: now,
    }
}

/// The outcome of creating a record in the tenant named by the query: refused
/// without a user, then without a tenant, then when the user is not a member.
pub open spec fn creation_gate(
    user: Option<u128>,
    param: Option<&str>,
    memberships: Seq<Membership>,
) -> Result<u128, Failure> {
    match user {
        None => Err(Failure::NotAuthenticated),
        Some(u) => match requested_entity(opt_text(param)) {
            None => Err(Failure::MissingEntityId),
            Some(e) => if member_of(memberships, u, e) {
                Ok(e)
            } else {
                Err(Failure::AccessDenied)
            },
        },
    }
}

/// The tenant a record is created in, when `creation_gate` admits it.
fn admit_creation(user: Option<u128>, param: Option<&str>, memberships: &Vec<Membership>) -> (res: Result<u128, Failure>)
    ensures
        res == creation_gate(user, param, memberships@),
{
    let u = require_user(user)?;
    let e = required_entity_param(param)?;
    if has_access(memberships, u, e) {
        Ok(e)
    } else {
        Err(Failure::AccessDenied)
    }
}

/// Lists the processing register: the requested tenant's entries, or those of
/// all the user's tenants, latest first.
pub fn get_register(
    user: Option<u128>,
    param: Option<&str>,
    memberships: &Vec<Membership>,
    rows: Vec<RegisterEntry>,
) -> (res: Result<Vec<RegisterEntry>, Failure>)
    ensures
        listing_outcome(user, requested_entity(opt_text(param)), memberships@, rows@, res),
{
    let requested = entity_param(param);
    list_for(user, requested, memberships, rows)
}

/// Adds an entry to the register of the tenant named by the query, with a fresh
/// identifier and the current time as creation and update time.
pub fn add_to_register(
    user: Option<u128>,
    param: Option<&str>,
    memberships: &Vec<Membership>,
    body: CreateRegisterEntryRequest,
) -> (res: Result<RegisterEntry, Failure>)
    ensures
        match creation_gate(user, param, memberships@) {
            Err(f) => res == Err::<RegisterEntry, Failure>(f),
            Ok(e) => res matches Ok(entry) && entry == register_entry_from(
                entry.id,
                e,
                body,
                entry.created_at,
            ) && 0 <= entry.created_at < MICROS_LIMIT,
        },
{
    let e = admit_creation(user, param, memberships)?;
    let id = new_id();
    let now = now_micros();
    Ok(build_register_entry(id, e, body, now))
}

/// Updates a register entry the user can reach, stamping the update time.
pub fn update_register_entry(
    user: Option<u128>,
    existing: Option<RegisterEntry>,
    memberships: &Vec<Membership>,
    body: UpdateRegisterEntryRequest,
) -> (res: Result<RegisterEntry, Failure>)
    ensures
        match reach_outcome(user, existing, memberships@, Resource::RegisterEntry) {
            Err(f) => res == Err::<RegisterEntry, Failure>(f),
            Ok(old) => res matches Ok(entry) && entry == patched_register_entry(
                old,
                body,
                entry.updated_at,
            ) && 0 <= entry.updated_at < MICROS_LIMIT,
        },
{
    let old = reach_record(user, existing, memberships, Resource::RegisterEntry)?;
    let now = now_micros();
    Ok(apply_register_update(old, body, now))
}

/// An update that gives no field changes nothing but the update time.
pub proof fn lemma_empty_register_update(old: RegisterEntry, patch: UpdateRegisterEntryRequest, now: i64)
    requires
        patch.processing_name is None,
        patch.purpose is None,
        patch.legal_basis is None,
        patch.data_categories is None,
        patch.data_subjects is None,
        patch.recipients is None,
        patch.retention_period is None,
        patch.security_measures is None,
    ensures
        patched_register_entry(old, patch, now) == (RegisterEntry { updated_at: now, ..old }),
{
}

/// Applying the same update twice is applying it once.
pub proof fn lemma_register_update_idempotent(old: RegisterEntry, patch: UpdateRegisterEntryRequest, now: i64)
    ensures
        patched_register_entry(patched_register_entry(old, patch, now), patch, now)
            == patched_register_entry(old, patch, now),
{
}

// ---------------------------------------------------------------- requests

/// A data subject's request (access, rectification, erasure, portability, objection).
#[derive(Debug, Clone, PartialEq, Eq)]
pub struct AccessRequest {
    pub id: u128,
    pub entity_id: u128,
    pub requester_name: String,
    pub requester_email: String,
    pub request_type: String,
    pub description: Option<String>,
    /// `pending`, `in_progress`, `completed` or `rejected`.
    pub status: String,
    pub response: Option<String>,
    pub created_at: i64,
    pub updated_at: i64,
    pub completed_at: Option<i64>,
}

/// A new data subject's request.
#[derive(Debug, Clone, PartialEq, Eq)]
pub struct CreateAccessRequestRequest {
    pub requester_name: String,
    pub requester_email: String,
    pub request_type: String,
    pub description: Option<String>,
}

/// The answer given to a data subject's request.
#[derive(Debug, Clone, PartialEq, Eq)]
pub struct RespondToRequestRequest {
    pub status: String,
    pub response: Option<String>,
}

impl TenantOwned for AccessRequest {
    open spec fn owner(&self) -> u128 {
        self.entity_id
    }

    fn owner_id(&self) -> (e: u128) {
        self.entity_id
    }
}

impl Scoped for AccessRequest {

}

impl Ranked for AccessRequest {
    open spec fn rank(&self) -> i64 {
        self.created_at
    }

    fn rank_key(&self) -> (k: i64) {
        self.created_at
    }
}

/// The status a new request starts in.
pub open spec fn pending_status() -> Seq<char> {
    "pending"@
}

/// The status that closes a request.
pub open spec fn completed_status() -> Seq<char> {
    "completed"@
}

/// `r` is the request made from `req` for a tenant at a time: pending, with no
/// response and no completion time.
pub open spec fn is_new_access_request(
    r: AccessRequest,
    id: u128,
    entity_id: u128,
    req: CreateAccessRequestRequest,
    now: i64,
) -> bool {
    &&& r.id == id
    &&& r.entity_id == entity_id
    &&& r.requester_name == req.requester_name
    &&& r.requester_email == req.requester_email
    &&& r.request_type == req.request_type
    &&& r.description == req.description
    &&& r.status@ == pending_status()
    &&& r.response is None
    &&& r.created_at == now
    &&& r.updated_at == now
    &&& r.completed_at is None
}

/// A request after the answer `body` given at `now`: status and response are
/// replaced; completing it records the completion time.
pub open spec fn responded(old: AccessRequest, body: RespondToRequestRequest, now: i64) -> AccessRequest {
    AccessRequest {
        id: old.id,
        entity_id: old.entity_id,
        requester_name: old.requester_name,
        requester_email: old.requester_email,
        request_type: old.request_type,
        description: old.description,
        status: body.status,
        response: body.response,
        created_at: old.created_at,
        updated_at: now,
        completed_at: if body.status@ == completed_status() {
            Some(now)
        } else {
            old.completed_at
        },
    }
}

/// Builds the request made from `req`.
pub fn build_access_request(
    id: u128,
    entity_id: u128,
    req: CreateAccessRequestRequest,
    now: i64,
) -> (r: AccessRequest)
    ensures
        is_new_access_request(r, id, entity_id, req, now),
{
    AccessRequest {
        id,
        entity_id,
        requester_name: req.requester_name,
        requester_email: req.requester_email,
        request_type: req.request_type,
        description: req.description,
        status: String::from_str("pending"),
        response: None,
        created_at: now,
        updated_at: now,
        completed_at: None,
    }
}

/// Records the answer to a request.
pub fn apply_response(old: AccessRequest, body: RespondToRequestRequest, now: i64) -> (r: AccessRequest)
    ensures
        r == responded(old, body, now),
{
    let completes = same_text(body.status.as_str(), "completed");
    AccessRequest {
        id: old.id,
        entity_id: old.entity_id,
        requester_name: old.requester_name,
        requester_email: old.requester_email,
        request_type: old.request_type,
        description: old.description,
        status: body.status,
        response: body.response,
        created_at: old.created_at,
        updated_at: now,
        completed_at: if completes {
            Some(now)
        } else {
            old.completed_at
        },
    }
}

/// Lists data subjects' requests: the requested tenant's, or those of all the
/// user's tenants, latest first.
pub fn list_access_requests(
    user: Option<u128>,
    param: Option<&str>,
    memberships: &Vec<Membership>,
    rows: Vec<AccessRequest>,
) -> (res: Result<Vec<AccessRequest>, Failure>)
    ensures
        listing_outcome(user, requested_entity(opt_text(param)), memberships@, rows@, res),
{
    let requested = entity_param(param);
    list_for(user, requested, memberships, rows)
}

/// Records a new data subject's request in the tenant named by the query.
pub fn create_access_request(
    user: Option<u128>,
    param: Option<&str>,
    memberships: &Vec<Membership>,
    body: CreateAccessRequestRequest,
) -> (res: Result<AccessRequest, Failure>)
    ensures
        match creation_gate(user, param, memberships@) {
            Err(f) => res == Err::<AccessRequest, Failure>(f),
            Ok(e) => res matches Ok(r) && is_new_access_request(r, r.id, e, body, r.created_at)
                && 0 <= r.created_at < MICROS_LIMIT,
        },
{
    let e = admit_creation(user, param, memberships)?;
    let id = new_id();
    let now = now_micros();
    Ok(build_access_request(id, e, body, now))
}

/// Shows a request the user can reach.
pub fn get_access_request(
    user: Option<u128>,
    existing: Option<AccessRequest>,
    memberships: &Vec<Membership>,
) -> (res: Result<AccessRequest, Failure>)
    ensures
        res == reach_outcome(user, existing, memberships@, Resource::AccessRequest),
{
    reach_record(user, existing, memberships, Resource::AccessRequest)
}

/// Answers a request the user can reach.
pub fn respond_to_request(
    user: Option<u128>,
    existing: Option<AccessRequest>,
    memberships: &Vec<Membership>,
    body: RespondToRequestRequest,
) -> (res: Result<AccessRequest, Failure>)
    ensures
        match reach_outcome(user, existing, memberships@, Resource::AccessRequest) {
            Err(f) => res == Err::<AccessRequest, Failure>(f),
            Ok(old) => res matches Ok(r) && r == responded(old, body, r.updated_at) && 0
                <= r.updated_at < MICROS_LIMIT,
        },
{
    let old = reach_record(user, existing, memberships, Resource::AccessRequest)?;
    let now = now_micros();
    Ok(apply_response(old, body, now))
}

/// Answering with status `completed` records the answer time as completion
/// time; any other status leaves the completion time as it was.
pub proof fn lemma_completion_time(old: AccessRequest, body: RespondToRequestRequest, now: i64)
    ensures
        body.status@ == completed_status() ==> responded(old, body, now).completed_at == Some(now),
        body.status@ != completed_status() ==> responded(old, body, now).completed_at
            == old.completed_at,
        responded(old, body, now).status == body.status,
        responded(old, body, now).response == body.response,
{
}

// ---------------------------------------------------------------- breaches

/// A personal-data breach.
#[derive(Debug, Clone, PartialEq, Eq)]
pub struct Breach {
    pub id: u128,
    pub entity_id: u128,
    pub breach_date: i64,
    pub discovery_date: i64,
    pub description: String,
    pub data_categories_affected: Vec<String>,
    pub number_of_subjects: Option<i32>,
    /// `low`, `medium`, `high` or `critical`.
    pub severity: String,
    /// `detected`, `contained`, `investigating`, `resolved` or `reported`.
    pub status: String,
    pub containment_measures: Option<String>,
    pub notification_date: Option<i64>,
    pub authority_notified: bool,
    pub subjects_notified: bool,
    pub created_at: i64,
    pub updated_at: i64,
}

/// A newly declared breach.
#[derive(Debug, Clone, PartialEq, Eq)]
pub struct CreateBreachRequest {
    pub breach_date: i64,
    pub discovery_date: i64,
    pub description: String,
    pub data_categories_affected: Vec<String>,
    pub number_of_subjects: Option<i32>,
    pub severity: String,
    pub containment_measures: Option<String>,
}

/// A partial update of a breach; absent fields stay as they are.
#[derive(Debug, Clone, PartialEq, Eq)]
pub struct UpdateBreachRequest {
    pub breach_date: Option<i64>,
    pub discovery_date: Option<i64>,
    pub description: Option<String>,
    pub data_categories_affected: Option<Vec<String>>,
    pub number_of_subjects: Option<i32>,
    pub severity: Option<String>,
    pub status: Option<String>,
    pub containment_measures: Option<String>,
    pub notification_date: Option<i64>,
    pub authority_notified: Option<bool>,
    pub subjects_notified: Option<bool>,
}

impl TenantOwned for Breach {
    open spec fn owner(&self) -> u128 {
        self.entity_id
    }

    fn owner_id(&self) -> (e: u128) {
        self.entity_id
    }
}

impl Scoped for Breach {

}

impl Ranked for Breach {
    /// Breaches are listed by discovery date.
    open spec fn rank(&self) -> i64 {
        self.discovery_date
    }

    fn rank_key(&self) -> (k: i64) {
        self.discovery_date
    }
}

/// The status of a newly declared breach.
pub open spec fn detected_status() -> Seq<char> {
    "detected"@
}

/// `b` is the breach declared by `req` for a tenant at a time: detected, not
/// yet notified to anyone.
pub open spec fn is_new_breach(b: Breach, id: u128, entity_id: u128, req: CreateBreachRequest, now: i64) -> bool {
    &&& b.id == id
    &&& b.entity_id == entity_id
    &&& b.breach_date == req.breach_date
    &&& b.discovery_date == req.discovery_date
    &&& b.description == req.description
    &&& b.data_categories_affected == req.data_categories_affected
    &&& b.number_of_subjects == req.number_of_subjects
    &&& b.severity == req.severity
    &&& b.status@ == detected_status()
    &&& b.containment_measures == req.containment_measures
    &&& b.notification_date is None
    &&& !b.authority_notified
    &&& !b.subjects_notified
    &&& b.created_at == now
    &&& b.updated_at == now
}

/// A breach after a partial update made at `now`.
pub open spec fn patched_breach(old: Breach, patch: UpdateBreachRequest, now: i64) -> Breach {
    Breach {
        id: old.id,
        entity_id: old.entity_id,
        breach_date: overlay(patch.breach_date, old.breach_date),
        discovery_date: overlay(patch.discovery_date, old.discovery_date),
        description: overlay(patch.description, old.description),
        data_categories_affected: overlay(patch.data_categories_affected, old.data_categories_affected),
        number_of_subjects: overlay_opt(patch.number_of_subjects, old.number_of_subjects),
        severity: overlay(patch.severity, old.severity),
        status: overlay(patch.status, old.status),
        containment_measures: overlay_opt(patch.containment_measures, old.containment_measures),
        notification_date: overlay_opt(patch.notification_date, old.notification_date),
        authority_notified: overlay(patch.authority_notified, old.authority_notified),
        subjects_notified: overlay(patch.subjects_notified, old.subjects_notified),
        created_at: old.created_at,
        updated_at: now,
    }
}

/// An update that gives no field changes nothing but the update time.
pub proof fn lemma_empty_breach_update(old: Breach, patch: UpdateBreachRequest, now: i64)
    requires
        patch.breach_date is None,
        patch.discovery_date is None,
        patch.description is None,
        patch.data_categories_affected is None,
        patch.number_of_subjects is None,
        patch.severity is None,
        patch.status is None,
        patch.containment_measures is None,
        patch.notification_date is None,
        patch.authority_notified is None,
        patch.subjects_notified is None,
    ensures
        patched_breach(old, patch, now) == (Breach { updated_at: now, ..old }),
{
}

/// Applying the same update twice is applying it once.
pub proof fn lemma_breach_update_idempotent(old: Breach, patch: UpdateBreachRequest, now: i64)
    ensures
        patched_breach(patched_breach(old, patch, now), patch, now) == patched_breach(old, patch, now),
{
}

/// Builds the breach declared by `req`.
pub fn build_breach(id: u128, entity_id: u128, req: CreateBreachRequest, now: i64) -> (b: Breach)
    ensures
        is_new_breach(b, id, entity_id, req, now),
{
    Breach {
        id,
        entity_id,
        breach_date: req.breach_date,
        discovery_date: req.discovery_date,
        description: req.description,
        data_categories_affected: req.data_categories_affected,
        number_of_subjects: req.number_of_subjects,
        severity: req.severity,
        status: String::from_str("detected"),
        containment_measures: req.containment_measures,
        notification_date: None,
        authority_notified: false,
        subjects_notified: false,
        created_at: now,
        updated_at: now,
    }
}

/// Applies a partial update to a breach.
pub fn apply_breach_update(old: Breach, patch: UpdateBreachRequest, now: i64) -> (b: Breach)
    ensures
        b == patched_breach(old, patch, now),
{
    Breach {
        id: old.id,
        entity_id: old.entity_id,
        breach_date: match patch.breach_date {
            Some(v) => v,
            None => old.breach_date,
        },
        discovery_date: match patch.discovery_date {
            Some(v) => v,
            None => old.discovery_date,
        },
        description: match patch.description {
            Some(v) => v,
            None => old.description,
        },
        data_categories_affected: match patch.data_categories_affected {
            Some(v) => v,
            None => old.data_categories_affected,
        },
        number_of_subjects: match patch.number_of_subjects {
            Some(v) => Some(v),
            None => old.number_of_subjects,
        },
        severity: match patch.severity {
            Some(v) => v,
            None => old.severity,
        },
        status: match patch.status {
            Some(v) => v,
            None => old.status,
        },
        containment_measures: match patch.containment_measures {
            Some(v) => Some(v),
            None => old.containment_measures,
        },
        notification_date: match patch.notification_date {
            Some(v) => Some(v),
            None => old.notification_date,
        },
        authority_notified: match patch.authority_notified {
            Some(v) => v,
            None => old.authority_notified,
        },
        subjects_notified: match patch.subjects_notified {
            Some(v) => v,
            None => old.subjects_notified,
        },
        created_at: old.created_at,
        updated_at: now,
    }
}

/// Lists breaches: the requested tenant's, or those of all the user's tenants,
/// latest discovery first.
pub fn list_breaches(
    user: Option<u128>,
    param: Option<&str>,
    memberships: &Vec<Membership>,
    rows: Vec<Breach>,
) -> (res: Result<Vec<Breach>, Failure>)
    ensures
        listing_outcome(user, requested_entity(opt_text(param)), memberships@, rows@, res),
{
    let requested = entity_param(param);
    list_for(user, requested, memberships, rows)
}

/// Declares a breach in the tenant named by the query.
pub fn create_breach(
    user: Option<u128>,
    param: Option<&str>,
    memberships: &Vec<Membership>,
    body: CreateBreachRequest,
) -> (res: Result<Breach, Failure>)
    ensures
        match creation_gate(user, param, memberships@) {
            Err(f) => res == Err::<Breach, Failure>(f),
            Ok(e) => res matches Ok(b) && is_new_breach(b, b.id, e, body, b.created_at) && 0
                <= b.created_at < MICROS_LIMIT,
        },
{
    let e = admit_creation(user, param, memberships)?;
    let id = new_id();
    let now = now_micros();
    Ok(build_breach(id, e, body, now))
}

/// Shows a breach the user can reach.
pub fn get_breach(
    user: Option<u128>,
    existing: Option<Breach>,
    memberships: &Vec<Membership>,
) -> (res: Result<Breach, Failure>)
    ensures
        res == reach_outcome(user, existing, memberships@, Resource::Breach),
{
    reach_record(user, existing, memberships, Resource::Breach)
}

/// Updates a breach the user can reach, stamping the update time.
pub fn update_breach(
    user: Option<u128>,
    existing: Option<Breach>,
    memberships: &Vec<Membership>,
    body: UpdateBreachRequest,
) -> (res: Result<Breach, Failure>)
    ensures
        match reach_outcome(user, existing, memberships@, Resource::Breach) {
            Err(f) => res == Err::<Breach, Failure>(f),
            Ok(old) => res matches Ok(b) && b == patched_breach(old, body, b.updated_at) && 0
                <= b.updated_at < MICROS_LIMIT,
        },
{
    let old = reach_record(user, existing, memberships, Resource::Breach)?;
    let now = now_micros();
    Ok(apply_breach_update(old, body, now))
}

/// A new register entry carries each field of the request in the field of the
/// same name, belongs to the given tenant and is stamped with the given time.
pub proof fn lemma_new_register_entry_fields(id: u128, entity_id: u128, req: CreateRegisterEntryRequest, now: i64, r: RegisterEntry)
    requires
        r == register_entry_from(id, entity_id, req, now),
    ensures
        r.id == id,
        r.entity_id == entity_id,
        r.processing_name == req.processing_name,
        r.purpose == req.purpose,
        r.legal_basis == req.legal_basis,
        r.data_categories == req.data_categories,
        r.data_subjects == req.data_subjects,
        r.recipients == req.recipients,
        r.retention_period == req.retention_period,
        r.security_measures == req.security_measures,
        r.created_at == now,
        r.updated_at == now,
{
}

/// A field the update gives replaces the stored one, a field it leaves out is
/// kept, each independently of the others; the identity and creation time
/// stay and the update time is the time of the update.
pub proof fn lemma_register_update_fields(old: RegisterEntry, patch: UpdateRegisterEntryRequest, now: i64, r: RegisterEntry)
    requires
        r == patched_register_entry(old, patch, now),
    ensures
        patch.processing_name is Some ==> r.processing_name == patch.processing_name.unwrap(),
        patch.processing_name is None ==> r.processing_name == old.processing_name,
        patch.purpose is Some ==> r.purpose == patch.purpose.unwrap(),
        patch.purpose is None ==> r.purpose == old.purpose,
        patch.legal_basis is Some ==> r.legal_basis == patch.legal_basis.unwrap(),
        patch.legal_basis is None ==> r.legal_basis == old.legal_basis,
        patch.data_categories is Some ==> r.data_categories == patch.data_categories.unwrap(),
        patch.data_categories is None ==> r.data_categories == old.data_categories,
        patch.data_subjects is Some ==> r.data_subjects == patch.data_subjects.unwrap(),
        patch.data_subjects is None ==> r.data_subjects == old.data_subjects,
        patch.recipients is Some ==> r.recipients == patch.recipients.unwrap(),
        patch.recipients is None ==> r.recipients == old.recipients,
        patch.retention_period is Some ==> r.retention_period == patch.retention_period,
        patch.retention_period is None ==> r.retention_period == old.retention_period,
        patch.security_measures is Some ==> r.security_measures == patch.security_measures,
        patch.security_measures is None ==> r.security_measures == old.security_measures,
        r.id == old.id,
        r.entity_id == old.entity_id,
        r.created_at == old.created_at,
        r.updated_at == now,
{
}

/// A new request carries the requester and the request as given, is pending,
/// has no answer yet and is stamped with the given time.
pub proof fn lemma_new_access_request_fields(id: u128, entity_id: u128, req: CreateAccessRequestRequest, now: i64, r: AccessRequest)
    requires
        is_new_access_request(r, id, entity_id, req, now),
    ensures
        r.id == id,
        r.entity_id == entity_id,
        r.requester_name == req.requester_name,
        r.requester_email == req.requester_email,
        r.request_type == req.request_type,
        r.description == req.description,
        r.status@ == "pending"@,
        r.response == None::<String>,
        r.created_at == now,
        r.updated_at == now,
        r.completed_at == None::<i64>,
{
}

/// A newly declared breach carries each field of the declaration in the field
/// of the same name, is detected, notified to no one, and stamped with the given time.
pub proof fn lemma_new_breach_fields(id: u128, entity_id: u128, req: CreateBreachRequest, now: i64, r: Breach)
    requires
        is_new_breach(r, id, entity_id, req, now),
    ensures
        r.id == id,
        r.entity_id == entity_id,
        r.breach_date == req.breach_date,
        r.discovery_date == req.discovery_date,
        r.description == req.description,
        r.data_categories_affected == req.data_categories_affected,
        r.number_of_subjects == req.number_of_subjects,
        r.severity == req.severity,
        r.containment_measures == req.containment_measures,
        r.status@ == "detected"@,
        r.notification_date == None::<i64>,
        r.authority_notified == false,
        r.subjects_notified == false,
        r.created_at == now,
        r.updated_at == now,
{
}

/// A field the update gives replaces the stored one, a field it leaves out is
/// kept, each independently of the others; the identity and creation time
/// stay and the update time is the time of the update.
pub proof fn lemma_breach_update_fields(old: Breach, patch: UpdateBreachRequest, now: i64, r: Breach)
    requires
        r == patched_breach(old, patch, now),
    ensures
        patch.breach_date is Some ==> r.breach_date == patch.breach_date.unwrap(),
        patch.breach_date is None ==> r.breach_date == old.breach_date,
        patch.discovery_date is Some ==> r.discovery_date == patch.discovery_date.unwrap(),
        patch.discovery_date is None ==> r.discovery_date == old.discovery_date,
        patch.description is Some ==> r.description == patch.description.unwrap(),
        patch.description is None ==> r.description == old.description,
        patch.data_categories_affected is Some ==> r.data_categories_affected == patch.data_categories_affected.unwrap(),
        patch.data_categories_affected is None ==> r.data_categories_affected == old.data_categories_affected,
        patch.number_of_subjects is Some ==> r.number_of_subjects == patch.number_of_subjects,
        patch.number_of_subjects is None ==> r.number_of_subjects == old.number_of_subjects,
        patch.severity is Some ==> r.severity == patch.severity.unwrap(),
        patch.severity is None ==> r.severity == old.severity,
        patch.status is Some ==> r.status == patch.status.unwrap(),
        patch.status is None ==> r.status == old.status,
        patch.containment_measures is Some ==> r.containment_measures == patch.containment_measures,
        patch.containment_measures is None ==> r.containment_measures == old.containment_measures,
        patch.notification_date is Some ==> r.notification_date == patch.notification_date,
        patch.notification_date is None ==> r.notification_date == old.notification_date,
        patch.authority_notified is Some ==> r.authority_notified == patch.authority_notified.unwrap(),
        patch.authority_notified is None ==> r.authority_notified == old.authority_notified,
        patch.subjects_notified is Some ==> r.subjects_notified == patch.subjects_notified.unwrap(),
        patch.subjects_notified is None ==> r.subjects_notified == old.subjects_notified,
        r.id == old.id,
        r.entity_id == old.entity_id,
        r.created_at == old.created_at,
        r.updated_at == now,
{
}

/// Answering a request sets its status and response to the answer's, keeps the
/// requester and the request, stamps the update time, and records the
/// completion time exactly when the answer completes the request.
pub proof fn lemma_response_fields(old: AccessRequest, body: RespondToRequestRequest, now: i64, r: AccessRequest)
    requires
        r == responded(old, body, now),
    ensures
        r.status == body.status,
        r.response == body.response,
        r.id == old.id,
        r.entity_id == old.entity_id,
        r.requester_name == old.requester_name,
        r.requester_email == old.requester_email,
        r.request_type == old.request_type,
        r.description == old.description,
        r.created_at == old.created_at,
        r.updated_at == now,
        body.status@ == "completed"@ ==> r.completed_at == Some(now),
        body.status@ != "completed"@ ==> r.completed_at == old.completed_at,
{
}


/// A record is only created in the tenant the query names, by a signed-in
/// member of that tenant.
pub proof fn lemma_creation_admitted(user: Option<u128>, param: Option<&str>, memberships: Seq<Membership>)
    requires
        creation_gate(user, param, memberships) is Ok,
    ensures
        ({
            let e = creation_gate(user, param, memberships)->Ok_0;
            &&& user is Some
            &&& requested_entity(opt_text(param)) == Some(e)
            &&& member_of(memberships, user->0, e)
        }),
{
}

} // verus!
