//! Tenants ("entities"), their members and their administration.
use vstd::prelude::*;
use crate::access::{Membership, admin_of, has_access, is_admin, member_of, require_user};
use crate::auth::UserAccount;
use crate::clock::{now_micros, MICROS_LIMIT};
use crate::failure::{Failure, Resource};
use crate::ids::new_id;
use crate::rgpd::{overlay, overlay_opt};

verus! {

/// A tenant.
#[derive(Debug, Clone, PartialEq, Eq)]
pub struct Entity {
    pub id: u128,
    pub name: String,
    pub description: Option<String>,
    /// Microseconds since the Unix epoch.
    pub created_at: i64,
    pub updated_at: i64,
}

/// A new tenant.
#[derive(Debug, Clone, PartialEq, Eq)]
pub struct CreateEntityRequest {
    pub name: String,
    pub description: Option<String>,
}

/// A partial update of a tenant; absent fields stay as they are.
#[derive(Debug, Clone, PartialEq, Eq)]
pub struct UpdateEntityRequest {
    pub name: Option<String>,
    pub description: Option<String>,
}

/// A member of a tenant, with the account's public details.
#[derive(Debug, Clone, PartialEq, Eq)]
pub struct EntityUser {
    pub id: u128,
    pub user_id: u128,
    pub entity_id: u128,
    pub role: String,
    pub email: String,
    pub first_name: Option<String>,
    pub last_name: Option<String>,
}

/// The tenant of a membership, when it is present and is the one the membership names.
pub open spec fn joined_entity(user: u128, pair: (Membership, Option<Entity>)) -> Option<Entity> {
    match pair.1 {
        Some(e) => if pair.0.user_id == user && e.id == pair.0.entity_id {
            Some(e)
        } else {
            None
        },
        None => None,
    }
}

/// The tenants of `user` among memberships joined with their tenants, in order.
pub open spec fn tenants_of(user: u128, rows: Seq<(Membership, Option<Entity>)>) -> Seq<Entity> {
    rows.filter_map(|p: (Membership, Option<Entity>)| joined_entity(user, p))
}

/// Lists the tenants the user belongs to, in the order of `rows` (the user's
/// memberships joined with their tenants).
pub fn list_entities(user: Option<u128>, rows: Vec<(Membership, Option<Entity>)>) -> (res: Result<Vec<Entity>, Failure>)
    ensures
        match user {
            None => res == Err::<Vec<Entity>, Failure>(Failure::NotAuthenticated),
            Some(u) => res matches Ok(out) && out@ == tenants_of(u, rows@),
        },
{
    let u = require_user(user)?;
    let ghost orig = rows@;
    let mut rows = rows;
    let mut out: Vec<Entity> = Vec::new();
    assert(out@ =~= Seq::<Entity>::empty());
    assert(tenants_of(u, orig) =~= tenants_of(u, rows@) + out@);
    while rows.len() > 0
        invariant
            tenants_of(u, orig) == tenants_of(u, rows@) + out@,
        decreases rows.len(),
    {
        let ghost before = rows@;
        let (m, e) = rows.pop().unwrap();
        proof {
            assert(before.drop_last() =~= rows@);
        }
        match e {
            Some(ent) => {
                if m.user_id == u && ent.id == m.entity_id {
                    let ghost prev = out@;
                    out.insert(0, ent);
                    assert(out@ =~= seq![ent] + prev);
                    assert(tenants_of(u, orig) =~= tenants_of(u, rows@) + out@);
                }
            },
            None => {},
        }
    }
    assert(tenants_of(u, rows@) =~= Seq::<Entity>::empty());
    assert(out@ =~= tenants_of(u, orig));
    Ok(out)
}

/// `e` and `m` are the tenant and the creator's membership made from `req` by
/// `user` at `now`: the creator administers the new tenant.
pub open spec fn founded(e: Entity, m: Membership, user: u128, req: CreateEntityRequest, now: i64) -> bool {
    &&& e.name == req.name
    &&& e.description == req.description
    &&& e.created_at == now
    &&& e.updated_at == now
    &&& m.user_id == user
    &&& m.entity_id == e.id
    &&& m.role@ == "admin"@
    &&& m.created_at == now
}

/// Creates a tenant with fresh identifiers; its creator becomes its administrator.
pub fn create_entity(user: Option<u128>, body: CreateEntityRequest) -> (res: Result<(Entity, Membership), Failure>)
    ensures
        match user {
            None => res == Err::<(Entity, Membership), Failure>(Failure::NotAuthenticated),
            Some(u) => res matches Ok(p) && founded(p.0, p.1, u, body, p.0.created_at) && 0
                <= p.0.created_at < MICROS_LIMIT,
        },
{
    let u = require_user(user)?;
    let now = now_micros();
    let entity = Entity {
        id: new_id(),
        name: body.name,
        description: body.description,
        created_at: now,
        updated_at: now,
    };
    let membership = Membership {
        id: new_id(),
        user_id: u,
        entity_id: entity.id,
        role: String::from_str("admin"),
        created_at: now,
    };
    Ok((entity, membership))
}

/// The creator of a tenant administers it, whatever memberships it had before.
pub proof fn lemma_founder_administers(
    e: Entity,
    m: Membership,
    user: u128,
    req: CreateEntityRequest,
    now: i64,
    others: Seq<Membership>,
)
    requires
        founded(e, m, user, req, now),
    ensures
        admin_of(others.push(m), user, e.id),
        member_of(others.push(m), user, e.id),
{
    assert(others.push(m)[others.len() as int] == m);
}

/// The lookup of tenant `entity_id` found `existing`.
pub open spec fn found_entity(existing: Option<Entity>, entity_id: u128) -> bool {
    existing matches Some(e) && e.id == entity_id
}

/// Shows a tenant to one of its members.
pub fn get_entity(
    user: Option<u128>,
    entity_id: u128,
    memberships: &Vec<Membership>,
    existing: Option<Entity>,
) -> (res: Result<Entity, Failure>)
    ensures
        match user {
            None => res == Err::<Entity, Failure>(Failure::NotAuthenticated),
            Some(u) => if !member_of(memberships@, u, entity_id) {
                res == Err::<Entity, Failure>(Failure::AccessDenied)
            } else if !found_entity(existing, entity_id) {
                res == Err::<Entity, Failure>(Failure::NotFound(Resource::Entity))
            } else {
                res == Ok::<Entity, Failure>(existing->0)
            },
        },
{
    let u = require_user(user)?;
    if !has_access(memberships, u, entity_id) {
        return Err(Failure::AccessDenied);
    }
    match existing {
        Some(e) => if e.id == entity_id {
            Ok(e)
        } else {
            Err(Failure::NotFound(Resource::Entity))
        },
        None => Err(Failure::NotFound(Resource::Entity)),
    }
}

/// A tenant after a partial update made at `now`.
pub open spec fn patched_entity(old: Entity, patch: UpdateEntityRequest, now: i64) -> Entity {
    Entity {
        id: old.id,
        name: overlay(patch.name, old.name),
        description: overlay_opt(patch.description, old.description),
        created_at: old.created_at,
        updated_at: now,
    }
}

/// Applies a partial update to a tenant.
pub fn apply_entity_update(old: Entity, patch: UpdateEntityRequest, now: i64) -> (e: Entity)
    ensures
        e == patched_entity(old, patch, now),
{
    Entity {
        id: old.id,
        name: match patch.name {
            Some(v) => v,
            None => old.name,
        },
        description: match patch.description {
            Some(v) => Some(v),
            None => old.description,
        },
        created_at: old.created_at,
        updated_at: now,
    }
}

/// An update that gives no field changes nothing but the update time.
pub proof fn lemma_empty_entity_update(old: Entity, patch: UpdateEntityRequest, now: i64)
    requires
        patch.name is None,
        patch.description is None,
    ensures
        patched_entity(old, patch, now) == (Entity { updated_at: now, ..old }),
{
}

/// Updates a tenant; only its administrators may.
pub fn update_entity(
    user: Option<u128>,
    entity_id: u128,
    memberships: &Vec<Membership>,
    existing: Option<Entity>,
    body: UpdateEntityRequest,
) -> (res: Result<Entity, Failure>)
    ensures
        match user {
            None => res == Err::<Entity, Failure>(Failure::NotAuthenticated),
            Some(u) => if !admin_of(memberships@, u, entity_id) {
                res == Err::<Entity, Failure>(Failure::AdminAccessRequired)
            } else if !found_entity(existing, entity_id) {
                res == Err::<Entity, Failure>(Failure::NotFound(Resource::Entity))
            } else {
                res matches Ok(e) && e == patched_entity(existing->0, body, e.updated_at) && 0
                    <= e.updated_at < MICROS_LIMIT
            },
        },
{
    let u = require_user(user)?;
    if !is_admin(memberships, u, entity_id) {
        return Err(Failure::AdminAccessRequired);
    }
    let old = match existing {
        Some(e) => if e.id == entity_id {
            e
        } else {
            return Err(Failure::NotFound(Resource::Entity));
        },
        None => return Err(Failure::NotFound(Resource::Entity)),
    };
    let now = now_micros();
    Ok(apply_entity_update(old, body, now))
}

/// A member of tenant `entity`, when the membership is of that tenant and its account is present.
pub open spec fn joined_member(entity: u128, pair: (Membership, Option<UserAccount>)) -> Option<EntityUser> {
    match pair.1 {
        Some(a) => if pair.0.entity_id == entity && a.id == pair.0.user_id {
            Some(
                EntityUser {
                    id: pair.0.id,
                    user_id: pair.0.user_id,
                    entity_id: pair.0.entity_id,
                    role: pair.0.role,
                    email: a.email,
                    first_name: a.first_name,
                    last_name: a.last_name,
                },
            )
        } else {
            None
        },
        None => None,
    }
}

/// The members of `entity` among memberships joined with their accounts, in order.
pub open spec fn members_of(entity: u128, rows: Seq<(Membership, Option<UserAccount>)>) -> Seq<EntityUser> {
    rows.filter_map(|p: (Membership, Option<UserAccount>)| joined_member(entity, p))
}

/// Lists a tenant's members to one of its members, in the order of `rows`
/// (the tenant's memberships joined with their accounts).
pub fn get_entity_users(
    user: Option<u128>,
    entity_id: u128,
    memberships: &Vec<Membership>,
    rows: Vec<(Membership, Option<UserAccount>)>,
) -> (res: Result<Vec<EntityUser>, Failure>)
    ensures
        match user {
            None => res == Err::<Vec<EntityUser>, Failure>(Failure::NotAuthenticated),
            Some(u) => if !member_of(memberships@, u, entity_id) {
                res == Err::<Vec<EntityUser>, Failure>(Failure::AccessDenied)
            } else {
                res matches Ok(out) && out@ == members_of(entity_id, rows@)
            },
        },
{
    let u = require_user(user)?;
    if !has_access(memberships, u, entity_id) {
        return Err(Failure::AccessDenied);
    }
    let ghost orig = rows@;
    let mut rows = rows;
    let mut out: Vec<EntityUser> = Vec::new();
    assert(members_of(entity_id, orig) =~= members_of(entity_id, rows@) + out@);
    while rows.len() > 0
        invariant
            members_of(entity_id, orig) == members_of(entity_id, rows@) + out@,
        decreases rows.len(),
    {
        let ghost before = rows@;
        let (m, a) = rows.pop().unwrap();
        proof {
            assert(before.drop_last() =~= rows@);
        }
        match a {
            Some(acc) => {
                if m.entity_id == entity_id && acc.id == m.user_id {
                    let ghost prev = out@;
                    let member = EntityUser {
                        id: m.id,
                        user_id: m.user_id,
                        entity_id: m.entity_id,
                        role: m.role,
                        email: acc.email,
                        first_name: acc.first_name,
                        last_name: acc.last_name,
                    };
                    out.insert(0, member);
                    assert(out@ =~= seq![member] + prev);
                    assert(members_of(entity_id, orig) =~= members_of(entity_id, rows@) + out@);
                }
            },
            None => {},
        }
    }
    assert(members_of(entity_id, rows@) =~= Seq::<EntityUser>::empty());
    assert(out@ =~= members_of(entity_id, orig));
    Ok(out)
}

/// A field the update gives replaces the stored one, a field it leaves out is
/// kept, each independently of the others; the identity and creation time
/// stay and the update time is the time of the update.
pub proof fn lemma_entity_update_fields(old: Entity, patch: UpdateEntityRequest, now: i64, r: Entity)
    requires
        r == patched_entity(old, patch, now),
    ensures
        patch.name is Some ==> r.name == patch.name.unwrap(),
        patch.name is None ==> r.name == old.name,
        patch.description is Some ==> r.description == patch.description,
        patch.description is None ==> r.description == old.description,
        r.id == old.id,
        r.created_at == old.created_at,
        r.updated_at == now,
{
}

/// A new tenant carries the requested name and description and the given time,
/// and its creator's membership names the creator and the tenant with the
/// `admin` role.
pub proof fn lemma_new_entity_fields(e: Entity, m: Membership, user: u128, req: CreateEntityRequest, now: i64)
    requires
        founded(e, m, user, req, now),
    ensures
        e.name == req.name,
        e.description == req.description,
        e.created_at == now,
        e.updated_at == now,
        m.user_id == user,
        m.entity_id == e.id,
        m.role@ == "admin"@,
        m.created_at == now,
{
}

} // verus!
