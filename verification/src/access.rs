//! Tenant membership and the access rules built on it.
use vstd::prelude::*;
use crate::failure::{Failure, Resource};
use crate::ids::{parse_id, uuid_parse};
use crate::text::same_text;

verus! {

/// A user's membership in a tenant, with the role it grants.
#[derive(Debug, Clone, PartialEq, Eq)]
pub struct Membership {
    pub id: u128,
    pub user_id: u128,
    pub entity_id: u128,
    pub role: String,
    /// Microseconds since the Unix epoch.
    pub created_at: i64,
}

/// The role a tenant's creator receives.
pub open spec fn admin_role() -> Seq<char> {
    "admin"@
}

/// True when some membership links `user` to `entity`.
pub open spec fn member_of(memberships: Seq<Membership>, user: u128, entity: u128) -> bool {
    exists|i: int|
        0 <= i < memberships.len() && #[trigger] memberships[i].user_id == user
            && memberships[i].entity_id == entity
}

/// True when some membership makes `user` an administrator of `entity`.
pub open spec fn admin_of(memberships: Seq<Membership>, user: u128, entity: u128) -> bool {
    exists|i: int|
        0 <= i < memberships.len() && #[trigger] memberships[i].user_id == user
            && memberships[i].entity_id == entity && memberships[i].role@ == admin_role()
}

/// Whether `user` may act on the data of `entity`.
pub fn has_access(memberships: &Vec<Membership>, user: u128, entity: u128) -> (res: bool)
    ensures
        res == member_of(memberships@, user, entity),
{
    let mut i: usize = 0;
    while i < memberships.len()
        invariant
            i <= memberships.len(),
            forall|j: int|
                0 <= j < i ==> !(#[trigger] memberships@[j].user_id == user
                    && memberships@[j].entity_id == entity),
        decreases memberships.len() - i,
    {
        if memberships[i].user_id == user && memberships[i].entity_id == entity {
            return true;
        }
        i += 1;
    }
    false
}

/// Whether `user` administers `entity`.
pub fn is_admin(memberships: &Vec<Membership>, user: u128, entity: u128) -> (res: bool)
    ensures
        res == admin_of(memberships@, user, entity),
{
    let mut i: usize = 0;
    while i < memberships.len()
        invariant
            i <= memberships.len(),
            forall|j: int|
                0 <= j < i ==> !(#[trigger] memberships@[j].user_id == user
                    && memberships@[j].entity_id == entity && memberships@[j].role@
                    == admin_role()),
        decreases memberships.len() - i,
    {
        let m = &memberships[i];
        if m.user_id == user && m.entity_id == entity && same_text(m.role.as_str(), "admin") {
            return true;
        }
        i += 1;
    }
    false
}

/// Access for the asset catalogue: unrestricted when no tenant is named,
/// otherwise membership in the named tenant.
pub fn check_entity_access(memberships: &Vec<Membership>, user: u128, entity: Option<u128>) -> (res: bool)
    ensures
        res == match entity {
            Some(e) => member_of(memberships@, user, e),
            None => true,
        },
{
    match entity {
        Some(e) => has_access(memberships, user, e),
        None => true,
    }
}

/// The authenticated user, required by every protected operation.
pub fn require_user(user: Option<u128>) -> (res: Result<u128, Failure>)
    ensures
        match user {
            Some(u) => res == Ok::<u128, Failure>(u),
            None => res == Err::<u128, Failure>(Failure::NotAuthenticated),
        },
{
    match user {
        Some(u) => Ok(u),
        None => Err(Failure::NotAuthenticated),
    }
}

/// The tenant named by an `entity_id` query parameter, if it holds an identifier.
pub open spec fn requested_entity(param: Option<Seq<char>>) -> Option<u128> {
    match param {
        Some(p) => uuid_parse(p),
        None => None,
    }
}

/// The view of an optional text.
pub open spec fn opt_text(param: Option<&str>) -> Option<Seq<char>> {
    match param {
        Some(p) => Some(p@),
        None => None,
    }
}

/// Reads the optional `entity_id` query parameter; one that is not an
/// identifier counts as absent.
pub fn entity_param(param: Option<&str>) -> (res: Option<u128>)
    ensures
        res == requested_entity(opt_text(param)),
{
    match param {
        Some(p) => parse_id(p),
        None => None,
    }
}

/// Reads the `entity_id` query parameter that an operation requires.
pub fn required_entity_param(param: Option<&str>) -> (res: Result<u128, Failure>)
    ensures
        match requested_entity(opt_text(param)) {
            Some(e) => res == Ok::<u128, Failure>(e),
            None => res == Err::<u128, Failure>(Failure::MissingEntityId),
        },
{
    match entity_param(param) {
        Some(e) => Ok(e),
        None => Err(Failure::MissingEntityId),
    }
}

/// A stored record that belongs to one tenant.
pub trait TenantOwned: Sized {
    /// The tenant the record belongs to.
    spec fn owner(&self) -> u128;

    fn owner_id(&self) -> (e: u128)
        ensures
            e == self.owner(),
    ;
}

/// The outcome of reaching a stored record as `user`: refused without a user,
/// then when the record is missing, then when the user is not a member of its tenant.
pub open spec fn reach_outcome<T: TenantOwned>(
    user: Option<u128>,
    record: Option<T>,
    memberships: Seq<Membership>,
    kind: Resource,
) -> Result<T, Failure> {
    match user {
        None => Err(Failure::NotAuthenticated),
        Some(u) => match record {
            None => Err(Failure::NotFound(kind)),
            Some(r) => if member_of(memberships, u, r.owner()) {
                Ok(r)
            } else {
                Err(Failure::AccessDenied)
            },
        },
    }
}

/// A record is only ever reached by a member of its tenant.
pub proof fn lemma_reached_by_member<T: TenantOwned>(
    user: Option<u128>,
    record: Option<T>,
    memberships: Seq<Membership>,
    kind: Resource,
)
    requires
        reach_outcome(user, record, memberships, kind) is Ok,
    ensures
        user matches Some(u) && member_of(
            memberships,
            u,
            reach_outcome(user, record, memberships, kind)->Ok_0.owner(),
        ),
        record == Some(reach_outcome(user, record, memberships, kind)->Ok_0),
{
}

/// Lets `user` reach `record` when it exists and the user belongs to its tenant.
pub fn reach_record<T: TenantOwned>(
    user: Option<u128>,
    record: Option<T>,
    memberships: &Vec<Membership>,
    kind: Resource,
) -> (res: Result<T, Failure>)
    ensures
        res == reach_outcome(user, record, memberships@, kind),
{
    let u = match user {
        Some(u) => u,
        None => return Err(Failure::NotAuthenticated),
    };
    let r = match record {
        Some(r) => r,
        None => return Err(Failure::NotFound(kind)),
    };
    if has_access(memberships, u, r.owner_id()) {
        Ok(r)
    } else {
        Err(Failure::AccessDenied)
    }
}


/// Access to a tenant is granted exactly by a membership naming both the user
/// and that tenant; administration, by such a membership with the `admin` role.
/// Memberships of other users or of other tenants grant nothing.
pub proof fn lemma_membership_grants(memberships: Seq<Membership>, user: u128, entity: u128)
    ensures
        member_of(memberships, user, entity) <==> exists|m: Membership|
            #[trigger] memberships.contains(m) && m.user_id == user && m.entity_id == entity,
        admin_of(memberships, user, entity) <==> exists|m: Membership|
            #[trigger] memberships.contains(m) && m.user_id == user && m.entity_id == entity && m.role@
                == "admin"@,
        admin_of(memberships, user, entity) ==> member_of(memberships, user, entity),
        memberships.len() == 0 ==> !member_of(memberships, user, entity),
{
    if member_of(memberships, user, entity) {
        let i = choose|i: int|
            0 <= i < memberships.len() && #[trigger] memberships[i].user_id == user
                && memberships[i].entity_id == entity;
        assert(memberships.contains(memberships[i]));
    }
    if exists|m: Membership|
        #[trigger] memberships.contains(m) && m.user_id == user && m.entity_id == entity {
        let m = choose|m: Membership|
            #[trigger] memberships.contains(m) && m.user_id == user && m.entity_id == entity;
        let i = choose|i: int| 0 <= i < memberships.len() && memberships[i] == m;
        assert(memberships[i].user_id == user);
    }
    if admin_of(memberships, user, entity) {
        let i = choose|i: int|
            0 <= i < memberships.len() && #[trigger] memberships[i].user_id == user
                && memberships[i].entity_id == entity && memberships[i].role@ == admin_role();
        assert(memberships.contains(memberships[i]));
    }
    if exists|m: Membership|
        #[trigger] memberships.contains(m) && m.user_id == user && m.entity_id == entity && m.role@
            == "admin"@ {
        let m = choose|m: Membership|
            #[trigger] memberships.contains(m) && m.user_id == user && m.entity_id == entity && m.role@
                == "admin"@;
        let i = choose|i: int| 0 <= i < memberships.len() && memberships[i] == m;
        assert(memberships[i].user_id == user);
    }
}

} // verus!
