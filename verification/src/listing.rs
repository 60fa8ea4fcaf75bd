//! Listings of tenant-scoped records: which records a user is shown, and in
//! what order.
use vstd::prelude::*;
use vstd::multiset::*;
use vstd::seq_lib::{group_to_multiset_ensures, to_multiset_build, to_multiset_contains, to_multiset_insert};
use crate::access::{Membership, TenantOwned, has_access, member_of, require_user};
use crate::failure::Failure;

verus! {

/// A record that listings order by a time key, latest first.
pub trait Ranked: Sized {
    /// The key listings are ordered by (a time in microseconds), largest first.
    spec fn rank(&self) -> i64;

    fn rank_key(&self) -> (k: i64)
        ensures
            k == self.rank(),
    ;
}

/// A tenant's record that listings order latest first.
pub trait Scoped: TenantOwned + Ranked {

}

/// The records are ordered latest first.
pub open spec fn latest_first<T: Ranked>(s: Seq<T>) -> bool {
    forall|i: int, j: int| 0 <= i < j < s.len() ==> s[i].rank() >= s[j].rank()
}

/// Whether a listing for `user` shows a record of tenant `entity`: the one
/// requested tenant when there is one, else every tenant the user belongs to.
pub open spec fn shown_scope(
    memberships: Seq<Membership>,
    user: u128,
    requested: Option<u128>,
    entity: u128,
) -> bool {
    match requested {
        Some(e) => entity == e,
        None => member_of(memberships, user, entity),
    }
}

/// `shown_scope` as a predicate on records.
pub open spec fn shown<T: Scoped>(
    memberships: Seq<Membership>,
    user: u128,
    requested: Option<u128>,
) -> spec_fn(T) -> bool {
    |r: T| shown_scope(memberships, user, requested, r.owner())
}

/// A request that names a tenant the user does not belong to.
pub open spec fn refused_scope(memberships: Seq<Membership>, user: u128, requested: Option<u128>) -> bool {
    requested matches Some(e) && !member_of(memberships, user, e)
}

/// `out` lists, latest first, exactly the records of `rows` shown to `user`
/// (in some order among equal keys), all of tenants the user belongs to.
pub open spec fn listed<T: Scoped>(
    out: Seq<T>,
    rows: Seq<T>,
    memberships: Seq<Membership>,
    user: u128,
    requested: Option<u128>,
) -> bool {
    &&& latest_first(out)
    &&& out.to_multiset() == rows.filter(shown::<T>(memberships, user, requested)).to_multiset()
    &&& forall|i: int| 0 <= i < out.len() ==> member_of(memberships, user, #[trigger] out[i].owner())
}

/// The records `user` is shown among `rows`, latest first.
///
/// With a requested tenant the user must belong to it, and only its records
/// are shown; without one, the records of all the user's tenants are shown.
pub fn list_visible<T: Scoped>(
    user: u128,
    requested: Option<u128>,
    memberships: &Vec<Membership>,
    rows: Vec<T>,
) -> (res: Result<Vec<T>, Failure>)
    ensures
        refused_scope(memberships@, user, requested) ==> res is Err && res->Err_0
            == Failure::AccessDenied,
        !refused_scope(memberships@, user, requested) ==> res is Ok,
        res matches Ok(out) ==> listed(out@, rows@, memberships@, user, requested),
{
    broadcast use group_multiset_axioms, group_to_multiset_ensures;
    if let Some(e) = requested {
        if !has_access(memberships, user, e) {
            return Err(Failure::AccessDenied);
        }
    }
    let ghost pred = shown::<T>(memberships@, user, requested);
    let ghost orig = rows@;
    let mut rows = rows;
    let mut out: Vec<T> = Vec::new();
    assert(orig.filter(pred).to_multiset() =~= rows@.filter(pred).to_multiset().add(out@.to_multiset()));
    while rows.len() > 0
        invariant
            !refused_scope(memberships@, user, requested),
            pred == shown::<T>(memberships@, user, requested),
            orig.filter(pred).to_multiset() == rows@.filter(pred).to_multiset().add(out@.to_multiset()),
            latest_first(out@),
            forall|i: int| 0 <= i < out@.len() ==> member_of(memberships@, user, #[trigger] out@[i].owner()),
        decreases rows.len(),
    {
        let ghost before = rows@;
        let x = rows.pop().unwrap();
        proof {
            assert(before =~= rows@.push(x));
            rows@.lemma_filter_push(x, pred);
        }
        let keep = match requested {
            Some(e) => x.owner_id() == e,
            None => has_access(memberships, user, x.owner_id()),
        };
        if keep {
            let ghost prev = out@;
            insert_by_rank(&mut out, x);
            assert(pred(x));
            assert(before.filter(pred) == rows@.filter(pred).push(x));
            proof {
                to_multiset_build(rows@.filter(pred), x);
            }
            assert forall|i: int| 0 <= i < out@.len() implies member_of(memberships@, user, #[trigger] out@[i].owner()) by {
                let y = out@[i];
                assert(out@.contains(y));
                to_multiset_contains(out@, y);
                if y != x {
                    to_multiset_contains(prev, y);
                    assert(prev.to_multiset().count(y) > 0);
                    assert(prev.contains(y));
                    let j = choose|j: int| 0 <= j < prev.len() && prev[j] == y;
                    assert(member_of(memberships@, user, prev[j].owner()));
                }
            }
            assert(orig.filter(pred).to_multiset() =~= rows@.filter(pred).to_multiset().add(out@.to_multiset()));
        } else {
            assert(orig.filter(pred).to_multiset() =~= rows@.filter(pred).to_multiset().add(out@.to_multiset()));
        }
    }
    assert(rows@.filter(pred) =~= Seq::<T>::empty()) by {
        reveal(Seq::filter);
    }
    assert(out@.to_multiset() =~= orig.filter(pred).to_multiset());
    Ok(out)
}

/// Inserts `x` into a latest-first sequence, after every record with a key at least as large.
fn insert_by_rank<T: Ranked>(out: &mut Vec<T>, x: T)
    requires
        latest_first(old(out)@),
    ensures
        latest_first(final(out)@),
        final(out)@.to_multiset() == old(out)@.to_multiset().insert(x),
{
    let key = x.rank_key();
    let mut k: usize = 0;
    while k < out.len() && out[k].rank_key() >= key
        invariant
            k <= out.len(),
            forall|j: int| 0 <= j < k ==> out@[j].rank() >= key,
        decreases out.len() - k,
    {
        k += 1;
    }
    let ghost prev = out@;
    proof {
        to_multiset_insert(prev, k as int, x);
    }
    out.insert(k, x);
    assert forall|i: int, j: int| 0 <= i < j < out@.len() implies out@[i].rank() >= out@[j].rank() by {
        if j == k {
        } else if i == k {
            assert(out@[j] == prev[j - 1]);
            assert(prev[k as int].rank() < key);
        } else {
        }
    }
}

/// The records of `rows`, latest first.
pub fn sort_latest_first<T: Ranked>(rows: Vec<T>) -> (out: Vec<T>)
    ensures
        latest_first(out@),
        out@.to_multiset() == rows@.to_multiset(),
{
    broadcast use group_multiset_axioms, group_to_multiset_ensures;
    let ghost orig = rows@;
    let mut rows = rows;
    let mut out: Vec<T> = Vec::new();
    assert(orig.to_multiset() =~= rows@.to_multiset().add(out@.to_multiset()));
    while rows.len() > 0
        invariant
            orig.to_multiset() == rows@.to_multiset().add(out@.to_multiset()),
            latest_first(out@),
        decreases rows.len(),
    {
        let ghost before = rows@;
        let x = rows.pop().unwrap();
        proof {
            assert(before =~= rows@.push(x));
            to_multiset_build(rows@, x);
        }
        insert_by_rank(&mut out, x);
        assert(orig.to_multiset() =~= rows@.to_multiset().add(out@.to_multiset()));
    }
    assert(rows@ =~= Seq::<T>::empty());
    assert(out@.to_multiset() =~= orig.to_multiset());
    out
}

/// A listing request as the service receives it: refused without a user, then
/// as `list_visible` decides.
pub open spec fn listing_outcome<T: Scoped>(
    user: Option<u128>,
    requested: Option<u128>,
    memberships: Seq<Membership>,
    rows: Seq<T>,
    res: Result<Vec<T>, Failure>,
) -> bool {
    match user {
        None => res == Err::<Vec<T>, Failure>(Failure::NotAuthenticated),
        Some(u) => if refused_scope(memberships, u, requested) {
            res == Err::<Vec<T>, Failure>(Failure::AccessDenied)
        } else {
            res matches Ok(out) && listed(out@, rows, memberships, u, requested)
        },
    }
}

/// Lists for an optional authenticated user.
pub fn list_for<T: Scoped>(
    user: Option<u128>,
    requested: Option<u128>,
    memberships: &Vec<Membership>,
    rows: Vec<T>,
) -> (res: Result<Vec<T>, Failure>)
    ensures
        listing_outcome(user, requested, memberships@, rows@, res),
{
    let u = require_user(user)?;
    list_visible(u, requested, memberships, rows)
}


/// A listing shows only records of `rows`, each of a tenant the user belongs
/// to and, when a tenant is requested, of that tenant; and it shows every
/// record of `rows` in that scope.
pub proof fn lemma_listing_scope<T: Scoped>(
    out: Seq<T>,
    rows: Seq<T>,
    memberships: Seq<Membership>,
    user: u128,
    requested: Option<u128>,
)
    requires
        listed(out, rows, memberships, user, requested),
    ensures
        forall|i: int|
            0 <= i < out.len() ==> rows.contains(#[trigger] out[i]) && member_of(memberships, user, out[i].owner())
                && (requested matches Some(e) ==> out[i].owner() == e),
        forall|j: int|
            0 <= j < rows.len() && (match requested {
                Some(e) => rows[j].owner() == e,
                None => member_of(memberships, user, rows[j].owner()),
            }) ==> out.contains(#[trigger] rows[j]),
{
    broadcast use vstd::seq_lib::group_filter_ensures;
    let pred = shown::<T>(memberships, user, requested);
    let kept = rows.filter(pred);
    out.to_multiset_ensures();
    kept.to_multiset_ensures();
    assert forall|i: int| 0 <= i < out.len() implies rows.contains(#[trigger] out[i]) && member_of(
        memberships,
        user,
        out[i].owner(),
    ) && (requested matches Some(e) ==> out[i].owner() == e) by {
        assert(out.contains(out[i]));
        assert(kept.to_multiset().count(out[i]) > 0);
        assert(kept.contains(out[i]));
        let k = choose|k: int| 0 <= k < kept.len() && kept[k] == out[i];
        assert(pred(kept[k]));
        rows.lemma_filter_contains_rev(pred, out[i]);
    }
    assert forall|j: int|
        0 <= j < rows.len() && (match requested {
            Some(e) => rows[j].owner() == e,
            None => member_of(memberships, user, rows[j].owner()),
        }) implies out.contains(#[trigger] rows[j]) by {
        assert(pred(rows[j]));
        rows.lemma_filter_contains(pred, j);
        assert(kept.to_multiset().count(rows[j]) > 0);
    }
}

} // verus!
