//! Who may do what: a member's role carries a permission set.

use crate::error::{forbidden, shown, AppError, Lookup, Refusal};
use crate::models::permission::{holds, Permission, ALL_BITS};
use vstd::prelude::*;

verus! {

/// Whether the permission bits that a lookup found hold what is wanted. A user
/// without a role, or who is no member, holds nothing.
pub open spec fn permitted(found: Lookup<i64>, wanted: i64) -> Result<bool, Refusal> {
    match found {
        Lookup::Found(bits) => Ok(holds(bits & ALL_BITS, wanted)),
        Lookup::Missing => Ok(false),
        Lookup::Failed(e) => Err(Refusal::Internal(e@)),
    }
}

/// Whether the permission bits that a lookup found hold one of those wanted.
pub open spec fn permitted_any(found: Lookup<i64>, wanted: Seq<Permission>) -> Result<bool, Refusal> {
    match found {
        Lookup::Found(bits) => Ok(
            exists|i: int| 0 <= i < wanted.len() && holds(bits & ALL_BITS, #[trigger] wanted[i].bits),
        ),
        Lookup::Missing => Ok(false),
        Lookup::Failed(e) => Err(Refusal::Internal(e@)),
    }
}

/// Whether the user whose role has these permission bits holds `perm`.
pub fn has_permission(found: &Lookup<i64>, perm: Permission) -> (res: Result<bool, AppError>)
    ensures
        shown(res) == permitted(*found, perm.bits),
{
    match found {
        Lookup::Found(bits) => Ok(Permission::from_bits_truncate(*bits).contains(perm)),
        Lookup::Missing => Ok(false),
        Lookup::Failed(e) => Err(AppError::Internal(e.clone())),
    }
}

/// Whether the user whose role has these permission bits holds any one of
/// `perms`, where several permissions grant overlapping capabilities.
pub fn has_any_permission(found: &Lookup<i64>, perms: &[Permission]) -> (res: Result<bool, AppError>)
    ensures
        shown(res) == permitted_any(*found, perms@),
{
    match found {
        Lookup::Found(bits) => {
            let held = Permission::from_bits_truncate(*bits);
            let mut i: usize = 0;
            while i < perms.len()
                invariant
                    i <= perms@.len(),
                    held.bits == bits & ALL_BITS,
                    forall|j: int| 0 <= j < i ==> !holds(held.bits, #[trigger] perms@[j].bits),
                    found == Lookup::Found(*bits),
                decreases perms@.len() - i,
            {
                if held.contains(perms[i]) {
                    return Ok(true);
                }
                i += 1;
            }
            Ok(false)
        },
        Lookup::Missing => Ok(false),
        Lookup::Failed(e) => Err(AppError::Internal(e.clone())),
    }
}

/// The id of the system Owner role.
pub const OWNER_ROLE: i64 = 1;

/// The id of the system Moderator role.
pub const MODERATOR_ROLE: i64 = 2;

/// The id of the system Member role.
pub const MEMBER_ROLE: i64 = 3;

/// Whether the role id that a lookup found is that of the system Owner role.
pub open spec fn owner_role(found: Lookup<i64>) -> Result<bool, Refusal> {
    match found {
        Lookup::Found(role_id) => Ok(role_id == OWNER_ROLE),
        Lookup::Missing => Ok(false),
        Lookup::Failed(e) => Err(Refusal::Internal(e@)),
    }
}

/// Whether the user with this role id holds the system Owner role.
pub fn is_owner_equivalent(found: &Lookup<i64>) -> (res: Result<bool, AppError>)
    ensures
        shown(res) == owner_role(*found),
{
    match found {
        Lookup::Found(role_id) => Ok(*role_id == OWNER_ROLE),
        Lookup::Missing => Ok(false),
        Lookup::Failed(e) => Err(AppError::Internal(e.clone())),
    }
}

/// The message when a count comes back without a row.
pub open spec fn no_rows() -> Seq<char> {
    "Query returned no rows"@
}

/// How many owners a lookup counted.
pub open spec fn owner_count(found: Lookup<i64>) -> Result<i64, Refusal> {
    match found {
        Lookup::Found(n) => Ok(n),
        Lookup::Missing => Err(Refusal::Internal(no_rows())),
        Lookup::Failed(e) => Err(Refusal::Internal(e@)),
    }
}

/// How many members hold the system Owner role.
pub fn count_owner_equivalent_members(found: &Lookup<i64>) -> (res: Result<i64, AppError>)
    ensures
        shown(res) == owner_count(*found),
{
    match found {
        Lookup::Found(n) => Ok(*n),
        Lookup::Missing => Err(AppError::Internal("Query returned no rows".to_owned())),
        Lookup::Failed(e) => Err(AppError::Internal(e.clone())),
    }
}

/// What it takes to hold a permission: a refusal otherwise.
pub open spec fn required(found: Lookup<i64>, wanted: i64) -> Result<(), Refusal> {
    match permitted(found, wanted) {
        Ok(true) => Ok(()),
        Ok(false) => Err(Refusal::Forbidden("Insufficient permissions"@)),
        Err(e) => Err(e),
    }
}

/// Refuse a user who does not hold `perm`.
pub fn require_permission(found: &Lookup<i64>, perm: Permission) -> (res: Result<(), AppError>)
    ensures
        shown(res) == required(*found, perm.bits),
{
    if has_permission(found, perm)? {
        Ok(())
    } else {
        Err(forbidden("Insufficient permissions"))
    }
}

/// Whether permission bits were found that hold all of some known flags.
pub open spec fn granted(found: Lookup<i64>, wanted: i64) -> bool {
    found matches Lookup::Found(bits) && (bits & ALL_BITS) & wanted == wanted
}

/// Someone holds a permission if and only if the bits of their role do; a failed
/// lookup refuses the request, and nothing found is no permission. One of several
/// permissions is held where any one of them is.
pub proof fn permissions_are_those_of_the_role(found: Lookup<i64>, wanted: i64, either: Permission, or: Permission)
    ensures
        permitted(found, wanted) == Ok::<bool, Refusal>(true) <==> granted(found, wanted),
        permitted(found, wanted) is Err <==> found is Failed,
        required(found, wanted) is Ok <==> granted(found, wanted),
        found !is Failed && !granted(found, wanted) ==> required(found, wanted) matches Err(Refusal::Forbidden(_)),
        permitted_any(found, Seq::empty().push(either).push(or)) == Ok::<bool, Refusal>(true) <==> granted(
            found,
            either.bits,
        ) || granted(found, or.bits),
        permitted_any(found, Seq::empty().push(either).push(or)) is Err <==> found is Failed,
        owner_role(found) == Ok::<bool, Refusal>(true) <==> found == Lookup::Found(1i64),
        owner_role(found) is Err <==> found is Failed,
{
    let both = Seq::empty().push(either).push(or);
    assert(both[0] == either && both[1] == or);
}

} // verus!
