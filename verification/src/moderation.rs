//! Checks by role name.

use crate::error::{with_message, Lookup};
use crate::models::member::{role_named, Role};
use vstd::prelude::*;

verus! {

/// The role that a lookup of a role name found.
pub open spec fn known_role(found: Lookup<String>) -> Result<Role, Seq<char>> {
    match found {
        Lookup::Failed(e) => Err(e@),
        Lookup::Missing => Err("Not a member"@),
        Lookup::Found(name) => match role_named(name@) {
            Some(role) => Ok(role),
            None => Err("Invalid role"@),
        },
    }
}

fn role_found(found: &Lookup<String>) -> (res: Result<Role, String>)
    ensures
        with_message(res) == known_role(*found),
{
    match found {
        Lookup::Failed(e) => Err(e.clone()),
        Lookup::Missing => Err("Not a member".to_owned()),
        Lookup::Found(name) => match Role::from_str(name.as_str()) {
            Some(role) => Ok(role),
            None => Err("Invalid role".to_owned()),
        },
    }
}

/// The role of someone who may moderate, or why they may not.
pub open spec fn moderating(found: Lookup<String>) -> Result<Role, Seq<char>> {
    match known_role(found) {
        Ok(Role::Member) => Err("Insufficient permissions"@),
        other => other,
    }
}

/// The role of someone who may moderate, or why they may not.
pub fn check_moderator(found: &Lookup<String>) -> (res: Result<Role, String>)
    ensures
        with_message(res) == moderating(*found),
{
    let role = role_found(found)?;
    if !role.can_moderate() {
        return Err("Insufficient permissions".to_owned());
    }
    Ok(role)
}

/// Nothing for an owner, or why someone is not one.
pub open spec fn owning(found: Lookup<String>) -> Result<(), Seq<char>> {
    match known_role(found) {
        Ok(Role::Owner) => Ok(()),
        Ok(_) => Err("Only owners can perform this action"@),
        Err(e) => Err(e),
    }
}

/// Nothing for an owner, or why someone is not one.
pub fn check_owner(found: &Lookup<String>) -> (res: Result<(), String>)
    ensures
        with_message(res) == owning(*found),
{
    let role = role_found(found)?;
    if !role.is_owner() {
        return Err("Only owners can perform this action".to_owned());
    }
    Ok(())
}

/// Owners and moderators may moderate, by the names of their roles, and only
/// owners pass for owners.
pub proof fn who_may_moderate(found: Lookup<String>)
    ensures
        found matches Lookup::Found(r) && r@ == "owner"@ ==> moderating(found) == Ok::<Role, Seq<char>>(Role::Owner),
        found matches Lookup::Found(r) && r@ == "moderator"@ ==> moderating(found) == Ok::<Role, Seq<char>>(
            Role::Moderator,
        ),
        moderating(found) is Ok ==> (found matches Lookup::Found(r) && (r@ == "owner"@ || r@ == "moderator"@)),
        owning(found) is Ok <==> (found matches Lookup::Found(r) && r@ == "owner"@),
{
    reveal_strlit("owner");
    reveal_strlit("moderator");
    reveal_strlit("member");
    assert("owner"@.len() == 5 && "moderator"@.len() == 9 && "member"@.len() == 6);
}

} // verus!
