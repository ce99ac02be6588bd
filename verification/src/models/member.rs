//! Members and their named roles.

use crate::text::same;
use vstd::prelude::*;

verus! {

/// The role names that the server knows.
#[derive(Debug, Clone, Copy, PartialEq, Eq, Structural)]
pub enum Role {
    Owner,
    Moderator,
    Member,
}

/// The name of a role.
pub open spec fn role_name(r: Role) -> Seq<char> {
    match r {
        Role::Owner => "owner"@,
        Role::Moderator => "moderator"@,
        Role::Member => "member"@,
    }
}

/// The role that a name stands for.
pub open spec fn role_named(s: Seq<char>) -> Option<Role> {
    if s == "owner"@ {
        Some(Role::Owner)
    } else if s == "moderator"@ {
        Some(Role::Moderator)
    } else if s == "member"@ {
        Some(Role::Member)
    } else {
        None
    }
}

impl Role {
    /// The role with the given name.
    pub fn from_str(s: &str) -> (res: Option<Self>)
        ensures
            res == role_named(s@),
    {
        if same(s, "owner") {
            Some(Role::Owner)
        } else if same(s, "moderator") {
            Some(Role::Moderator)
        } else if same(s, "member") {
            Some(Role::Member)
        } else {
            None
        }
    }

    /// The role's name.
    pub fn as_str(&self) -> (res: &str)
        ensures
            res@ == role_name(*self),
    {
        match self {
            Role::Owner => "owner",
            Role::Moderator => "moderator",
            Role::Member => "member",
        }
    }

    /// Whether the role may moderate: owners and moderators may.
    pub fn can_moderate(&self) -> (res: bool)
        ensures
            res == (*self is Owner || *self is Moderator),
    {
        match self {
            Role::Owner => true,
            Role::Moderator => true,
            Role::Member => false,
        }
    }

    /// Whether this is the owner role.
    pub fn is_owner(&self) -> (res: bool)
        ensures
            res == (*self is Owner),
    {
        match self {
            Role::Owner => true,
            _ => false,
        }
    }
}

/// A role is found again by its own name.
pub proof fn role_names_round_trip(r: Role)
    ensures
        role_named(role_name(r)) == Some(r),
{
    reveal_strlit("owner");
    reveal_strlit("moderator");
    reveal_strlit("member");
    assert("owner"@.len() == 5 && "moderator"@.len() == 9 && "member"@.len() == 6);
}

/// A name that stands for a role is that role's name.
pub proof fn only_role_names_are_roles(s: Seq<char>)
    ensures
        role_named(s) matches Some(r) ==> role_name(r) == s,
{
}

/// A member of the group.
#[derive(Debug, Clone)]
pub struct Member {
    pub id: i64,
    pub username: String,
    pub display_name: String,
    pub public_key: String,
    pub role: String,
    pub joined_at: String,
}

} // verus!
