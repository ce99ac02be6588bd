//! Checks that many handlers share.

use crate::error::{any_counted, counted, forbidden, shown, AppError, Lookup, Refusal};
use crate::json::{text_array, texts_json, Json, JsonValue};
use crate::models::permission::{flag, flag_name, names_of, the_names_are_those_held, Permission};
use vstd::prelude::*;

verus! {

/// The group's number: there is one group.
pub const GROUP: i64 = 1;

/// Members pass, and others are refused.
pub open spec fn members_only(memberships: Lookup<i64>, message: Seq<char>) -> Result<(), Refusal> {
    match counted(memberships) {
        Err(e) => Err(e),
        Ok(true) => Ok(()),
        Ok(false) => Err(Refusal::Forbidden(message)),
    }
}

/// Refuse someone who is not a member.
pub fn require_member(memberships: &Lookup<i64>, message: &str) -> (res: Result<(), AppError>)
    ensures
        shown(res) == members_only(*memberships, message@),
{
    if any_counted(memberships)? {
        Ok(())
    } else {
        Err(forbidden(message))
    }
}

/// Whether a count was made and is positive.
pub open spec fn surely_counted(l: Lookup<i64>) -> bool {
    l matches Lookup::Found(n) && n > 0
}

/// Whether a count was made and is positive.
pub fn is_surely_counted(l: &Lookup<i64>) -> (res: bool)
    ensures
        res == surely_counted(*l),
{
    match l {
        Lookup::Found(n) => *n > 0,
        _ => false,
    }
}

/// The names of the permissions of a set.
pub open spec fn names_json(bits: i64) -> Json {
    texts_json(names_of(bits))
}

/// The names of the permissions of a set.
pub fn names_value(permissions: Permission) -> (res: JsonValue)
    ensures
        res@ == names_json(permissions.bits),
{
    text_array(&permissions.to_names())
}

/// The rows that a query found, or the refusal where it failed.
pub open spec fn rows_found<T>(rows: Result<Vec<T>, String>) -> Result<Seq<T>, Refusal> {
    match rows {
        Ok(v) => Ok(v@),
        Err(e) => Err(Refusal::Internal(e@)),
    }
}

/// The names of permissions that are told are those of the permissions held.
pub proof fn the_names_told_are_those_held(bits: i64, i: int)
    requires
        0 <= i < 14,
    ensures
        names_json(bits) is Array,
        names_json(bits)->Array_0.contains(Json::Text(flag_name(i))) <==> bits & flag(i) == flag(i),
{
    the_names_are_those_held(bits, i);
    let names = names_of(bits);
    let told = names_json(bits)->Array_0;
    if names.contains(flag_name(i)) {
        let k = choose|k: int| 0 <= k < names.len() && names[k] == flag_name(i);
        assert(told[k] == Json::Text(flag_name(i)));
    }
    if told.contains(Json::Text(flag_name(i))) {
        let k = choose|k: int| 0 <= k < told.len() && told[k] == Json::Text(flag_name(i));
        assert(told[k] == Json::Text(names[k]));
        assert(names.contains(names[k]));
    }
}

} // verus!
