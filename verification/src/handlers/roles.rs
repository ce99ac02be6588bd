//! Roles: their names, colors and permissions.

use crate::error::{
    bad_request, conflict, forbidden, none_found, not_found, some_found, AppError, Lookup, Refusal,
};
use crate::group::{applied, applied_all, as_plain_member, GroupDb, RoleRow};
use crate::handlers::checks::{members_only, names_json, names_value, require_member, rows_found};
use crate::handlers::members::{
    a_role_is_told_as_it_is, member_role_packet, member_role_value, role_changed_packet, role_changed_value,
};
use crate::json::{array, jsons, lookup_of_push, member_of, obj, Fields, Json, JsonValue};
use crate::models::permission::{
    a_named_set_holds_what_is_named, flag, flag_name, named_set, named_sets_hold_known_flags, Permission,
    ALL_BITS, MANAGE_ROLES,
};
use crate::outcome::{ok_json, ok_reply, replying, told, Effect, Outcome, Packet};
use crate::permissions::{granted, require_permission, required, MEMBER_ROLE, OWNER_ROLE};
use crate::store::{Change, Write};
use crate::text::{byte_count, byte_len, chars_of, texts, trim, trimmed};
use vstd::prelude::*;
use vstd::string::*;
use vstd::utf8::*;

verus! {

/// A hexadecimal digit, in lower or upper case.
pub open spec fn is_hex(c: char) -> bool {
    '0' <= c <= '9' || 'a' <= c <= 'f' || 'A' <= c <= 'F'
}

/// A color: `#` and six hexadecimal digits.
pub open spec fn color_like(s: Seq<char>) -> bool {
    &&& s.len() == 7
    &&& s[0] == '#'
    &&& forall|i: int| 1 <= i < 7 ==> is_hex(#[trigger] s[i])
}

/// Whether a text is a color: `#` and six hexadecimal digits.
pub fn is_valid_color(s: &str) -> (res: bool)
    ensures
        res == color_like(s@),
{
    let chars = chars_of(s);
    if chars.len() != 7 || chars[0] != '#' {
        return false;
    }
    let mut i: usize = 1;
    while i < 7
        invariant
            1 <= i <= 7,
            chars@ == s@,
            s@.len() == 7,
            s@[0] == '#',
            forall|j: int| 1 <= j < i ==> is_hex(#[trigger] s@[j]),
        decreases 7 - i,
    {
        let c = chars[i];
        if !(('0' <= c && c <= '9') || ('a' <= c && c <= 'f') || ('A' <= c && c <= 'F')) {
            assert(!is_hex(s@[i as int]));
            return false;
        }
        i += 1;
    }
    true
}

/// A role in the list of roles.
pub struct RoleEntry {
    pub id: i64,
    pub name: String,
    pub color: String,
    pub permissions: i64,
    pub is_system: i64,
    pub member_count: i64,
}

/// A role in the list of roles.
pub open spec fn role_json(r: RoleEntry) -> Json {
    obj().with("id"@, Json::Int(r.id as int)).with("name"@, Json::Text(r.name@)).with(
        "color"@,
        Json::Text(r.color@),
    ).with("permissions"@, names_json(r.permissions & ALL_BITS)).with(
        "is_system"@,
        Json::Bool(r.is_system != 0),
    ).with("member_count"@, Json::Int(r.member_count as int)).json()
}

fn role_value(r: &RoleEntry) -> (res: JsonValue)
    ensures
        res@ == role_json(*r),
{
    Fields::new().put_int("id", r.id).put_text("name", r.name.as_str()).put_text(
        "color",
        r.color.as_str(),
    ).put("permissions", names_value(Permission::from_bits_truncate(r.permissions))).put_bool(
        "is_system",
        r.is_system != 0,
    ).put_int("member_count", r.member_count).done()
}

/// The list of roles.
fn role_list(rows: &Vec<RoleEntry>) -> (res: JsonValue)
    ensures
        res@ == Json::Array(rows@.map_values(|r: RoleEntry| role_json(r))),
{
    let mut out: Vec<JsonValue> = Vec::new();
    let mut i: usize = 0;
    while i < rows.len()
        invariant
            i <= rows@.len(),
            jsons(out@) == rows@.take(i as int).map_values(|r: RoleEntry| role_json(r)),
        decreases rows@.len() - i,
    {
        let ghost before = out@;
        out.push(role_value(&rows[i]));
        proof {
            assert(jsons(out@) =~= jsons(before).push(role_json(rows@[i as int])));
            assert(rows@.take(i + 1).map_values(|r: RoleEntry| role_json(r)) =~= rows@.take(
                i as int,
            ).map_values(|r: RoleEntry| role_json(r)).push(role_json(rows@[i as int])));
        }
        i += 1;
    }
    assert(rows@.take(rows@.len() as int) =~= rows@);
    assert(jsons(out@) == rows@.map_values(|r: RoleEntry| role_json(r)));
    array(out)
}

/// What asking for the roles leads to.
pub open spec fn roles_listed(memberships: Lookup<i64>, rows: Result<Seq<RoleEntry>, Refusal>) -> Result<
    Effect,
    Refusal,
> {
    match members_only(memberships, "Not a member of this group"@) {
        Err(e) => Err(e),
        Ok(_) => match rows {
            Err(e) => Err(e),
            Ok(r) => Ok(replying(Json::Array(r.map_values(|r: RoleEntry| role_json(r))))),
        },
    }
}

/// List the roles, for a member.
pub fn list_roles(memberships: &Lookup<i64>, rows: &Result<Vec<RoleEntry>, String>) -> (res: Result<
    Outcome,
    AppError,
>)
    ensures
        told(res) == roles_listed(*memberships, rows_found(*rows)),
{
    require_member(memberships, "Not a member of this group")?;
    match rows {
        Err(e) => Err(AppError::Internal(e.clone())),
        Ok(r) => Ok(Outcome::replying(role_list(r))),
    }
}

/// A request for a role.
pub struct RoleRequest {
    pub name: String,
    pub color: String,
    pub permissions: Vec<String>,
}

/// What a role is to be.
pub struct RoleForm {
    pub name: String,
    pub color: String,
    pub permissions: Permission,
}

/// The model of a [`RoleForm`].
pub struct RoleModel {
    pub name: Seq<char>,
    pub color: Seq<char>,
    pub permissions: i64,
}

impl View for RoleForm {
    type V = RoleModel;

    open spec fn view(&self) -> RoleModel {
        RoleModel { name: self.name@, color: self.color@, permissions: self.permissions.bits }
    }
}

/// What a request for a role asks for, from someone who may manage roles: a name
/// of 1 to 40 bytes, a color, and permissions that are known.
pub open spec fn role_asked(bits: Lookup<i64>, body: RoleRequest) -> Result<RoleModel, Refusal> {
    match required(bits, MANAGE_ROLES) {
        Err(e) => Err(e),
        Ok(_) => {
            let name = trimmed(body.name@);
            if name.len() == 0 || byte_count(name) > 40 {
                Err(Refusal::BadRequest("name must be 1-40 characters"@))
            } else if !color_like(body.color@) {
                Err(Refusal::BadRequest("color must be a hex string like #99AAB5"@))
            } else {
                match named_set(texts(body.permissions@)) {
                    Err(e) => Err(Refusal::BadRequest(e)),
                    Ok(permissions) => Ok(RoleModel { name, color: body.color@, permissions }),
                }
            }
        },
    }
}

/// The model of a result with a form.
pub open spec fn form_of(r: Result<RoleForm, AppError>) -> Result<RoleModel, Refusal> {
    match r {
        Ok(f) => Ok(f@),
        Err(e) => Err(e@),
    }
}

fn ask_role(bits: &Lookup<i64>, body: &RoleRequest) -> (res: Result<RoleForm, AppError>)
    ensures
        form_of(res) == role_asked(*bits, *body),
{
    require_permission(bits, Permission { bits: MANAGE_ROLES })?;
    let name = trim(body.name.as_str());
    if name.as_str().unicode_len() == 0 || byte_len(name.as_str()) > 40 {
        return Err(bad_request("name must be 1-40 characters"));
    }
    if !is_valid_color(body.color.as_str()) {
        return Err(bad_request("color must be a hex string like #99AAB5"));
    }
    match Permission::from_names(body.permissions.as_slice()) {
        Err(e) => Err(AppError::BadRequest(e)),
        Ok(permissions) => Ok(RoleForm { name, color: body.color.clone(), permissions }),
    }
}

/// Where a new role comes in the order of roles.
pub open spec fn next_order(found: Lookup<i64>) -> i64 {
    match found {
        Lookup::Found(n) => n,
        _ => 0,
    }
}

/// The change that makes a role.
pub open spec fn making(role: RoleModel, sort_order: i64) -> Change {
    Change::InsertRole {
        name: role.name,
        color: role.color,
        permissions: role.permissions,
        sort_order,
    }
}

/// A role that is to be made.
pub struct RoleDraft {
    pub form: RoleForm,
    pub sort_order: i64,
}

/// The model of a result with a role that is to be made.
pub open spec fn draft_of(r: Result<RoleDraft, AppError>) -> Result<(RoleModel, i64), Refusal> {
    match r {
        Ok(d) => Ok((d.form@, d.sort_order)),
        Err(e) => Err(e@),
    }
}

impl RoleDraft {
    /// The write that makes the role.
    pub fn write(&self) -> (res: Write)
        ensures
            res@ == making(self.form@, self.sort_order),
    {
        Write::InsertRole {
            name: self.form.name.clone(),
            color: self.form.color.clone(),
            permissions: self.form.permissions.bits(),
            sort_order: self.sort_order,
        }
    }
}

/// The role that a request leads to, and where it comes in the order of roles.
pub open spec fn role_drafted(bits: Lookup<i64>, body: RoleRequest, order: Lookup<i64>) -> Result<
    (RoleModel, i64),
    Refusal,
> {
    match role_asked(bits, body) {
        Err(e) => Err(e),
        Ok(role) => Ok((role, next_order(order))),
    }
}

/// Make a custom role, the last in the order of roles.
pub fn create_role(bits: &Lookup<i64>, body: &RoleRequest, order: &Lookup<i64>) -> (res: Result<
    RoleDraft,
    AppError,
>)
    ensures
        draft_of(res) == role_drafted(*bits, *body, *order),
{
    let form = match ask_role(bits, body) {
        Err(e) => return Err(e),
        Ok(f) => f,
    };
    let sort_order: i64 = match order {
        Lookup::Found(n) => *n,
        _ => 0,
    };
    Ok(RoleDraft { form, sort_order })
}

/// The refusal when a role cannot be stored: its name is taken, or the database
/// failed.
pub fn role_not_stored(name_taken: bool, error: &str) -> (res: AppError)
    ensures
        res@ == (if name_taken {
            Refusal::Conflict("A role with that name already exists"@)
        } else {
            Refusal::Internal(error@)
        }),
{
    if name_taken {
        conflict("A role with that name already exists")
    } else {
        AppError::Internal(error.to_owned())
    }
}

/// What follows once a role is stored under a number.
pub open spec fn role_told(role: RoleModel, id: i64) -> Effect {
    replying(
        obj().with("id"@, Json::Int(id as int)).with("name"@, Json::Text(role.name)).with(
            "color"@,
            Json::Text(role.color),
        ).with("permissions"@, names_json(role.permissions)).with(
            "is_system"@,
            Json::Bool(false),
        ).with("member_count"@, Json::Int(0)).json(),
    )
}

/// What follows once a role is stored under a number.
pub fn role_created(draft: &RoleDraft, id: i64) -> (res: Outcome)
    ensures
        res@ == role_told(draft.form@, id),
{
    Outcome::replying(
        Fields::new().put_int("id", id).put_text("name", draft.form.name.as_str()).put_text(
            "color",
            draft.form.color.as_str(),
        ).put("permissions", names_value(draft.form.permissions)).put_bool("is_system", false).put_int(
            "member_count",
            0,
        ).done(),
    )
}

/// Telling the members of a role about it: everyone about each of them, and each
/// of them about the role.
pub open spec fn members_told(effect: Effect, members: Seq<Seq<char>>, role_id: i64, role: RoleModel) -> Effect
    decreases members.len(),
{
    if members.len() == 0 {
        effect
    } else {
        members_told(effect, members.drop_last(), role_id, role).and_broadcast(
            member_role_packet(members.last(), role.name, role.color),
        ).and_tell(
            members.last(),
            role_changed_packet(role_id, role.name, role.color, names_json(role.permissions)),
        )
    }
}

fn tell_members(outcome: Outcome, members: &Vec<String>, role_id: i64, form: &RoleForm) -> (res: Outcome)
    ensures
        res@ == members_told(outcome@, texts(members@), role_id, form@),
{
    let ghost effect = outcome@;
    let ghost all = texts(members@);
    let mut out = outcome;
    let mut i: usize = 0;
    while i < members.len()
        invariant
            i <= members@.len(),
            all == texts(members@),
            out@ == members_told(effect, all.take(i as int), role_id, form@),
        decreases members@.len() - i,
    {
        let name = form.name.as_str();
        let color = form.color.as_str();
        let member = members[i].as_str();
        assert(all.take(i + 1).drop_last() =~= all.take(i as int));
        assert(all.take(i + 1).last() == member@);
        out = out.and_broadcast(member_role_value(member, name, color)).and_tell(
            member,
            role_changed_value(role_id, name, color, names_value(form.permissions)),
        );
        i += 1;
    }
    assert(all.take(all.len() as int) =~= all);
    out
}

/// The names that a query found, or the refusal where it failed.
pub open spec fn names_found(rows: Result<Vec<String>, String>) -> Result<Seq<Seq<char>>, Refusal> {
    match rows {
        Ok(v) => Ok(texts(v@)),
        Err(e) => Err(Refusal::Internal(e@)),
    }
}

/// What changing a role leads to.
pub open spec fn role_changed(
    bits: Lookup<i64>,
    role_id: i64,
    body: RoleRequest,
    members: Result<Seq<Seq<char>>, Refusal>,
) -> Result<Effect, Refusal> {
    match role_asked(bits, body) {
        Err(e) => Err(e),
        Ok(role) => if role_id == OWNER_ROLE && role.permissions != ALL_BITS {
            Err(Refusal::BadRequest("Cannot reduce the Owner role's permissions"@))
        } else {
            match members {
                Err(e) => Err(e),
                Ok(m) => Ok(
                    members_told(
                        replying(
                            obj().with("id"@, Json::Int(role_id as int)).with(
                                "name"@,
                                Json::Text(role.name),
                            ).with("color"@, Json::Text(role.color)).with(
                                "permissions"@,
                                names_json(role.permissions),
                            ).json(),
                        ).and_change(
                            Change::UpdateRole {
                                name: role.name,
                                color: role.color,
                                permissions: role.permissions,
                                role_id,
                            },
                        ).or_refused(Refusal::NotFound("Role not found"@)).and_broadcast(
                            obj().with("type"@, Json::Text("role_updated"@)).with(
                                "id"@,
                                Json::Int(role_id as int),
                            ).with("name"@, Json::Text(role.name)).with(
                                "color"@,
                                Json::Text(role.color),
                            ).with("permissions"@, names_json(role.permissions)).json(),
                        ),
                        m,
                        role_id,
                        role,
                    ),
                ),
            }
        },
    }
}

/// Change a role. The Owner role keeps every permission. `members` are those who
/// have the role.
pub fn update_role(
    bits: &Lookup<i64>,
    role_id: i64,
    body: &RoleRequest,
    members: &Result<Vec<String>, String>,
) -> (res: Result<Outcome, AppError>)
    ensures
        told(res) == role_changed(*bits, role_id, *body, names_found(*members)),
{
    let form = match ask_role(bits, body) {
        Err(e) => return Err(e),
        Ok(f) => f,
    };
    if role_id == OWNER_ROLE && form.permissions.bits() != ALL_BITS {
        return Err(bad_request("Cannot reduce the Owner role's permissions"));
    }
    let affected = match members {
        Err(e) => return Err(AppError::Internal(e.clone())),
        Ok(m) => m,
    };
    let packet = Fields::new().put_text("type", "role_updated").put_int("id", role_id).put_text(
        "name",
        form.name.as_str(),
    ).put_text("color", form.color.as_str()).put("permissions", names_value(form.permissions)).done();
    let reply = Fields::new().put_int("id", role_id).put_text("name", form.name.as_str()).put_text(
        "color",
        form.color.as_str(),
    ).put("permissions", names_value(form.permissions)).done();
    let outcome = Outcome::replying(reply).and_write(
        Write::UpdateRole {
            name: form.name.clone(),
            color: form.color.clone(),
            permissions: form.permissions.bits(),
            role_id,
        },
    ).or_refused(not_found("Role not found")).and_broadcast(packet);
    Ok(tell_members(outcome, affected, role_id, &form))
}

proof fn telling_changes_nothing(effect: Effect, members: Seq<Seq<char>>, role_id: i64, role: RoleModel)
    ensures
        members_told(effect, members, role_id, role).changes == effect.changes,
        members_told(effect, members, role_id, role).reply == effect.reply,
        members_told(effect, members, role_id, role).notices.len() == effect.notices.len() + 2
            * members.len(),
    decreases members.len(),
{
    if members.len() > 0 {
        telling_changes_nothing(effect, members.drop_last(), role_id, role);
    }
}

/// Where the Owner role has every permission, it keeps them whatever role is
/// changed. No role gets a permission that is not known, a role keeps its
/// standing as a system role, and the other roles stay as they are.
pub proof fn the_owner_role_keeps_its_permissions(
    bits: Lookup<i64>,
    role_id: i64,
    body: RoleRequest,
    members: Result<Seq<Seq<char>>, Refusal>,
    db: GroupDb,
    other: i64,
)
    requires
        role_changed(bits, role_id, body, members) is Ok,
        db.roles.contains_key(OWNER_ROLE),
        db.roles[OWNER_ROLE].permissions == ALL_BITS,
    ensures
        ({
            let effect = role_changed(bits, role_id, body, members)->Ok_0;
            let after = applied(db, effect.changes[0], 0);
            &&& effect.changes.len() == 1
            &&& after.roles.contains_key(OWNER_ROLE)
            &&& after.roles[OWNER_ROLE].permissions == ALL_BITS
            &&& after.roles.dom() == db.roles.dom()
            &&& db.roles.contains_key(role_id) ==> after.roles[role_id].permissions & ALL_BITS
                == after.roles[role_id].permissions && after.roles[role_id].is_system
                == db.roles[role_id].is_system
            &&& other != role_id && db.roles.contains_key(other) ==> after.roles[other] == db.roles[other]
            &&& after.members == db.members
        }),
{
    let role = role_asked(bits, body)->Ok_0;
    let effect = role_changed(bits, role_id, body, members)->Ok_0;
    let after = applied(db, effect.changes[0], 0);
    let start = replying(
        obj().with("id"@, Json::Int(role_id as int)).with("name"@, Json::Text(role.name)).with(
            "color"@,
            Json::Text(role.color),
        ).with("permissions"@, names_json(role.permissions)).json(),
    ).and_change(
        Change::UpdateRole {
            name: role.name,
            color: role.color,
            permissions: role.permissions,
            role_id,
        },
    ).or_refused(Refusal::NotFound("Role not found"@)).and_broadcast(
        obj().with("type"@, Json::Text("role_updated"@)).with("id"@, Json::Int(role_id as int)).with(
            "name"@,
            Json::Text(role.name),
        ).with("color"@, Json::Text(role.color)).with("permissions"@, names_json(role.permissions)).json(),
    );
    assert(effect == members_told(start, members->Ok_0, role_id, role));
    telling_changes_nothing(start, members->Ok_0, role_id, role);
    named_sets_hold_known_flags(texts(body.permissions@));
    assert(after.roles.dom() =~= db.roles.dom());
}

/// What a user is told whose role is gone.
pub open spec fn back_to_member_packet() -> Json {
    role_changed_packet(MEMBER_ROLE, "Member"@, "#99AAB5"@, Json::Array(Seq::empty()))
}

/// Telling the members of a role that is gone: each of them, and everyone about
/// each of them.
pub open spec fn released_told(effect: Effect, members: Seq<Seq<char>>) -> Effect
    decreases members.len(),
{
    if members.len() == 0 {
        effect
    } else {
        released_told(effect, members.drop_last()).and_tell(
            members.last(),
            back_to_member_packet(),
        ).and_broadcast(member_role_packet(members.last(), "Member"@, "#99AAB5"@))
    }
}

fn tell_released(outcome: Outcome, members: &Vec<String>) -> (res: Outcome)
    ensures
        res@ == released_told(outcome@, texts(members@)),
{
    let ghost effect = outcome@;
    let ghost all = texts(members@);
    let mut out = outcome;
    let mut i: usize = 0;
    while i < members.len()
        invariant
            i <= members@.len(),
            all == texts(members@),
            out@ == released_told(effect, all.take(i as int)),
        decreases members@.len() - i,
    {
        let member = members[i].as_str();
        assert(all.take(i + 1).drop_last() =~= all.take(i as int));
        assert(all.take(i + 1).last() == member@);
        let nothing: Vec<JsonValue> = Vec::new();
        assert(jsons(nothing@) =~= Seq::<Json>::empty());
        out = out.and_tell(
            member,
            role_changed_value(MEMBER_ROLE, "Member", "#99AAB5", array(nothing)),
        ).and_broadcast(member_role_value(member, "Member", "#99AAB5"));
        i += 1;
    }
    assert(all.take(all.len() as int) =~= all);
    out
}

/// What deleting a role leads to.
pub open spec fn role_deleted(
    bits: Lookup<i64>,
    role_id: i64,
    is_system: Lookup<bool>,
    members: Result<Seq<Seq<char>>, Refusal>,
) -> Result<Effect, Refusal> {
    match required(bits, MANAGE_ROLES) {
        Err(e) => Err(e),
        Ok(_) => match is_system {
            Lookup::Found(true) => Err(Refusal::Forbidden("Cannot delete a system role"@)),
            Lookup::Found(false) => match members {
                Err(e) => Err(e),
                Ok(m) => Ok(
                    released_told(
                        replying(ok_json()).at_once().and_change(
                            Change::ReleaseRole { role_id },
                        ).and_change(Change::DeleteRole { role_id }).and_broadcast(
                            obj().with("type"@, Json::Text("role_deleted"@)).with(
                                "role_id"@,
                                Json::Int(role_id as int),
                            ).json(),
                        ),
                        m,
                    ),
                ),
            },
            _ => Err(Refusal::NotFound("Role not found"@)),
        },
    }
}

/// Delete a custom role; whoever has it gets the Member role. `members` are
/// those who have it.
pub fn delete_role(
    bits: &Lookup<i64>,
    role_id: i64,
    is_system: &Lookup<bool>,
    members: &Result<Vec<String>, String>,
) -> (res: Result<Outcome, AppError>)
    ensures
        told(res) == role_deleted(*bits, role_id, *is_system, names_found(*members)),
{
    require_permission(bits, Permission { bits: MANAGE_ROLES })?;
    match is_system {
        Lookup::Found(system) => if *system {
            return Err(forbidden("Cannot delete a system role"));
        },
        _ => return Err(not_found("Role not found")),
    }
    let affected = match members {
        Err(e) => return Err(AppError::Internal(e.clone())),
        Ok(m) => m,
    };
    let packet = Fields::new().put_text("type", "role_deleted").put_int("role_id", role_id).done();
    let outcome = Outcome::replying(ok_reply()).at_once().and_write(
        Write::ReleaseRole { role_id },
    ).and_write(Write::DeleteRole { role_id }).and_broadcast(packet);
    Ok(tell_released(outcome, affected))
}

proof fn releasing_tells_only(effect: Effect, members: Seq<Seq<char>>)
    ensures
        released_told(effect, members).changes == effect.changes,
        released_told(effect, members).atomic == effect.atomic,
    decreases members.len(),
{
    if members.len() > 0 {
        releasing_tells_only(effect, members.drop_last());
    }
}

/// A system role is never deleted. Deleting a custom role happens in one
/// transaction, and nobody is left with the role: whoever had it is a plain
/// member, and the other members and roles stay as they are.
pub proof fn nobody_keeps_a_deleted_role(
    bits: Lookup<i64>,
    role_id: i64,
    is_system: Lookup<bool>,
    members: Result<Seq<Seq<char>>, Refusal>,
    db: GroupDb,
    user: Seq<char>,
)
    requires
        role_deleted(bits, role_id, is_system, members) is Ok,
        role_id != MEMBER_ROLE,
        db.roles.contains_key(role_id),
        is_system == Lookup::Found(db.roles[role_id].is_system),
        db.members.contains_key(user),
    ensures
        ({
            let effect = role_deleted(bits, role_id, is_system, members)->Ok_0;
            let after = applied_all(db, effect.changes);
            &&& !db.roles[role_id].is_system
            &&& effect.atomic
            &&& after.roles == db.roles.remove(role_id)
            &&& after.members.contains_key(user)
            &&& after.members[user].role_id != Some(role_id)
            &&& after.members[user] == (if db.members[user].role_id == Some(role_id) {
                as_plain_member(db.members[user])
            } else {
                db.members[user]
            })
        }),
{
    let effect = role_deleted(bits, role_id, is_system, members)->Ok_0;
    let start = replying(ok_json()).at_once().and_change(Change::ReleaseRole { role_id }).and_change(
        Change::DeleteRole { role_id },
    ).and_broadcast(
        obj().with("type"@, Json::Text("role_deleted"@)).with("role_id"@, Json::Int(role_id as int)).json(),
    );
    assert(effect == released_told(start, members->Ok_0));
    releasing_tells_only(start, members->Ok_0);
    reveal_with_fuel(applied_all, 3);
    assert(effect.changes.drop_last() =~= Seq::empty().push(Change::ReleaseRole { role_id }));
    assert(effect.changes.drop_last().drop_last() =~= Seq::<Change>::empty());
}

/// Members are told every role, in the order in which they were read, each with
/// the columns of its row and the names of its permissions; others are told none.
pub proof fn every_role_is_told(memberships: Lookup<i64>, rows: Result<Seq<RoleEntry>, Refusal>, i: int)
    ensures
        roles_listed(memberships, rows) is Ok <==> some_found(memberships) && rows is Ok,
        none_found(memberships) ==> roles_listed(memberships, rows) matches Err(Refusal::Forbidden(_)),
        roles_listed(memberships, rows) matches Ok(effect) ==> {
            let told = effect.reply->Array_0;
            let r = rows->Ok_0[i];
            &&& effect.changes.len() == 0
            &&& effect.notices.len() == 0
            &&& effect.reply is Array
            &&& told.len() == rows->Ok_0.len()
            &&& 0 <= i < told.len() ==> {
                &&& member_of(told[i], "id"@) == Some(Json::Int(r.id as int))
                &&& member_of(told[i], "name"@) == Some(Json::Text(r.name@))
                &&& member_of(told[i], "color"@) == Some(Json::Text(r.color@))
                &&& member_of(told[i], "permissions"@) == Some(names_json(r.permissions & ALL_BITS))
                &&& member_of(told[i], "is_system"@) == Some(Json::Bool(r.is_system != 0))
                &&& member_of(told[i], "member_count"@) == Some(Json::Int(r.member_count as int))
            }
        },
{
    broadcast use lookup_of_push;

    reveal_strlit("id");
    reveal_strlit("name");
    reveal_strlit("color");
    reveal_strlit("permissions");
    reveal_strlit("is_system");
    reveal_strlit("member_count");
}

/// A role is made as it was asked for: with the name without white space around
/// it, the color, and the permissions that are named and no others, as the last in
/// the order of roles. It is no system role, and nothing else changes.
pub proof fn a_role_is_as_asked_for(
    bits: Lookup<i64>,
    body: RoleRequest,
    order: Lookup<i64>,
    db: GroupDb,
    id: i64,
    i: int,
)
    requires
        0 <= i < 14,
        role_drafted(bits, body, order) is Ok,
    ensures
        ({
            let draft = role_drafted(bits, body, order)->Ok_0;
            let role = draft.0;
            &&& role.permissions & ALL_BITS == role.permissions
            &&& role.permissions & flag(i) == flag(i) <==> texts(body.permissions@).contains(flag_name(i))
            &&& applied(db, making(role, draft.1), id) == (GroupDb {
                roles: db.roles.insert(
                    id,
                    RoleRow {
                        name: trimmed(body.name@),
                        color: body.color@,
                        permissions: role.permissions,
                        is_system: false,
                        sort_order: match order {
                            Lookup::Found(n) => n,
                            _ => 0i64,
                        },
                    },
                ),
                ..db
            })
        }),
{
    a_named_set_holds_what_is_named(texts(body.permissions@), i);
    named_sets_hold_known_flags(texts(body.permissions@));
}

/// A role is made if and only if the user may manage roles, its name has 1 to 40
/// bytes, its color is `#` and six hexadecimal digits, and every permission that it
/// names is known.
pub proof fn who_may_make_a_role(bits: Lookup<i64>, body: RoleRequest, order: Lookup<i64>)
    ensures
        role_drafted(bits, body, order) is Ok <==> {
            let c = body.color@;
            &&& granted(bits, MANAGE_ROLES)
            &&& 0 < trimmed(body.name@).len() && byte_count(trimmed(body.name@)) <= 40
            &&& c.len() == 7 && c[0] == '#'
            &&& forall|k: int|
                1 <= k < 7 ==> '0' <= #[trigger] c[k] <= '9' || 'a' <= c[k] <= 'f' || 'A' <= c[k] <= 'F'
            &&& forall|k: int|
                0 <= k < texts(body.permissions@).len() ==> crate::models::permission::flag_named(
                    #[trigger] texts(body.permissions@)[k],
                ) is Some
        },
{
    a_named_set_holds_what_is_named(texts(body.permissions@), 0);
}

/// Whoever made a role is told what it is, under its number.
pub proof fn a_new_role_is_told(role: RoleModel, id: i64)
    ensures
        ({
            let effect = role_told(role, id);
            &&& effect.changes.len() == 0
            &&& effect.notices.len() == 0
            &&& member_of(effect.reply, "id"@) == Some(Json::Int(id as int))
            &&& member_of(effect.reply, "name"@) == Some(Json::Text(role.name))
            &&& member_of(effect.reply, "color"@) == Some(Json::Text(role.color))
            &&& member_of(effect.reply, "permissions"@) == Some(names_json(role.permissions))
            &&& member_of(effect.reply, "is_system"@) == Some(Json::Bool(false))
            &&& member_of(effect.reply, "member_count"@) == Some(Json::Int(0))
        }),
{
    broadcast use lookup_of_push;

    reveal_strlit("id");
    reveal_strlit("name");
    reveal_strlit("color");
    reveal_strlit("permissions");
    reveal_strlit("is_system");
    reveal_strlit("member_count");
}

proof fn each_is_told(effect: Effect, members: Seq<Seq<char>>, role_id: i64, role: RoleModel, i: int)
    ensures
        ({
            let all = members_told(effect, members, role_id, role).notices;
            let n = effect.notices.len();
            &&& all.len() == n + 2 * members.len()
            &&& forall|k: int| 0 <= k < n ==> #[trigger] all[k] == effect.notices[k]
            &&& 0 <= i < members.len() ==> all[n + 2 * i] == Packet::Broadcast(
                member_role_packet(members[i], role.name, role.color),
            ) && all[n + 2 * i + 1] == Packet::ToUser(
                members[i],
                role_changed_packet(role_id, role.name, role.color, names_json(role.permissions)),
            )
            &&& members_told(effect, members, role_id, role) == (Effect { notices: all, ..effect })
        }),
    decreases members.len(),
{
    if members.len() > 0 {
        each_is_told(effect, members.drop_last(), role_id, role, i);
    }
}

/// A role is changed to what was asked for: the name without white space around
/// it, the color, and the permissions that are named. It keeps its place in the
/// order. The new role is told to whoever changed it and to everyone, and for
/// each member who has it, that member's role is told to everyone and the role to
/// the member.
pub proof fn a_changed_role_is_stored_and_told(
    bits: Lookup<i64>,
    role_id: i64,
    body: RoleRequest,
    members: Result<Seq<Seq<char>>, Refusal>,
    db: GroupDb,
    i: int,
)
    requires
        role_changed(bits, role_id, body, members) is Ok,
    ensures
        ({
            let effect = role_changed(bits, role_id, body, members)->Ok_0;
            let permissions = named_set(texts(body.permissions@))->Ok_0;
            let name = trimmed(body.name@);
            let whose = members->Ok_0;
            &&& effect.changes.len() == 1
            &&& db.roles.contains_key(role_id) ==> applied(db, effect.changes[0], 0) == (GroupDb {
                roles: db.roles.insert(
                    role_id,
                    RoleRow { name, color: body.color@, permissions, ..db.roles[role_id] },
                ),
                ..db
            })
            &&& effect.unless_changed matches Some(Refusal::NotFound(_))
            &&& member_of(effect.reply, "id"@) == Some(Json::Int(role_id as int))
            &&& member_of(effect.reply, "name"@) == Some(Json::Text(name))
            &&& member_of(effect.reply, "color"@) == Some(Json::Text(body.color@))
            &&& member_of(effect.reply, "permissions"@) == Some(names_json(permissions))
            &&& effect.notices.len() == 1 + 2 * whose.len()
            &&& effect.notices[0] matches Packet::Broadcast(told) && {
                &&& member_of(told, "type"@) == Some(Json::Text("role_updated"@))
                &&& member_of(told, "id"@) == Some(Json::Int(role_id as int))
                &&& member_of(told, "name"@) == Some(Json::Text(name))
                &&& member_of(told, "color"@) == Some(Json::Text(body.color@))
                &&& member_of(told, "permissions"@) == Some(names_json(permissions))
            }
            &&& 0 <= i < whose.len() ==> {
                &&& effect.notices[1 + 2 * i] matches Packet::Broadcast(told) && {
                    &&& member_of(told, "type"@) == Some(Json::Text("member_role_updated"@))
                    &&& member_of(told, "username"@) == Some(Json::Text(whose[i]))
                    &&& member_of(told, "role_name"@) == Some(Json::Text(name))
                    &&& member_of(told, "role_color"@) == Some(Json::Text(body.color@))
                }
                &&& effect.notices[2 + 2 * i] matches Packet::ToUser(whom, said) && {
                    &&& whom == whose[i]
                    &&& member_of(said, "type"@) == Some(Json::Text("role_changed"@))
                    &&& member_of(said, "role_id"@) == Some(Json::Int(role_id as int))
                    &&& member_of(said, "role_name"@) == Some(Json::Text(name))
                    &&& member_of(said, "role_color"@) == Some(Json::Text(body.color@))
                    &&& member_of(said, "permissions"@) == Some(names_json(permissions))
                }
            }
        }),
{
    let role = role_asked(bits, body)->Ok_0;
    let whose = members->Ok_0;
    let start = replying(
        obj().with("id"@, Json::Int(role_id as int)).with("name"@, Json::Text(role.name)).with(
            "color"@,
            Json::Text(role.color),
        ).with("permissions"@, names_json(role.permissions)).json(),
    ).and_change(
        Change::UpdateRole {
            name: role.name,
            color: role.color,
            permissions: role.permissions,
            role_id,
        },
    ).or_refused(Refusal::NotFound("Role not found"@)).and_broadcast(
        obj().with("type"@, Json::Text("role_updated"@)).with("id"@, Json::Int(role_id as int)).with(
            "name"@,
            Json::Text(role.name),
        ).with("color"@, Json::Text(role.color)).with("permissions"@, names_json(role.permissions)).json(),
    );
    assert(role_changed(bits, role_id, body, members)->Ok_0 == members_told(start, whose, role_id, role));
    each_is_told(start, whose, role_id, role, i);
    a_role_is_told_as_it_is(role_id, whose[i], role.name, role.color, names_json(role.permissions));
    assert(members_told(start, whose, role_id, role).notices[0] == start.notices[0]);
    assert(member_of(start.reply, "id"@) == Some(Json::Int(role_id as int)) && member_of(start.reply, "name"@)
        == Some(Json::Text(role.name)) && member_of(start.reply, "color"@) == Some(Json::Text(role.color))
        && member_of(start.reply, "permissions"@) == Some(names_json(role.permissions))) by {
        broadcast use lookup_of_push;

        reveal_strlit("id");
        reveal_strlit("name");
        reveal_strlit("color");
        reveal_strlit("permissions");
    }
    let told = start.notices[0]->Broadcast_0;
    assert(member_of(told, "type"@) == Some(Json::Text("role_updated"@)) && member_of(told, "id"@) == Some(
        Json::Int(role_id as int),
    ) && member_of(told, "name"@) == Some(Json::Text(role.name)) && member_of(told, "color"@) == Some(
        Json::Text(role.color),
    ) && member_of(told, "permissions"@) == Some(names_json(role.permissions))) by {
        broadcast use lookup_of_push;

        reveal_strlit("type");
        reveal_strlit("id");
        reveal_strlit("name");
        reveal_strlit("color");
        reveal_strlit("permissions");
    }
}

/// A role is changed if and only if it could be made so, the Owner role only with
/// every permission, and it is known who has it.
pub proof fn who_may_change_a_role(
    bits: Lookup<i64>,
    role_id: i64,
    body: RoleRequest,
    members: Result<Seq<Seq<char>>, Refusal>,
    order: Lookup<i64>,
)
    ensures
        role_changed(bits, role_id, body, members) is Ok <==> {
            &&& role_drafted(bits, body, order) is Ok
            &&& role_id == 1 ==> named_set(texts(body.permissions@)) == Ok::<i64, Seq<char>>(ALL_BITS)
            &&& members is Ok
        },
{
}

proof fn each_is_released(effect: Effect, members: Seq<Seq<char>>, i: int)
    ensures
        ({
            let all = released_told(effect, members).notices;
            let n = effect.notices.len();
            &&& all.len() == n + 2 * members.len()
            &&& forall|k: int| 0 <= k < n ==> #[trigger] all[k] == effect.notices[k]
            &&& 0 <= i < members.len() ==> all[n + 2 * i] == Packet::ToUser(members[i], back_to_member_packet())
                && all[n + 2 * i + 1] == Packet::Broadcast(
                member_role_packet(members[i], "Member"@, "#99AAB5"@),
            )
            &&& released_told(effect, members) == (Effect { notices: all, ..effect })
        }),
    decreases members.len(),
{
    if members.len() > 0 {
        each_is_released(effect, members.drop_last(), i);
    }
}

/// A role is deleted if and only if the user may manage roles, it is there and no
/// system role, and it is known who has it. Everyone is told which role is gone,
/// and for each member who had it, the member and everyone are told of the Member
/// role.
pub proof fn a_deleted_role_is_told(
    bits: Lookup<i64>,
    role_id: i64,
    is_system: Lookup<bool>,
    members: Result<Seq<Seq<char>>, Refusal>,
    i: int,
)
    ensures
        role_deleted(bits, role_id, is_system, members) is Ok <==> granted(bits, MANAGE_ROLES) && is_system
            == Lookup::Found(false) && members is Ok,
        granted(bits, MANAGE_ROLES) && is_system == Lookup::Found(true) ==> role_deleted(
            bits,
            role_id,
            is_system,
            members,
        ) matches Err(Refusal::Forbidden(_)),
        role_deleted(bits, role_id, is_system, members) matches Ok(effect) ==> {
            let whose = members->Ok_0;
            &&& member_of(effect.reply, "ok"@) == Some(Json::Bool(true))
            &&& effect.notices.len() == 1 + 2 * whose.len()
            &&& effect.notices[0] matches Packet::Broadcast(told) && {
                &&& member_of(told, "type"@) == Some(Json::Text("role_deleted"@))
                &&& member_of(told, "role_id"@) == Some(Json::Int(role_id as int))
            }
            &&& 0 <= i < whose.len() ==> {
                &&& effect.notices[1 + 2 * i] matches Packet::ToUser(whom, said) && {
                    &&& whom == whose[i]
                    &&& member_of(said, "type"@) == Some(Json::Text("role_changed"@))
                    &&& member_of(said, "role_id"@) == Some(Json::Int(3))
                    &&& member_of(said, "role_name"@) == Some(Json::Text("Member"@))
                    &&& member_of(said, "role_color"@) == Some(Json::Text("#99AAB5"@))
                    &&& member_of(said, "permissions"@) == Some(Json::Array(Seq::empty()))
                }
                &&& effect.notices[2 + 2 * i] matches Packet::Broadcast(told) && {
                    &&& member_of(told, "type"@) == Some(Json::Text("member_role_updated"@))
                    &&& member_of(told, "username"@) == Some(Json::Text(whose[i]))
                    &&& member_of(told, "role_name"@) == Some(Json::Text("Member"@))
                    &&& member_of(told, "role_color"@) == Some(Json::Text("#99AAB5"@))
                }
            }
        },
{
    if let Ok(effect) = role_deleted(bits, role_id, is_system, members) {
        let whose = members->Ok_0;
        let start = replying(ok_json()).at_once().and_change(Change::ReleaseRole { role_id }).and_change(
            Change::DeleteRole { role_id },
        ).and_broadcast(
            obj().with("type"@, Json::Text("role_deleted"@)).with("role_id"@, Json::Int(role_id as int)).json(),
        );
        assert(effect == released_told(start, whose));
        each_is_released(start, whose, i);
        a_role_is_told_as_it_is(MEMBER_ROLE, whose[i], "Member"@, "#99AAB5"@, Json::Array(Seq::empty()));
        assert(effect.notices[0] == start.notices[0]);
        let told = start.notices[0]->Broadcast_0;
        assert(member_of(start.reply, "ok"@) == Some(Json::Bool(true)) && member_of(told, "type"@) == Some(
            Json::Text("role_deleted"@),
        ) && member_of(told, "role_id"@) == Some(Json::Int(role_id as int))) by {
            broadcast use lookup_of_push;

            reveal_strlit("type");
            reveal_strlit("role_id");
            reveal_strlit("ok");
        }
    }
}

/// How the requests about roles are refused: without the permission, for a name,
/// a color or permissions that no role can have, for fewer permissions of the
/// Owner role, and for a role that is not there.
pub proof fn refusals_about_roles(
    bits: Lookup<i64>,
    body: RoleRequest,
    order: Lookup<i64>,
    role_id: i64,
    is_system: Lookup<bool>,
    members: Result<Seq<Seq<char>>, Refusal>,
)
    ensures
        ({
            let made = role_drafted(bits, body, order);
            let changed = role_changed(bits, role_id, body, members);
            let gone = role_deleted(bits, role_id, is_system, members);
            let may = granted(bits, MANAGE_ROLES);
            &&& bits !is Failed && !may ==> (made matches Err(Refusal::Forbidden(_))) && (changed matches Err(
                Refusal::Forbidden(_),
            )) && (gone matches Err(Refusal::Forbidden(_)))
            &&& may && made is Err ==> (made matches Err(Refusal::BadRequest(_))) && (changed matches Err(
                Refusal::BadRequest(_),
            ))
            &&& made is Ok && role_id == 1 && named_set(texts(body.permissions@)) != Ok::<i64, Seq<char>>(ALL_BITS)
                ==> (changed matches Err(Refusal::BadRequest(_)))
            &&& may && is_system !is Found ==> (gone matches Err(Refusal::NotFound(_)))
        }),
{
}

} // verus!
