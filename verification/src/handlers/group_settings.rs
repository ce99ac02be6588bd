//! The group's settings.

use crate::error::{
    any_counted, bad_request, counted, none_found, not_found, some_found, AppError, Lookup, Refusal,
};
use crate::group::{applied, GroupDb, GroupInfo};
use crate::handlers::checks::{members_only, require_member, GROUP};
use crate::json::{lookup_of_push, member_of, obj, opt_text, Fields, Json, JsonValue};
use crate::models::permission::{Permission, MANAGE_SETTINGS};
use crate::outcome::{replying, told, Effect, Outcome, Packet};
use crate::permissions::{require_permission, required};
use crate::store::{Change, Write};
use vstd::prelude::*;

verus! {

/// The group's settings.
pub struct GroupSettings {
    pub description: String,
    pub motd: String,
    pub max_members: i64,
    pub max_message_length: i64,
    pub max_messages_per_minute: i64,
    pub default_role_id: i64,
}

/// The model of the group's settings.
pub struct Settings {
    pub description: Seq<char>,
    pub motd: Seq<char>,
    pub max_members: i64,
    pub max_message_length: i64,
    pub max_messages_per_minute: i64,
    pub default_role_id: i64,
}

impl View for GroupSettings {
    type V = Settings;

    open spec fn view(&self) -> Settings {
        Settings {
            description: self.description@,
            motd: self.motd@,
            max_members: self.max_members,
            max_message_length: self.max_message_length,
            max_messages_per_minute: self.max_messages_per_minute,
            default_role_id: self.default_role_id,
        }
    }
}

/// The settings that a lookup found; without them there is no group.
pub open spec fn settings_found(found: Lookup<GroupSettings>) -> Result<Settings, Refusal> {
    match found {
        Lookup::Found(s) => Ok(s@),
        _ => Err(Refusal::NotFound("Group not found"@)),
    }
}

fn load_settings(found: &Lookup<GroupSettings>) -> (res: Result<&GroupSettings, AppError>)
    ensures
        match res {
            Ok(s) => settings_found(*found) == Ok::<Settings, Refusal>(s@),
            Err(e) => settings_found(*found) == Err::<Settings, Refusal>(e@),
        },
{
    match found {
        Lookup::Found(s) => Ok(s),
        _ => Err(not_found("Group not found")),
    }
}

/// The settings, to be told.
pub open spec fn settings_told(s: Settings) -> Json {
    obj().with("description"@, Json::Text(s.description)).with("motd"@, Json::Text(s.motd)).with(
        "max_members"@,
        Json::Int(s.max_members as int),
    ).with("max_message_length"@, Json::Int(s.max_message_length as int)).with(
        "max_messages_per_minute"@,
        Json::Int(s.max_messages_per_minute as int),
    ).with("default_role_id"@, Json::Int(s.default_role_id as int)).json()
}

/// The settings, to be told.
pub fn settings_json(s: &GroupSettings) -> (res: JsonValue)
    ensures
        res@ == settings_told(s@),
{
    Fields::new().put_text("description", s.description.as_str()).put_text("motd", s.motd.as_str()).put_int(
        "max_members",
        s.max_members,
    ).put_int("max_message_length", s.max_message_length).put_int(
        "max_messages_per_minute",
        s.max_messages_per_minute,
    ).put_int("default_role_id", s.default_role_id).done()
}

/// What asking for the settings leads to.
pub open spec fn settings_shown(
    group_id: i64,
    memberships: Lookup<i64>,
    found: Lookup<GroupSettings>,
) -> Result<Effect, Refusal> {
    if group_id != 1 {
        Err(Refusal::NotFound("Group not found"@))
    } else {
        match members_only(memberships, "Not a member of this group"@) {
            Err(e) => Err(e),
            Ok(_) => match settings_found(found) {
                Err(e) => Err(e),
                Ok(s) => Ok(replying(settings_told(s))),
            },
        }
    }
}

/// Tell a member the settings.
pub fn get_settings(group_id: i64, memberships: &Lookup<i64>, found: &Lookup<GroupSettings>) -> (res:
    Result<Outcome, AppError>)
    ensures
        told(res) == settings_shown(group_id, *memberships, *found),
{
    if group_id != GROUP {
        return Err(not_found("Group not found"));
    }
    require_member(memberships, "Not a member of this group")?;
    match load_settings(found) {
        Err(e) => Err(e),
        Ok(s) => Ok(Outcome::replying(settings_json(s))),
    }
}

/// A request to change some of the settings.
pub struct UpdateSettingsRequest {
    pub description: Option<String>,
    pub motd: Option<String>,
    pub max_members: Option<i64>,
    pub max_message_length: Option<i64>,
    pub max_messages_per_minute: Option<i64>,
    pub default_role_id: Option<i64>,
}

impl Default for UpdateSettingsRequest {
    fn default() -> (res: UpdateSettingsRequest)
        ensures
            res.description is None,
            res.motd is None,
            res.max_members is None,
            res.max_message_length is None,
            res.max_messages_per_minute is None,
            res.default_role_id is None,
    {
        UpdateSettingsRequest {
            description: None,
            motd: None,
            max_members: None,
            max_message_length: None,
            max_messages_per_minute: None,
            default_role_id: None,
        }
    }
}

/// Whether a number is within bounds, if it is given at all.
pub open spec fn within(n: Option<i64>, low: i64, high: i64) -> bool {
    n matches Some(v) ==> low <= v <= high
}

fn is_within(n: Option<i64>, low: i64, high: i64) -> (res: bool)
    ensures
        res == within(n, low, high),
{
    match n {
        Some(v) => low <= v && v <= high,
        None => true,
    }
}

/// Whether the default role of a request exists, if one is given.
pub open spec fn role_exists(role_id: Option<i64>, roles: Lookup<i64>) -> Result<(), Refusal> {
    match role_id {
        None => Ok(()),
        Some(_) => match counted(roles) {
            Err(e) => Err(e),
            Ok(true) => Ok(()),
            Ok(false) => Err(
                Refusal::BadRequest("default_role_id does not reference an existing role"@),
            ),
        },
    }
}

/// Whether the numbers of a request are within bounds.
pub open spec fn bounds_kept(body: UpdateSettingsRequest) -> Result<(), Refusal> {
    if !within(body.max_message_length, 1, 100_000) {
        Err(Refusal::BadRequest("max_message_length must be between 1 and 100000"@))
    } else if !within(body.max_members, 1, 100_000) {
        Err(Refusal::BadRequest("max_members must be between 1 and 100000"@))
    } else if !within(body.max_messages_per_minute, 0, 10_000) {
        Err(Refusal::BadRequest("max_messages_per_minute must be between 0 and 10000"@))
    } else {
        Ok(())
    }
}

/// What is given, or what there was.
pub open spec fn given_or<T>(given: Option<T>, current: T) -> T {
    match given {
        Some(v) => v,
        None => current,
    }
}

/// The settings with those of a request in place of the ones that it gives.
pub open spec fn overlaid(current: Settings, body: UpdateSettingsRequest) -> Settings {
    Settings {
        description: given_or(opt_text(body.description), current.description),
        motd: given_or(opt_text(body.motd), current.motd),
        max_members: given_or(body.max_members, current.max_members),
        max_message_length: given_or(body.max_message_length, current.max_message_length),
        max_messages_per_minute: given_or(body.max_messages_per_minute, current.max_messages_per_minute),
        default_role_id: given_or(body.default_role_id, current.default_role_id),
    }
}

/// What changing the settings leads to.
pub open spec fn settings_updated(
    group_id: i64,
    bits: Lookup<i64>,
    body: UpdateSettingsRequest,
    roles: Lookup<i64>,
    found: Lookup<GroupSettings>,
) -> Result<Effect, Refusal> {
    if group_id != 1 {
        Err(Refusal::NotFound("Group not found"@))
    } else {
        match required(bits, MANAGE_SETTINGS) {
            Err(e) => Err(e),
            Ok(_) => match bounds_kept(body) {
                Err(e) => Err(e),
                Ok(_) => match role_exists(body.default_role_id, roles) {
                    Err(e) => Err(e),
                    Ok(_) => match settings_found(found) {
                        Err(e) => Err(e),
                        Ok(current) => {
                            let s = overlaid(current, body);
                            Ok(
                                replying(settings_told(s)).and_change(
                                    Change::UpdateSettings {
                                        description: s.description,
                                        motd: s.motd,
                                        max_members: s.max_members,
                                        max_message_length: s.max_message_length,
                                        max_messages_per_minute: s.max_messages_per_minute,
                                        default_role_id: s.default_role_id,
                                    },
                                ).and_broadcast(
                                    obj().with("type"@, Json::Text("group_settings_updated"@)).with(
                                        "group_id"@,
                                        Json::Int(1),
                                    ).with("settings"@, settings_told(s)).json(),
                                ),
                            )
                        },
                    },
                },
            },
        }
    }
}

fn text_or(given: &Option<String>, current: &String) -> (res: String)
    ensures
        res@ == given_or(opt_text(*given), current@),
{
    match given {
        Some(s) => s.clone(),
        None => current.clone(),
    }
}

fn number_or(given: Option<i64>, current: i64) -> (res: i64)
    ensures
        res == given_or(given, current),
{
    match given {
        Some(n) => n,
        None => current,
    }
}

/// Change some of the settings, for one who may. `roles` is how many roles have
/// the number of the default role, and `found` the settings that there are.
pub fn update_settings(
    group_id: i64,
    bits: &Lookup<i64>,
    body: &UpdateSettingsRequest,
    roles: &Lookup<i64>,
    found: &Lookup<GroupSettings>,
) -> (res: Result<Outcome, AppError>)
    ensures
        told(res) == settings_updated(group_id, *bits, *body, *roles, *found),
{
    if group_id != GROUP {
        return Err(not_found("Group not found"));
    }
    require_permission(bits, Permission { bits: MANAGE_SETTINGS })?;
    if !is_within(body.max_message_length, 1, 100_000) {
        return Err(bad_request("max_message_length must be between 1 and 100000"));
    }
    if !is_within(body.max_members, 1, 100_000) {
        return Err(bad_request("max_members must be between 1 and 100000"));
    }
    if !is_within(body.max_messages_per_minute, 0, 10_000) {
        return Err(bad_request("max_messages_per_minute must be between 0 and 10000"));
    }
    if body.default_role_id.is_some() && !any_counted(roles)? {
        return Err(bad_request("default_role_id does not reference an existing role"));
    }
    let current = match load_settings(found) {
        Err(e) => return Err(e),
        Ok(s) => s,
    };
    let updated = GroupSettings {
        description: text_or(&body.description, &current.description),
        motd: text_or(&body.motd, &current.motd),
        max_members: number_or(body.max_members, current.max_members),
        max_message_length: number_or(body.max_message_length, current.max_message_length),
        max_messages_per_minute: number_or(body.max_messages_per_minute, current.max_messages_per_minute),
        default_role_id: number_or(body.default_role_id, current.default_role_id),
    };
    let packet = Fields::new().put_text("type", "group_settings_updated").put_int("group_id", GROUP).put(
        "settings",
        settings_json(&updated),
    ).done();
    Ok(
        Outcome::replying(settings_json(&updated)).and_write(
            Write::UpdateSettings {
                description: updated.description,
                motd: updated.motd,
                max_members: updated.max_members,
                max_message_length: updated.max_message_length,
                max_messages_per_minute: updated.max_messages_per_minute,
                default_role_id: updated.default_role_id,
            },
        ).and_broadcast(packet),
    )
}

/// The settings in the database.
pub open spec fn settings_of(info: GroupInfo) -> Settings {
    Settings {
        description: info.description,
        motd: info.motd,
        max_members: info.max_members,
        max_message_length: info.max_message_length,
        max_messages_per_minute: info.max_messages_per_minute,
        default_role_id: info.default_role_id,
    }
}

/// A change of the settings takes over what the request gives and leaves the
/// rest, in the settings and beyond them. What is stored is what is told.
/// Settings within their bounds stay so.
pub proof fn settings_change_in_part(
    group_id: i64,
    bits: Lookup<i64>,
    body: UpdateSettingsRequest,
    roles: Lookup<i64>,
    found: Lookup<GroupSettings>,
    db: GroupDb,
)
    requires
        settings_updated(group_id, bits, body, roles, found) is Ok,
        found matches Lookup::Found(s) && s@ == settings_of(db.info),
    ensures
        ({
            let effect = settings_updated(group_id, bits, body, roles, found)->Ok_0;
            let after = applied(db, effect.changes[0], 0);
            let s = settings_of(after.info);
            &&& effect.changes.len() == 1
            &&& required(bits, MANAGE_SETTINGS) is Ok
            &&& effect.reply == settings_told(s)
            &&& s == overlaid(settings_of(db.info), body)
            &&& body.description matches Some(v) ==> after.info.description == v@
            &&& body.description is None ==> after.info.description == db.info.description
            &&& body.motd matches Some(v) ==> after.info.motd == v@
            &&& body.motd is None ==> after.info.motd == db.info.motd
            &&& body.max_members matches Some(v) ==> after.info.max_members == v
            &&& body.max_members is None ==> after.info.max_members == db.info.max_members
            &&& body.max_message_length matches Some(v) ==> after.info.max_message_length == v
            &&& body.max_message_length is None ==> after.info.max_message_length == db.info.max_message_length
            &&& body.max_messages_per_minute matches Some(v) ==> after.info.max_messages_per_minute == v
            &&& body.max_messages_per_minute is None ==> after.info.max_messages_per_minute == db.info.max_messages_per_minute
            &&& body.default_role_id matches Some(v) ==> after.info.default_role_id == v
            &&& body.default_role_id is None ==> after.info.default_role_id == db.info.default_role_id
            &&& body.max_members matches Some(n) ==> s.max_members == n && 1 <= n <= 100_000
            &&& body.max_message_length matches Some(n) ==> s.max_message_length == n && 1 <= n <= 100_000
            &&& body.max_messages_per_minute matches Some(n) ==> s.max_messages_per_minute == n && 0 <= n
                <= 10_000
            &&& 1 <= db.info.max_members <= 100_000 ==> 1 <= s.max_members <= 100_000
            &&& after.info.name == db.info.name
            &&& after.info.owner_username == db.info.owner_username
            &&& after.info.slow_mode_seconds == db.info.slow_mode_seconds
            &&& after == (GroupDb { info: after.info, ..db })
        }),
{
}

/// The settings change if and only if the group is this one, the user may manage
/// the settings, what is given is within its bounds, a default role that is given
/// exists, and there are settings.
pub proof fn who_may_change_settings(
    group_id: i64,
    bits: Lookup<i64>,
    body: UpdateSettingsRequest,
    roles: Lookup<i64>,
    found: Lookup<GroupSettings>,
)
    ensures
        settings_updated(group_id, bits, body, roles, found) is Ok <==> {
            &&& group_id == 1
            &&& required(bits, MANAGE_SETTINGS) is Ok
            &&& body.max_message_length matches Some(n) ==> 1 <= n <= 100_000
            &&& body.max_members matches Some(n) ==> 1 <= n <= 100_000
            &&& body.max_messages_per_minute matches Some(n) ==> 0 <= n <= 10_000
            &&& body.default_role_id is Some ==> some_found(roles)
            &&& found is Found
        },
{
}

/// After a change of the settings the new ones are told to whoever changed them
/// and to everyone.
pub proof fn changed_settings_are_told(
    group_id: i64,
    bits: Lookup<i64>,
    body: UpdateSettingsRequest,
    roles: Lookup<i64>,
    found: Lookup<GroupSettings>,
    db: GroupDb,
)
    requires
        settings_updated(group_id, bits, body, roles, found) is Ok,
    ensures
        ({
            let effect = settings_updated(group_id, bits, body, roles, found)->Ok_0;
            let info = applied(db, effect.changes[0], 0).info;
            let reply = effect.reply;
            &&& member_of(reply, "description"@) == Some(Json::Text(info.description))
            &&& member_of(reply, "motd"@) == Some(Json::Text(info.motd))
            &&& member_of(reply, "max_members"@) == Some(Json::Int(info.max_members as int))
            &&& member_of(reply, "max_message_length"@) == Some(Json::Int(info.max_message_length as int))
            &&& member_of(reply, "max_messages_per_minute"@) == Some(Json::Int(info.max_messages_per_minute as int))
            &&& member_of(reply, "default_role_id"@) == Some(Json::Int(info.default_role_id as int))
            &&& effect.notices.len() == 1
            &&& effect.notices[0] matches Packet::Broadcast(told) && {
                &&& member_of(told, "type"@) == Some(Json::Text("group_settings_updated"@))
                &&& member_of(told, "group_id"@) == Some(Json::Int(1))
                &&& member_of(told, "settings"@) == Some(reply)
            }
        }),
{
    broadcast use lookup_of_push;

    reveal_strlit("description");
    reveal_strlit("motd");
    reveal_strlit("max_members");
    reveal_strlit("max_message_length");
    reveal_strlit("max_messages_per_minute");
    reveal_strlit("default_role_id");
    reveal_strlit("type");
    reveal_strlit("group_id");
    reveal_strlit("settings");
}

/// Members are told the settings as they are stored, and others are not.
pub proof fn settings_are_shown_to_members(
    group_id: i64,
    memberships: Lookup<i64>,
    found: Lookup<GroupSettings>,
)
    ensures
        settings_shown(group_id, memberships, found) is Ok <==> group_id == 1 && some_found(memberships)
            && found is Found,
        group_id == 1 && none_found(memberships) ==> settings_shown(group_id, memberships, found) matches Err(
            Refusal::Forbidden(_),
        ),
        group_id != 1 ==> settings_shown(group_id, memberships, found) matches Err(Refusal::NotFound(_)),
        group_id == 1 && some_found(memberships) && found !is Found ==> settings_shown(
            group_id,
            memberships,
            found,
        ) matches Err(Refusal::NotFound(_)),
        settings_shown(group_id, memberships, found) matches Ok(effect) ==> {
            &&& effect.changes.len() == 0
            &&& effect.notices.len() == 0
            &&& found matches Lookup::Found(s) && {
                &&& member_of(effect.reply, "description"@) == Some(Json::Text(s.description@))
                &&& member_of(effect.reply, "motd"@) == Some(Json::Text(s.motd@))
                &&& member_of(effect.reply, "max_members"@) == Some(Json::Int(s.max_members as int))
                &&& member_of(effect.reply, "max_message_length"@) == Some(Json::Int(s.max_message_length as int))
                &&& member_of(effect.reply, "max_messages_per_minute"@) == Some(Json::Int(s.max_messages_per_minute as int))
                &&& member_of(effect.reply, "default_role_id"@) == Some(Json::Int(s.default_role_id as int))
            }
        },
{
    broadcast use lookup_of_push;

    reveal_strlit("description");
    reveal_strlit("motd");
    reveal_strlit("max_members");
    reveal_strlit("max_message_length");
    reveal_strlit("max_messages_per_minute");
    reveal_strlit("default_role_id");
}

/// How a change of the settings is refused: for another group, without the
/// permission, out of bounds, or with a default role that is not there.
pub proof fn refusals_about_settings(
    group_id: i64,
    bits: Lookup<i64>,
    body: UpdateSettingsRequest,
    roles: Lookup<i64>,
    found: Lookup<GroupSettings>,
)
    ensures
        ({
            let res = settings_updated(group_id, bits, body, roles, found);
            let may = group_id == 1 && required(bits, MANAGE_SETTINGS) is Ok;
            let bounded = {
                &&& body.max_message_length matches Some(n) ==> 1 <= n <= 100_000
                &&& body.max_members matches Some(n) ==> 1 <= n <= 100_000
                &&& body.max_messages_per_minute matches Some(n) ==> 0 <= n <= 10_000
            };
            &&& group_id != 1 ==> (res matches Err(Refusal::NotFound(_)))
            &&& group_id == 1 && bits is Missing ==> (res matches Err(Refusal::Forbidden(_)))
            &&& may && !bounded ==> (res matches Err(Refusal::BadRequest(_)))
            &&& may && bounded && body.default_role_id is Some && none_found(roles) ==> (res matches Err(
                Refusal::BadRequest(_),
            ))
            &&& may && bounded && body.default_role_id is None && found !is Found ==> (res matches Err(
                Refusal::NotFound(_),
            ))
        }),
{
}

} // verus!
