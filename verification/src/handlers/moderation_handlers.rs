//! Muting members and slowing them down.

use crate::error::{bad_request, forbidden, not_found, AppError, Lookup, Refusal};
use crate::group::{applied, finds_bits, finds_role_id, may, owners, GroupDb, GroupInfo, MuteRow};
use crate::handlers::checks::{rows_found, GROUP};
use crate::handlers::messages::same_option;
use crate::json::{
    array, jsons, lookup_of_push, member_of, obj, opt_text, text_or_none, text_or_null, Fields, Json, JsonValue,
};
use crate::models::permission::{Permission, MANAGE_SLOW_MODE, MUTE_MEMBERS, VIEW_MUTE_LIST};
use crate::outcome::{ok_json, ok_reply, replying, told, Effect, Outcome, Packet};
use crate::permissions::{
    granted, has_any_permission, has_permission, is_owner_equivalent, owner_role,
    permissions_are_those_of_the_role, permitted, permitted_any,
};
use crate::store::{Change, Write};
use vstd::prelude::*;

verus! {

/// The longest mute, in minutes: a year.
pub const MAX_MUTE_MINUTES: i64 = 525_600;

/// The longest delay of slow mode, in seconds: six hours.
pub const MAX_SLOW_MODE_SECONDS: i64 = 21_600;

/// A request to mute someone for some minutes. There is no mute without an end.
pub struct MuteRequest {
    pub reason: Option<String>,
    pub duration_minutes: i64,
}

/// A request to set slow mode: the seconds between messages, or none to turn it
/// off.
pub struct SlowModeRequest {
    pub seconds: i64,
}

/// Whether someone may mute: either of two permissions will do.
pub open spec fn may_mute(bits: Lookup<i64>) -> Result<bool, Refusal> {
    permitted_any(
        bits,
        Seq::empty().push(Permission { bits: MUTE_MEMBERS }).push(Permission { bits: VIEW_MUTE_LIST }),
    )
}

fn can_mute(bits: &Lookup<i64>) -> (res: Result<bool, AppError>)
    ensures
        crate::error::shown(res) == may_mute(*bits),
{
    let wanted = [Permission { bits: MUTE_MEMBERS }, Permission { bits: VIEW_MUTE_LIST }];
    assert(wanted@ =~= Seq::empty().push(Permission { bits: MUTE_MEMBERS }).push(
        Permission { bits: VIEW_MUTE_LIST },
    ));
    has_any_permission(bits, &wanted)
}

/// Someone may not act on an owner unless they are one: the refusal otherwise.
pub open spec fn owners_guarded(
    target_role: Lookup<i64>,
    actor_role: Lookup<i64>,
    message: Seq<char>,
) -> Result<(), Refusal> {
    match owner_role(target_role) {
        Err(e) => Err(e),
        Ok(false) => Ok(()),
        Ok(true) => match owner_role(actor_role) {
            Err(e) => Err(e),
            Ok(true) => Ok(()),
            Ok(false) => Err(Refusal::Forbidden(message)),
        },
    }
}

/// Refuse someone who acts on an owner without being one.
pub fn guard_owners(target_role: &Lookup<i64>, actor_role: &Lookup<i64>, message: &str) -> (res: Result<
    (),
    AppError,
>)
    ensures
        crate::error::shown(res) == owners_guarded(*target_role, *actor_role, message@),
{
    if is_owner_equivalent(target_role)? && !is_owner_equivalent(actor_role)? {
        return Err(forbidden(message));
    }
    Ok(())
}

/// What muting someone leads to.
pub open spec fn muted(
    actor: Seq<char>,
    target: Seq<char>,
    req: MuteRequest,
    now: i64,
    actor_bits: Lookup<i64>,
    target_role: Lookup<i64>,
    actor_role: Lookup<i64>,
) -> Result<Effect, Refusal> {
    let expires_at = (now + req.duration_minutes * 60_000) as i64;
    if req.duration_minutes <= 0 {
        Err(Refusal::BadRequest("duration_minutes must be positive"@))
    } else if req.duration_minutes > MAX_MUTE_MINUTES {
        Err(Refusal::BadRequest("duration_minutes too large (max 1 year)"@))
    } else {
        match may_mute(actor_bits) {
            Err(e) => Err(e),
            Ok(false) => Err(Refusal::Forbidden("Insufficient permissions"@)),
            Ok(true) => match owners_guarded(target_role, actor_role, "Cannot mute an owner"@) {
                Err(e) => Err(e),
                Ok(_) => Ok(
                    replying(
                        obj().with("ok"@, Json::Bool(true)).with(
                            "expires_at"@,
                            Json::Int(expires_at as int),
                        ).json(),
                    ).and_change(
                        Change::ReplaceMute {
                            username: target,
                            muted_by: actor,
                            reason: opt_text(req.reason),
                            expires_at,
                        },
                    ).and_broadcast(
                        obj().with("type"@, Json::Text("member_muted"@)).with(
                            "group_id"@,
                            Json::Int(1),
                        ).with("username"@, Json::Text(target)).with(
                            "muted_by"@,
                            Json::Text(actor),
                        ).with("expires_at"@, Json::Int(expires_at as int)).with(
                            "reason"@,
                            text_or_null(opt_text(req.reason)),
                        ).json(),
                    ),
                ),
            },
        }
    }
}

/// Mute a member for some minutes. `now` is in milliseconds, and far enough from
/// the end of time for the mute to have an end.
pub fn mute_member(
    actor: &str,
    target: &str,
    req: &MuteRequest,
    now: i64,
    actor_bits: &Lookup<i64>,
    target_role: &Lookup<i64>,
    actor_role: &Lookup<i64>,
) -> (res: Result<Outcome, AppError>)
    requires
        now <= i64::MAX - MAX_MUTE_MINUTES * 60_000,
    ensures
        told(res) == muted(actor@, target@, *req, now, *actor_bits, *target_role, *actor_role),
{
    if req.duration_minutes <= 0 {
        return Err(bad_request("duration_minutes must be positive"));
    }
    if req.duration_minutes > MAX_MUTE_MINUTES {
        return Err(bad_request("duration_minutes too large (max 1 year)"));
    }
    let expires_at: i64 = now + req.duration_minutes * 60_000;
    if !can_mute(actor_bits)? {
        return Err(forbidden("Insufficient permissions"));
    }
    guard_owners(target_role, actor_role, "Cannot mute an owner")?;
    let packet = Fields::new().put_text("type", "member_muted").put_int("group_id", GROUP).put_text(
        "username",
        target,
    ).put_text("muted_by", actor).put_int("expires_at", expires_at).put(
        "reason",
        text_or_none(&req.reason),
    ).done();
    let reply = Fields::new().put_bool("ok", true).put_int("expires_at", expires_at).done();
    Ok(
        Outcome::replying(reply).and_write(
            Write::ReplaceMute {
                username: target.to_owned(),
                muted_by: actor.to_owned(),
                reason: same_option(&req.reason),
                expires_at,
            },
        ).and_broadcast(packet),
    )
}

/// What lifting a mute leads to.
pub open spec fn unmuted(actor: Seq<char>, target: Seq<char>, actor_bits: Lookup<i64>) -> Result<
    Effect,
    Refusal,
> {
    match may_mute(actor_bits) {
        Err(e) => Err(e),
        Ok(false) => Err(Refusal::Forbidden("Insufficient permissions"@)),
        Ok(true) => Ok(
            replying(ok_json()).and_change(Change::DeleteMute { username: target }).and_broadcast(
                obj().with("type"@, Json::Text("member_unmuted"@)).with("group_id"@, Json::Int(1)).with(
                    "username"@,
                    Json::Text(target),
                ).with("unmuted_by"@, Json::Text(actor)).json(),
            ),
        ),
    }
}

/// Lift a mute early.
pub fn unmute_member(actor: &str, target: &str, actor_bits: &Lookup<i64>) -> (res: Result<
    Outcome,
    AppError,
>)
    ensures
        told(res) == unmuted(actor@, target@, *actor_bits),
{
    if !can_mute(actor_bits)? {
        return Err(forbidden("Insufficient permissions"));
    }
    let packet = Fields::new().put_text("type", "member_unmuted").put_int("group_id", GROUP).put_text(
        "username",
        target,
    ).put_text("unmuted_by", actor).done();
    Ok(
        Outcome::replying(ok_reply()).and_write(
            Write::DeleteMute { username: target.to_owned() },
        ).and_broadcast(packet),
    )
}

/// A mute in force.
pub struct MuteEntry {
    pub username: String,
    pub muted_by: String,
    pub reason: Option<String>,
    pub muted_at: String,
    pub expires_at: i64,
}

/// A mute in the list of mutes.
pub open spec fn mute_json(m: MuteEntry) -> Json {
    obj().with("username"@, Json::Text(m.username@)).with("muted_by"@, Json::Text(m.muted_by@)).with(
        "reason"@,
        text_or_null(opt_text(m.reason)),
    ).with("muted_at"@, Json::Text(m.muted_at@)).with("expires_at"@, Json::Int(m.expires_at as int)).json()
}

fn mute_value(m: &MuteEntry) -> (res: JsonValue)
    ensures
        res@ == mute_json(*m),
{
    Fields::new().put_text("username", m.username.as_str()).put_text("muted_by", m.muted_by.as_str()).put(
        "reason",
        text_or_none(&m.reason),
    ).put_text("muted_at", m.muted_at.as_str()).put_int("expires_at", m.expires_at).done()
}

/// The list of mutes.
fn mute_list(rows: &Vec<MuteEntry>) -> (res: JsonValue)
    ensures
        res@ == Json::Array(rows@.map_values(|r: MuteEntry| mute_json(r))),
{
    let mut out: Vec<JsonValue> = Vec::new();
    let mut i: usize = 0;
    while i < rows.len()
        invariant
            i <= rows@.len(),
            jsons(out@) == rows@.take(i as int).map_values(|r: MuteEntry| mute_json(r)),
        decreases rows@.len() - i,
    {
        let ghost before = out@;
        out.push(mute_value(&rows[i]));
        proof {
            assert(jsons(out@) =~= jsons(before).push(mute_json(rows@[i as int])));
            assert(rows@.take(i + 1).map_values(|r: MuteEntry| mute_json(r)) =~= rows@.take(
                i as int,
            ).map_values(|r: MuteEntry| mute_json(r)).push(mute_json(rows@[i as int])));
        }
        i += 1;
    }
    assert(rows@.take(rows@.len() as int) =~= rows@);
    assert(jsons(out@) == rows@.map_values(|r: MuteEntry| mute_json(r)));
    array(out)
}

/// What asking for the mutes leads to.
pub open spec fn mutes_listed(bits: Lookup<i64>, rows: Result<Seq<MuteEntry>, Refusal>) -> Result<
    Effect,
    Refusal,
> {
    match permitted(bits, VIEW_MUTE_LIST) {
        Err(e) => Err(e),
        Ok(false) => Err(Refusal::Forbidden("Insufficient permissions"@)),
        Ok(true) => match rows {
            Err(e) => Err(e),
            Ok(r) => Ok(replying(Json::Array(r.map_values(|m: MuteEntry| mute_json(m))))),
        },
    }
}

/// List the mutes that are in force.
pub fn list_mutes(bits: &Lookup<i64>, rows: &Result<Vec<MuteEntry>, String>) -> (res: Result<
    Outcome,
    AppError,
>)
    ensures
        told(res) == mutes_listed(*bits, rows_found(*rows)),
{
    if !has_permission(bits, Permission { bits: VIEW_MUTE_LIST })? {
        return Err(forbidden("Insufficient permissions"));
    }
    match rows {
        Err(e) => Err(AppError::Internal(e.clone())),
        Ok(r) => Ok(Outcome::replying(mute_list(r))),
    }
}

/// When the mute of a user ends that is in force.
pub open spec fn mute_in_force(expires_at: Lookup<i64>, now: i64) -> Option<i64> {
    match expires_at {
        Lookup::Found(end) if end > now => Some(end),
        _ => None,
    }
}

/// Whether the mute of a user is over and its row can go.
pub open spec fn mute_is_over(expires_at: Lookup<i64>, now: i64) -> bool {
    expires_at matches Lookup::Found(end) && end <= now
}

/// When a user's mute ends, if it is in force, and whether it is over and can be
/// deleted.
pub fn active_mute_expiry(expires_at: &Lookup<i64>, now: i64) -> (res: (Option<i64>, bool))
    ensures
        res.0 == mute_in_force(*expires_at, now),
        res.1 == mute_is_over(*expires_at, now),
{
    match expires_at {
        Lookup::Found(end) => if *end > now {
            (Some(*end), false)
        } else {
            (None, true)
        },
        _ => (None, false),
    }
}

/// A mute is in force until its time is over, and not after it was lifted.
pub proof fn a_mute_lasts_its_time(
    actor: Seq<char>,
    target: Seq<char>,
    req: MuteRequest,
    now: i64,
    actor_bits: Lookup<i64>,
    target_role: Lookup<i64>,
    actor_role: Lookup<i64>,
    db: GroupDb,
    later: i64,
)
    requires
        now <= i64::MAX - MAX_MUTE_MINUTES * 60_000,
        muted(actor, target, req, now, actor_bits, target_role, actor_role) is Ok,
    ensures
        ({
            let effect = muted(actor, target, req, now, actor_bits, target_role, actor_role)->Ok_0;
            let after = applied(db, effect.changes[0], 0);
            &&& effect.changes.len() == 1
            &&& after.mutes.contains_key(target)
            &&& after.mutes.remove(target) == db.mutes.remove(target)
            &&& mute_in_force(Lookup::Found(after.mutes[target].expires_at), later) is Some <==> later
                < now + req.duration_minutes * 60_000
            &&& unmuted(actor, target, actor_bits) is Ok
            &&& applied(after, unmuted(actor, target, actor_bits)->Ok_0.changes[0], 0).mutes
                == db.mutes.remove(target)
        }),
{
    let effect = muted(actor, target, req, now, actor_bits, target_role, actor_role)->Ok_0;
    let after = applied(db, effect.changes[0], 0);
    assert(after.mutes.remove(target) =~= db.mutes.remove(target));
}

/// Nobody mutes an owner but an owner, nor anyone without the permission to.
pub proof fn muting_respects_ranks(
    actor: Seq<char>,
    target: Seq<char>,
    req: MuteRequest,
    now: i64,
    actor_bits: Lookup<i64>,
    target_role: Lookup<i64>,
    actor_role: Lookup<i64>,
    db: GroupDb,
)
    requires
        muted(actor, target, req, now, actor_bits, target_role, actor_role) is Ok,
        finds_bits(actor_bits, db, actor),
        finds_role_id(actor_role, db, actor),
        finds_role_id(target_role, db, target),
    ensures
        may(db, actor, MUTE_MEMBERS) || may(db, actor, VIEW_MUTE_LIST),
        owners(db).contains(target) ==> owners(db).contains(actor),
        0 < req.duration_minutes <= MAX_MUTE_MINUTES,
{
}

/// What setting slow mode leads to.
pub open spec fn slowed(username: Seq<char>, group_id: i64, seconds: i64, bits: Lookup<i64>) -> Result<
    Effect,
    Refusal,
> {
    if group_id != 1 {
        Err(Refusal::NotFound("Group not found"@))
    } else if seconds < 0 || seconds > MAX_SLOW_MODE_SECONDS {
        Err(Refusal::BadRequest("seconds must be between 0 and 21600"@))
    } else {
        match permitted(bits, MANAGE_SLOW_MODE) {
            Err(e) => Err(e),
            Ok(false) => Err(Refusal::Forbidden("Insufficient permissions"@)),
            Ok(true) => Ok(
                replying(
                    obj().with("ok"@, Json::Bool(true)).with("seconds"@, Json::Int(seconds as int)).json(),
                ).and_change(Change::SetSlowMode { seconds }).and_broadcast(
                    obj().with("type"@, Json::Text("slow_mode_updated"@)).with(
                        "group_id"@,
                        Json::Int(1),
                    ).with("seconds"@, Json::Int(seconds as int)).with(
                        "updated_by"@,
                        Json::Text(username),
                    ).json(),
                ),
            ),
        }
    }
}

/// Set slow mode.
pub fn set_slow_mode(username: &str, group_id: i64, req: &SlowModeRequest, bits: &Lookup<i64>) -> (res:
    Result<Outcome, AppError>)
    ensures
        told(res) == slowed(username@, group_id, req.seconds, *bits),
{
    if group_id != GROUP {
        return Err(not_found("Group not found"));
    }
    if req.seconds < 0 || req.seconds > MAX_SLOW_MODE_SECONDS {
        return Err(bad_request("seconds must be between 0 and 21600"));
    }
    if !has_permission(bits, Permission { bits: MANAGE_SLOW_MODE })? {
        return Err(forbidden("Insufficient permissions"));
    }
    let packet = Fields::new().put_text("type", "slow_mode_updated").put_int("group_id", GROUP).put_int(
        "seconds",
        req.seconds,
    ).put_text("updated_by", username).done();
    let reply = Fields::new().put_bool("ok", true).put_int("seconds", req.seconds).done();
    Ok(
        Outcome::replying(reply).and_write(Write::SetSlowMode { seconds: req.seconds }).and_broadcast(
            packet,
        ),
    )
}

/// Someone is muted if and only if it is for 1 minute to a year, whoever acts may
/// mute members or view the mutes and, if the other is an owner, is an owner too.
/// The mute says who muted them, why and until when, and so everyone is told.
pub proof fn a_mute_is_stored_and_told(
    actor: Seq<char>,
    target: Seq<char>,
    req: MuteRequest,
    now: i64,
    actor_bits: Lookup<i64>,
    target_role: Lookup<i64>,
    actor_role: Lookup<i64>,
    db: GroupDb,
)
    requires
        now <= i64::MAX - 525_600 * 60_000,
    ensures
        ({
            let res = muted(actor, target, req, now, actor_bits, target_role, actor_role);
            let end = now + req.duration_minutes * 60_000;
            &&& res is Ok <==> {
                &&& 1 <= req.duration_minutes <= 525_600
                &&& granted(actor_bits, MUTE_MEMBERS) || granted(actor_bits, VIEW_MUTE_LIST)
                &&& target_role !is Failed
                &&& target_role == Lookup::Found(1i64) ==> actor_role == Lookup::Found(1i64)
            }
            &&& res matches Ok(effect) ==> {
                &&& effect.changes.len() == 1
                &&& applied(db, effect.changes[0], 0) == (GroupDb {
                    mutes: db.mutes.insert(
                        target,
                        MuteRow {
                            muted_by: actor,
                            reason: match req.reason {
                                Some(r) => Some(r@),
                                None => None,
                            },
                            expires_at: end as i64,
                        },
                    ),
                    ..db
                })
                &&& member_of(effect.reply, "ok"@) == Some(Json::Bool(true))
                &&& member_of(effect.reply, "expires_at"@) == Some(Json::Int(end))
                &&& effect.notices.len() == 1
                &&& effect.notices[0] matches Packet::Broadcast(told) && {
                    &&& member_of(told, "type"@) == Some(Json::Text("member_muted"@))
                    &&& member_of(told, "group_id"@) == Some(Json::Int(1))
                    &&& member_of(told, "username"@) == Some(Json::Text(target))
                    &&& member_of(told, "muted_by"@) == Some(Json::Text(actor))
                    &&& member_of(told, "expires_at"@) == Some(Json::Int(end))
                    &&& member_of(told, "reason"@) == Some(
                        match req.reason {
                            Some(s) => Json::Text(s@),
                            None => Json::Null,
                        },
                    )
                }
            }
        }),
{
    broadcast use lookup_of_push;

    reveal_strlit("ok");
    reveal_strlit("type");
    reveal_strlit("group_id");
    reveal_strlit("username");
    reveal_strlit("muted_by");
    reveal_strlit("expires_at");
    reveal_strlit("reason");
    permissions_are_those_of_the_role(
        actor_bits,
        MUTE_MEMBERS,
        Permission { bits: MUTE_MEMBERS },
        Permission { bits: VIEW_MUTE_LIST },
    );
}

/// A mute is lifted if and only if whoever acts may mute members or view the
/// mutes. Only that mute goes, and everyone is told who lifted whose.
pub proof fn a_lifted_mute_is_told(actor: Seq<char>, target: Seq<char>, actor_bits: Lookup<i64>, db: GroupDb)
    ensures
        ({
            let res = unmuted(actor, target, actor_bits);
            &&& res is Ok <==> granted(actor_bits, MUTE_MEMBERS) || granted(actor_bits, VIEW_MUTE_LIST)
            &&& res matches Ok(effect) ==> {
                &&& effect.changes.len() == 1
                &&& applied(db, effect.changes[0], 0) == (GroupDb { mutes: db.mutes.remove(target), ..db })
                &&& member_of(effect.reply, "ok"@) == Some(Json::Bool(true))
                &&& effect.notices.len() == 1
                &&& effect.notices[0] matches Packet::Broadcast(told) && {
                    &&& member_of(told, "type"@) == Some(Json::Text("member_unmuted"@))
                    &&& member_of(told, "group_id"@) == Some(Json::Int(1))
                    &&& member_of(told, "username"@) == Some(Json::Text(target))
                    &&& member_of(told, "unmuted_by"@) == Some(Json::Text(actor))
                }
            }
        }),
{
    broadcast use lookup_of_push;

    reveal_strlit("ok");
    reveal_strlit("type");
    reveal_strlit("group_id");
    reveal_strlit("username");
    reveal_strlit("unmuted_by");
    permissions_are_those_of_the_role(
        actor_bits,
        MUTE_MEMBERS,
        Permission { bits: MUTE_MEMBERS },
        Permission { bits: VIEW_MUTE_LIST },
    );
}

/// Whoever may view the mutes is told every one of them, in the order in which
/// they were read, with the columns of its row.
pub proof fn every_mute_is_told(bits: Lookup<i64>, rows: Result<Seq<MuteEntry>, Refusal>, i: int)
    ensures
        mutes_listed(bits, rows) is Ok <==> granted(bits, VIEW_MUTE_LIST) && rows is Ok,
        bits !is Failed && !granted(bits, VIEW_MUTE_LIST) ==> mutes_listed(bits, rows) matches Err(
            Refusal::Forbidden(_),
        ),
        mutes_listed(bits, rows) matches Ok(effect) ==> {
            let told = effect.reply->Array_0;
            let m = rows->Ok_0[i];
            &&& effect.changes.len() == 0
            &&& effect.notices.len() == 0
            &&& effect.reply is Array
            &&& told.len() == rows->Ok_0.len()
            &&& 0 <= i < told.len() ==> {
                &&& member_of(told[i], "username"@) == Some(Json::Text(m.username@))
                &&& member_of(told[i], "muted_by"@) == Some(Json::Text(m.muted_by@))
                &&& member_of(told[i], "muted_at"@) == Some(Json::Text(m.muted_at@))
                &&& member_of(told[i], "expires_at"@) == Some(Json::Int(m.expires_at as int))
                &&& member_of(told[i], "reason"@) == Some(
                    match m.reason {
                        Some(s) => Json::Text(s@),
                        None => Json::Null,
                    },
                )
            }
        },
{
    broadcast use lookup_of_push;

    reveal_strlit("username");
    reveal_strlit("muted_by");
    reveal_strlit("muted_at");
    reveal_strlit("expires_at");
    reveal_strlit("reason");
}

/// Slow mode is set if and only if the group is this one, the delay is of 0
/// seconds to 6 hours, and the user may manage slow mode. The delay is stored and
/// told, and nothing else changes.
pub proof fn slow_mode_is_set_and_told(
    username: Seq<char>,
    group_id: i64,
    seconds: i64,
    bits: Lookup<i64>,
    db: GroupDb,
)
    ensures
        ({
            let res = slowed(username, group_id, seconds, bits);
            &&& res is Ok <==> group_id == 1 && 0 <= seconds <= 21_600 && granted(bits, MANAGE_SLOW_MODE)
            &&& res matches Ok(effect) ==> {
                &&& effect.changes.len() == 1
                &&& applied(db, effect.changes[0], 0) == (GroupDb {
                    info: GroupInfo { slow_mode_seconds: seconds, ..db.info },
                    ..db
                })
                &&& member_of(effect.reply, "ok"@) == Some(Json::Bool(true))
                &&& member_of(effect.reply, "seconds"@) == Some(Json::Int(seconds as int))
                &&& effect.notices.len() == 1
                &&& effect.notices[0] matches Packet::Broadcast(told) && {
                    &&& member_of(told, "type"@) == Some(Json::Text("slow_mode_updated"@))
                    &&& member_of(told, "group_id"@) == Some(Json::Int(1))
                    &&& member_of(told, "seconds"@) == Some(Json::Int(seconds as int))
                    &&& member_of(told, "updated_by"@) == Some(Json::Text(username))
                }
            }
        }),
{
    broadcast use lookup_of_push;

    reveal_strlit("ok");
    reveal_strlit("type");
    reveal_strlit("group_id");
    reveal_strlit("seconds");
    reveal_strlit("updated_by");
}

/// A mute is in force while its end is to come, and its row can go once that has
/// passed; it is one or the other.
pub proof fn a_mute_is_in_force_or_over(expires_at: Lookup<i64>, now: i64)
    ensures
        mute_in_force(expires_at, now) is Some <==> (expires_at matches Lookup::Found(end) && end > now),
        mute_in_force(expires_at, now) matches Some(end) ==> expires_at == Lookup::Found(end),
        expires_at is Found ==> (mute_is_over(expires_at, now) <==> mute_in_force(expires_at, now) is None),
        expires_at !is Found ==> !mute_is_over(expires_at, now),
{
}

/// How muting and slow mode are refused: out of bounds, for another group, without
/// the permission, and to whoever would mute an owner without being one.
pub proof fn refusals_about_moderation(
    actor: Seq<char>,
    target: Seq<char>,
    req: MuteRequest,
    now: i64,
    bits: Lookup<i64>,
    target_role: Lookup<i64>,
    actor_role: Lookup<i64>,
    group_id: i64,
    seconds: i64,
)
    ensures
        ({
            let res = muted(actor, target, req, now, bits, target_role, actor_role);
            let lift = unmuted(actor, target, bits);
            let slow = slowed(actor, group_id, seconds, bits);
            let owner = Lookup::Found(1i64);
            let may = granted(bits, MUTE_MEMBERS) || granted(bits, VIEW_MUTE_LIST);
            let timed = 1 <= req.duration_minutes <= 525_600;
            let bounded = 0 <= seconds <= 21_600;
            &&& !timed ==> (res matches Err(Refusal::BadRequest(_)))
            &&& timed && bits !is Failed && !may ==> (res matches Err(Refusal::Forbidden(_))) && (lift matches Err(
                Refusal::Forbidden(_),
            ))
            &&& timed && may && target_role == owner && actor_role !is Failed && actor_role != owner ==> (
            res matches Err(Refusal::Forbidden(_)))
            &&& group_id != 1 ==> (slow matches Err(Refusal::NotFound(_)))
            &&& group_id == 1 && !bounded ==> (slow matches Err(Refusal::BadRequest(_)))
            &&& group_id == 1 && bounded && bits !is Failed && !granted(bits, MANAGE_SLOW_MODE) ==> (
            slow matches Err(Refusal::Forbidden(_)))
        }),
{
    permissions_are_those_of_the_role(
        bits,
        MUTE_MEMBERS,
        Permission { bits: MUTE_MEMBERS },
        Permission { bits: VIEW_MUTE_LIST },
    );
}

} // verus!
