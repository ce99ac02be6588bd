//! Members: who they are, removing them, and giving them roles.

use crate::error::{bad_request, forbidden, not_found, shown, some_found, AppError, Lookup, Refusal};
use crate::group::{
    applied, applied_all, counts, finds_bits, finds_role_id, may, owners, BanRow, GroupDb, MemberRow,
};
use crate::handlers::auth_handlers::{registered, true_of, Identity, RegisterFacts};
use crate::handlers::checks::{names_json, names_value, rows_found, GROUP};
use crate::handlers::messages::{joined, same_option, JoinFacts};
use crate::handlers::moderation_handlers::{guard_owners, owners_guarded};
use crate::json::{
    array, int_or_none, int_or_null, jsons, lookup_of_push, member_of, obj, opt_text, text_or_none,
    text_or_null, Fields, Json, JsonValue,
};
use crate::models::ban::{Ban, BanRequest};
use crate::models::permission::{
    Permission, ALL_BITS, BAN_MEMBERS, KICK_MEMBERS, MANAGE_ROLES, VIEW_BAN_LIST,
};
use crate::outcome::{ok_json, ok_reply, replying, told, Effect, Outcome, Packet};
use crate::permissions::{
    count_owner_equivalent_members, granted, has_any_permission, has_permission, is_owner_equivalent, no_rows,
    owner_count, owner_role, permissions_are_those_of_the_role, permitted, permitted_any, OWNER_ROLE,
};
use crate::query::{asks, Query};
use crate::store::{Change, Param, Write};
use crate::text::{lowercase, same, to_lowercase};
use vstd::prelude::*;

verus! {

/// A request to give a member a role.
pub struct SetRoleRequest {
    pub role_id: i64,
}

/// A member in the list of members.
pub struct MemberEntry {
    pub username: String,
    pub display_name: String,
    pub role: String,
    pub joined_at: String,
    pub role_id: Option<i64>,
    pub role_name: Option<String>,
    pub role_color: Option<String>,
    /// When the member's mute ends.
    pub muted_until: Option<i64>,
}

/// Whether someone is a member, for sure.
pub open spec fn membership(memberships: Lookup<i64>) -> Result<bool, Refusal> {
    match memberships {
        Lookup::Found(n) => Ok(n > 0),
        Lookup::Missing => Err(Refusal::Internal(no_rows())),
        Lookup::Failed(e) => Err(Refusal::Internal(e@)),
    }
}

/// Whether someone is a member, for sure: a count that cannot be made refuses
/// the request.
pub fn is_member(memberships: &Lookup<i64>) -> (res: Result<bool, AppError>)
    ensures
        shown(res) == membership(*memberships),
{
    Ok(count_owner_equivalent_members(memberships)? > 0)
}

/// The ban of a user, for the user to see.
pub open spec fn ban_status(ban: Lookup<Ban>) -> Json {
    match ban {
        Lookup::Found(b) => obj().with("banned"@, Json::Bool(true)).with(
            "banned_by"@,
            Json::Text(b.banned_by@),
        ).with("reason"@, text_or_null(opt_text(b.reason))).with(
            "banned_at"@,
            Json::Text(b.banned_at@),
        ).json(),
        _ => obj().with("banned"@, Json::Bool(false)).json(),
    }
}

/// What asking whether one is banned leads to.
pub open spec fn ban_shown(ban: Lookup<Ban>) -> Result<Effect, Refusal> {
    match ban {
        Lookup::Failed(e) => Err(Refusal::Internal(e@)),
        _ => Ok(replying(ban_status(ban))),
    }
}

/// Tell a user whether they are banned.
pub fn check_ban_status(ban: &Lookup<Ban>) -> (res: Result<Outcome, AppError>)
    ensures
        told(res) == ban_shown(*ban),
{
    match ban {
        Lookup::Failed(e) => Err(AppError::Internal(e.clone())),
        Lookup::Missing => Ok(Outcome::replying(Fields::new().put_bool("banned", false).done())),
        Lookup::Found(b) => Ok(
            Outcome::replying(
                Fields::new().put_bool("banned", true).put_text("banned_by", b.banned_by.as_str()).put(
                    "reason",
                    text_or_none(&b.reason),
                ).put_text("banned_at", b.banned_at.as_str()).done(),
            ),
        ),
    }
}

/// A member in the list of members.
pub open spec fn member_json(m: MemberEntry, now: i64) -> Json {
    obj().with("username"@, Json::Text(m.username@)).with(
        "display_name"@,
        Json::Text(m.display_name@),
    ).with("role"@, Json::Text(m.role@)).with("joined_at"@, Json::Text(m.joined_at@)).with(
        "role_id"@,
        int_or_null(m.role_id),
    ).with("role_name"@, text_or_null(opt_text(m.role_name))).with(
        "role_color"@,
        text_or_null(opt_text(m.role_color)),
    ).with("is_muted"@, Json::Bool(m.muted_until matches Some(end) && end > now)).json()
}

fn member_value(m: &MemberEntry, now: i64) -> (res: JsonValue)
    ensures
        res@ == member_json(*m, now),
{
    let is_muted = match m.muted_until {
        Some(end) => end > now,
        None => false,
    };
    Fields::new().put_text("username", m.username.as_str()).put_text(
        "display_name",
        m.display_name.as_str(),
    ).put_text("role", m.role.as_str()).put_text("joined_at", m.joined_at.as_str()).put(
        "role_id",
        int_or_none(m.role_id),
    ).put("role_name", text_or_none(&m.role_name)).put("role_color", text_or_none(&m.role_color)).put_bool(
        "is_muted",
        is_muted,
    ).done()
}

/// The list of members.
pub open spec fn members_json(rows: Seq<MemberEntry>, now: i64) -> Json {
    Json::Array(rows.map_values(|m: MemberEntry| member_json(m, now)))
}

/// What asking for the members leads to.
pub open spec fn members_listed(
    memberships: Lookup<i64>,
    rows: Result<Seq<MemberEntry>, Refusal>,
    now: i64,
) -> Result<Effect, Refusal> {
    match membership(memberships) {
        Err(e) => Err(e),
        Ok(false) => Err(Refusal::NotFound("Not a member of this group"@)),
        Ok(true) => match rows {
            Err(e) => Err(e),
            Ok(r) => Ok(replying(members_json(r, now))),
        },
    }
}

/// List the members, for a member. `now` is in milliseconds.
pub fn list_members(
    memberships: &Lookup<i64>,
    rows: &Result<Vec<MemberEntry>, String>,
    now: i64,
) -> (res: Result<Outcome, AppError>)
    ensures
        told(res) == members_listed(*memberships, rows_found(*rows), now),
{
    if !is_member(memberships)? {
        return Err(not_found("Not a member of this group"));
    }
    let list = match rows {
        Err(e) => return Err(AppError::Internal(e.clone())),
        Ok(r) => r,
    };
    let mut out: Vec<JsonValue> = Vec::new();
    let mut i: usize = 0;
    while i < list.len()
        invariant
            i <= list@.len(),
            jsons(out@) == list@.take(i as int).map_values(|m: MemberEntry| member_json(m, now)),
        decreases list@.len() - i,
    {
        let ghost before = out@;
        out.push(member_value(&list[i], now));
        proof {
            let j = member_json(list@[i as int], now);
            assert(jsons(out@) =~= jsons(before).push(j));
            assert(list@.take(i + 1).map_values(|m: MemberEntry| member_json(m, now)) =~= jsons(
                before,
            ).push(j));
        }
        i += 1;
    }
    assert(list@.take(list@.len() as int) =~= list@);
    Ok(Outcome::replying(array(out)))
}

/// What the database holds about who acts on whom.
pub struct RankFacts {
    /// The permission bits of who acts.
    pub actor_bits: Lookup<i64>,
    /// The role number of who acts.
    pub actor_role: Lookup<i64>,
    /// How many members have the other's name.
    pub memberships: Lookup<i64>,
    /// The role number of the other.
    pub target_role: Lookup<i64>,
}

/// The questions behind the [`RankFacts`].
pub struct RankQueries {
    pub actor_bits: Query,
    pub actor_role: Query,
    pub memberships: Query,
    pub target_role: Query,
}

/// What to ask about who acts on whom.
pub fn rank_queries(actor: &str, target: &str) -> (res: RankQueries)
    ensures
        res.actor_bits matches Query::Permissions { username: u } && u@ == actor@,
        res.actor_role matches Query::RoleId { username: u } && u@ == actor@,
        res.memberships matches Query::Memberships { username: u } && u@ == target@,
        res.target_role matches Query::RoleId { username: u } && u@ == target@,
{
    RankQueries {
        actor_bits: Query::Permissions { username: actor.to_owned() },
        actor_role: Query::RoleId { username: actor.to_owned() },
        memberships: Query::Memberships { username: target.to_owned() },
        target_role: Query::RoleId { username: target.to_owned() },
    }
}

/// What everyone is told about someone who is gone.
pub open spec fn gone_packet(username: Seq<char>) -> Json {
    obj().with("type"@, Json::Text("group_member_left"@)).with("group_id"@, Json::Int(1)).with(
        "username"@,
        Json::Text(username),
    ).json()
}

fn gone_value(username: &str) -> (res: JsonValue)
    ensures
        res@ == gone_packet(username@),
{
    Fields::new().put_text("type", "group_member_left").put_int("group_id", GROUP).put_text(
        "username",
        username,
    ).done()
}

/// What a user is told who was kicked, or is no longer banned.
pub open spec fn event_packet(event: Seq<char>) -> Json {
    obj().with("type"@, Json::Text(event)).with("group_id"@, Json::Int(1)).json()
}

fn event_value(event: &str) -> (res: JsonValue)
    ensures
        res@ == event_packet(event@),
{
    Fields::new().put_text("type", event).put_int("group_id", GROUP).done()
}

/// What kicking someone leads to. An owner is kicked by another owner only.
pub open spec fn kicked(actor: Seq<char>, target: Seq<char>, facts: RankFacts) -> Result<Effect, Refusal> {
    match permitted(facts.actor_bits, KICK_MEMBERS) {
        Err(e) => Err(e),
        Ok(false) => Err(Refusal::Forbidden("Insufficient permissions"@)),
        Ok(true) => match membership(facts.memberships) {
            Err(e) => Err(e),
            Ok(false) => Err(Refusal::NotFound("Not a member of this group"@)),
            Ok(true) => match owners_guarded(
                facts.target_role,
                facts.actor_role,
                "Cannot kick an owner"@,
            ) {
                Err(e) => Err(e),
                Ok(_) => if actor == target && owner_role(facts.target_role) == Ok::<bool, Refusal>(true) {
                    Err(Refusal::Forbidden("Cannot kick an owner"@))
                } else {
                    Ok(
                        replying(ok_json()).and_change(
                            Change::DeleteMember { username: target },
                        ).and_broadcast(gone_packet(target)).and_tell(target, event_packet("kicked"@)),
                    )
                },
            },
        },
    }
}

/// Kick a member.
pub fn kick_member(actor: &str, target: &str, facts: &RankFacts) -> (res: Result<Outcome, AppError>)
    ensures
        told(res) == kicked(actor@, target@, *facts),
{
    if !has_permission(&facts.actor_bits, Permission { bits: KICK_MEMBERS })? {
        return Err(forbidden("Insufficient permissions"));
    }
    if !is_member(&facts.memberships)? {
        return Err(not_found("Not a member of this group"));
    }
    guard_owners(&facts.target_role, &facts.actor_role, "Cannot kick an owner")?;
    if same(actor, target) && is_owner_equivalent(&facts.target_role)? {
        return Err(forbidden("Cannot kick an owner"));
    }
    Ok(
        Outcome::replying(ok_reply()).and_write(
            Write::DeleteMember { username: target.to_owned() },
        ).and_broadcast(gone_value(target)).and_tell(target, event_value("kicked")),
    )
}

/// What is known about who acts on whom is what the group holds.
pub open spec fn ranks_found(facts: RankFacts, db: GroupDb, actor: Seq<char>, target: Seq<char>) -> bool {
    &&& finds_bits(facts.actor_bits, db, actor)
    &&& finds_role_id(facts.actor_role, db, actor)
    &&& counts(facts.memberships, db.members.contains_key(target))
    &&& finds_role_id(facts.target_role, db, target)
}

/// Kicking removes the one who is kicked and nobody else. It takes the
/// permission to, and an owner is only kicked by another owner, who stays: a group
/// that has an owner still has one afterwards.
pub proof fn kicking_respects_ranks(actor: Seq<char>, target: Seq<char>, facts: RankFacts, db: GroupDb)
    requires
        kicked(actor, target, facts) is Ok,
        ranks_found(facts, db, actor, target),
    ensures
        ({
            let effect = kicked(actor, target, facts)->Ok_0;
            let after = applied(db, effect.changes[0], 0);
            &&& may(db, actor, KICK_MEMBERS)
            &&& db.members.contains_key(target)
            &&& owners(db).contains(target) ==> actor != target && owners(db).contains(actor)
            &&& effect.changes.len() == 1
            &&& after == (GroupDb { members: db.members.remove(target), ..db })
            &&& owners(after) == owners(db).remove(target)
            &&& (exists|u: Seq<char>| owners(db).contains(u)) ==> exists|u: Seq<char>| owners(after).contains(u)
        }),
{
    let effect = kicked(actor, target, facts)->Ok_0;
    let after = applied(db, effect.changes[0], 0);
    assert(owners(after) =~= owners(db).remove(target));
    if owners(db).contains(target) {
        assert(owners(after).contains(actor));
    } else if exists|u: Seq<char>| owners(db).contains(u) {
        let u = choose|u: Seq<char>| owners(db).contains(u);
        assert(owners(after).contains(u));
    }
}

/// Whether someone may ban: either of two permissions will do.
pub open spec fn may_ban(bits: Lookup<i64>) -> Result<bool, Refusal> {
    permitted_any(
        bits,
        Seq::empty().push(Permission { bits: BAN_MEMBERS }).push(Permission { bits: VIEW_BAN_LIST }),
    )
}

fn can_ban(bits: &Lookup<i64>) -> (res: Result<bool, AppError>)
    ensures
        shown(res) == may_ban(*bits),
{
    let wanted = [Permission { bits: BAN_MEMBERS }, Permission { bits: VIEW_BAN_LIST }];
    assert(wanted@ =~= Seq::empty().push(Permission { bits: BAN_MEMBERS }).push(
        Permission { bits: VIEW_BAN_LIST },
    ));
    has_any_permission(bits, &wanted)
}

/// Whether someone may be banned: a member who is an owner only by an owner.
pub open spec fn ban_guarded(facts: RankFacts) -> Result<(), Refusal> {
    match membership(facts.memberships) {
        Err(e) => Err(e),
        Ok(false) => Ok(()),
        Ok(true) => owners_guarded(facts.target_role, facts.actor_role, "Cannot ban an owner"@),
    }
}

/// What banning someone leads to.
pub open spec fn banned(
    actor: Seq<char>,
    target: Seq<char>,
    reason: Option<Seq<char>>,
    facts: RankFacts,
) -> Result<Effect, Refusal> {
    match may_ban(facts.actor_bits) {
        Err(e) => Err(e),
        Ok(false) => Err(Refusal::Forbidden("Insufficient permissions"@)),
        Ok(true) => match ban_guarded(facts) {
            Err(e) => Err(e),
            Ok(_) => Ok(
                replying(ok_json()).and_change(Change::DeleteMember { username: target }).and_change(
                    Change::ReplaceBan { username: target, banned_by: actor, reason },
                ).and_broadcast(gone_packet(target)).and_tell(
                    target,
                    obj().with("type"@, Json::Text("banned"@)).with("group_id"@, Json::Int(1)).with(
                        "reason"@,
                        text_or_null(reason),
                    ).json(),
                ),
            ),
        },
    }
}

/// Ban someone.
pub fn ban_member(actor: &str, target: &str, req: &BanRequest, facts: &RankFacts) -> (res: Result<
    Outcome,
    AppError,
>)
    ensures
        told(res) == banned(actor@, target@, opt_text(req.reason), *facts),
{
    if !can_ban(&facts.actor_bits)? {
        return Err(forbidden("Insufficient permissions"));
    }
    if is_member(&facts.memberships)? {
        guard_owners(&facts.target_role, &facts.actor_role, "Cannot ban an owner")?;
    }
    let packet = Fields::new().put_text("type", "banned").put_int("group_id", GROUP).put(
        "reason",
        text_or_none(&req.reason),
    ).done();
    Ok(
        Outcome::replying(ok_reply()).and_write(
            Write::DeleteMember { username: target.to_owned() },
        ).and_write(
            Write::ReplaceBan {
                username: target.to_owned(),
                banned_by: actor.to_owned(),
                reason: same_option(&req.reason),
            },
        ).and_broadcast(gone_value(target)).and_tell(target, packet),
    )
}

/// What lifting a ban leads to: the user is a member again, if they are known.
pub open spec fn unbanned(
    target: Seq<char>,
    actor_bits: Lookup<i64>,
    session: Lookup<(String, String)>,
) -> Result<Effect, Refusal> {
    match may_ban(actor_bits) {
        Err(e) => Err(e),
        Ok(false) => Err(Refusal::Forbidden("Insufficient permissions"@)),
        Ok(true) => {
            let lifted = replying(ok_json()).and_change(Change::DeleteBan { username: target });
            match session {
                Lookup::Failed(e) => Err(Refusal::Internal(e@)),
                Lookup::Missing => Ok(lifted.and_tell(target, event_packet("unbanned"@))),
                Lookup::Found(s) => Ok(
                    lifted.and_change(
                        Change::RestoreMember {
                            username: target,
                            display_name: s.0@,
                            public_key: s.1@,
                        },
                    ).and_tell(target, event_packet("unbanned"@)),
                ),
            }
        },
    }
}

/// Lift a ban. `session` is the display name and the public key of the user's
/// session.
pub fn unban_member(target: &str, actor_bits: &Lookup<i64>, session: &Lookup<(String, String)>) -> (res:
    Result<Outcome, AppError>)
    ensures
        told(res) == unbanned(target@, *actor_bits, *session),
{
    if !can_ban(actor_bits)? {
        return Err(forbidden("Insufficient permissions"));
    }
    let lifted = Outcome::replying(ok_reply()).and_write(Write::DeleteBan { username: target.to_owned() });
    match session {
        Lookup::Failed(e) => Err(AppError::Internal(e.clone())),
        Lookup::Missing => Ok(lifted.and_tell(target, event_value("unbanned"))),
        Lookup::Found(s) => Ok(
            lifted.and_write(
                Write::RestoreMember {
                    username: target.to_owned(),
                    display_name: s.0.clone(),
                    public_key: s.1.clone(),
                },
            ).and_tell(target, event_value("unbanned")),
        ),
    }
}

proof fn two_changes(db: GroupDb, s: Seq<Change>)
    requires
        1 <= s.len() <= 2,
    ensures
        s.len() == 1 ==> applied_all(db, s) == applied(db, s[0], 0),
        s.len() == 2 ==> applied_all(db, s) == applied(applied(db, s[0], 0), s[1], 0),
{
    reveal_with_fuel(applied_all, 3);
}

/// Whoever is banned is no member any more and stays out: they can neither join
/// nor register. It takes one of two permissions, and an owner is only banned by
/// an owner.
pub proof fn the_banned_stay_out(
    actor: Seq<char>,
    target: Seq<char>,
    reason: Option<Seq<char>>,
    facts: RankFacts,
    db: GroupDb,
    asked: bool,
    max_joins_per_minute: u32,
    join: JoinFacts,
    who: Identity,
    key: Option<Seq<u8>>,
    password_fits: bool,
    register: RegisterFacts,
    default_role: Seq<char>,
    token: Seq<char>,
    token_hash: Seq<char>,
)
    requires
        banned(actor, target, reason, facts) is Ok,
        ranks_found(facts, db, actor, target),
        join.bans matches Lookup::Found(n) && (n > 0 <==> applied_all(
            db,
            banned(actor, target, reason, facts)->Ok_0.changes,
        ).bans.contains_key(target)),
        who.username == target,
        true_of(register, applied_all(db, banned(actor, target, reason, facts)->Ok_0.changes), target),
    ensures
        ({
            let after = applied_all(db, banned(actor, target, reason, facts)->Ok_0.changes);
            &&& after.bans.contains_key(target)
            &&& !after.members.contains_key(target)
            &&& after.members == db.members.remove(target)
            &&& after.bans.remove(target) == db.bans.remove(target)
            &&& joined(asked, max_joins_per_minute, target, join, default_role) is Err
            &&& registered(who, key, password_fits, register, default_role, token, token_hash) is Err
        }),
        may(db, actor, BAN_MEMBERS) || may(db, actor, VIEW_BAN_LIST),
        owners(db).contains(target) ==> owners(db).contains(actor),
{
    let effect = banned(actor, target, reason, facts)->Ok_0;
    let after = applied_all(db, effect.changes);
    two_changes(db, effect.changes);
    assert(after.bans.remove(target) =~= db.bans.remove(target));
}

/// Lifting a ban lets the user in again: they are not banned, and a member with
/// the Member role if they are registered.
pub proof fn lifting_a_ban_lets_in(
    target: Seq<char>,
    actor_bits: Lookup<i64>,
    session: Lookup<(String, String)>,
    db: GroupDb,
)
    requires
        unbanned(target, actor_bits, session) is Ok,
    ensures
        ({
            let after = applied_all(db, unbanned(target, actor_bits, session)->Ok_0.changes);
            &&& after.bans == db.bans.remove(target)
            &&& after.members.remove(target) == db.members.remove(target)
            &&& session matches Lookup::Found(s) ==> after.members.contains_key(target)
                && after.members[target] == (MemberRow {
                display_name: s.0@,
                public_key: s.1@,
                role: "member"@,
                role_id: Some(3),
            })
        }),
{
    let effect = unbanned(target, actor_bits, session)->Ok_0;
    let after = applied_all(db, effect.changes);
    two_changes(db, effect.changes);
    assert(after.members.remove(target) =~= db.members.remove(target));
}

/// A ban in the list of bans.
pub open spec fn ban_json(b: Ban) -> Json {
    obj().with("username"@, Json::Text(b.username@)).with("banned_by"@, Json::Text(b.banned_by@)).with(
        "reason"@,
        text_or_null(opt_text(b.reason)),
    ).with("banned_at"@, Json::Text(b.banned_at@)).json()
}

fn ban_value(b: &Ban) -> (res: JsonValue)
    ensures
        res@ == ban_json(*b),
{
    Fields::new().put_text("username", b.username.as_str()).put_text("banned_by", b.banned_by.as_str()).put(
        "reason",
        text_or_none(&b.reason),
    ).put_text("banned_at", b.banned_at.as_str()).done()
}

/// The list of bans.
fn ban_list(rows: &Vec<Ban>) -> (res: JsonValue)
    ensures
        res@ == Json::Array(rows@.map_values(|r: Ban| ban_json(r))),
{
    let mut out: Vec<JsonValue> = Vec::new();
    let mut i: usize = 0;
    while i < rows.len()
        invariant
            i <= rows@.len(),
            jsons(out@) == rows@.take(i as int).map_values(|r: Ban| ban_json(r)),
        decreases rows@.len() - i,
    {
        let ghost before = out@;
        out.push(ban_value(&rows[i]));
        proof {
            assert(jsons(out@) =~= jsons(before).push(ban_json(rows@[i as int])));
            assert(rows@.take(i + 1).map_values(|r: Ban| ban_json(r)) =~= rows@.take(
                i as int,
            ).map_values(|r: Ban| ban_json(r)).push(ban_json(rows@[i as int])));
        }
        i += 1;
    }
    assert(rows@.take(rows@.len() as int) =~= rows@);
    assert(jsons(out@) == rows@.map_values(|r: Ban| ban_json(r)));
    array(out)
}

/// What asking for the bans leads to.
pub open spec fn bans_listed(bits: Lookup<i64>, rows: Result<Seq<Ban>, Refusal>) -> Result<Effect, Refusal> {
    match permitted(bits, VIEW_BAN_LIST) {
        Err(e) => Err(e),
        Ok(false) => Err(Refusal::Forbidden("Insufficient permissions"@)),
        Ok(true) => match rows {
            Err(e) => Err(e),
            Ok(r) => Ok(replying(Json::Array(r.map_values(|b: Ban| ban_json(b))))),
        },
    }
}

/// List the bans.
pub fn list_bans(bits: &Lookup<i64>, rows: &Result<Vec<Ban>, String>) -> (res: Result<Outcome, AppError>)
    ensures
        told(res) == bans_listed(*bits, rows_found(*rows)),
{
    if !has_permission(bits, Permission { bits: VIEW_BAN_LIST })? {
        return Err(forbidden("Insufficient permissions"));
    }
    match rows {
        Err(e) => Err(AppError::Internal(e.clone())),
        Ok(r) => Ok(Outcome::replying(ban_list(r))),
    }
}

/// What the database holds about giving someone a role.
pub struct SetRoleFacts {
    pub ranks: RankFacts,
    /// The name, the color and the permission bits of the role.
    pub role: Lookup<(String, String, i64)>,
    /// How many members hold the system Owner role.
    pub owners: Lookup<i64>,
}

/// The questions behind the [`SetRoleFacts`].
pub struct SetRoleQueries {
    pub ranks: RankQueries,
    pub role: Query,
    pub owners: Query,
}

/// What to ask about giving someone a role.
pub fn set_role_queries(actor: &str, target: &str, req: &SetRoleRequest) -> (res: SetRoleQueries)
    ensures
        res.ranks.actor_bits matches Query::Permissions { username: u } && u@ == actor@,
        res.ranks.actor_role matches Query::RoleId { username: u } && u@ == actor@,
        res.ranks.memberships matches Query::Memberships { username: u } && u@ == target@,
        res.ranks.target_role matches Query::RoleId { username: u } && u@ == target@,
        res.role == (Query::RoleOf { role_id: req.role_id }),
        res.owners == Query::Owners,
{
    SetRoleQueries {
        ranks: rank_queries(actor, target),
        role: Query::RoleOf { role_id: req.role_id },
        owners: Query::Owners,
    }
}

/// What a user is told whose role is another one.
pub open spec fn role_changed_packet(role_id: i64, name: Seq<char>, color: Seq<char>, permissions: Json) -> Json {
    obj().with("type"@, Json::Text("role_changed"@)).with("group_id"@, Json::Int(1)).with(
        "role_id"@,
        Json::Int(role_id as int),
    ).with("role_name"@, Json::Text(name)).with("role_color"@, Json::Text(color)).with(
        "permissions"@,
        permissions,
    ).json()
}

/// What a user is told whose role is another one.
pub fn role_changed_value(role_id: i64, name: &str, color: &str, permissions: JsonValue) -> (res: JsonValue)
    ensures
        res@ == role_changed_packet(role_id, name@, color@, permissions@),
{
    Fields::new().put_text("type", "role_changed").put_int("group_id", GROUP).put_int("role_id", role_id).put_text(
        "role_name",
        name,
    ).put_text("role_color", color).put("permissions", permissions).done()
}

/// What everyone is told about a member whose role is another one.
pub open spec fn member_role_packet(username: Seq<char>, name: Seq<char>, color: Seq<char>) -> Json {
    obj().with("type"@, Json::Text("member_role_updated"@)).with("username"@, Json::Text(username)).with(
        "role_name"@,
        Json::Text(name),
    ).with("role_color"@, Json::Text(color)).json()
}

/// What everyone is told about a member whose role is another one.
pub fn member_role_value(username: &str, name: &str, color: &str) -> (res: JsonValue)
    ensures
        res@ == member_role_packet(username@, name@, color@),
{
    Fields::new().put_text("type", "member_role_updated").put_text("username", username).put_text(
        "role_name",
        name,
    ).put_text("role_color", color).done()
}

/// Who may be given which role: only an owner makes another owner, and the last
/// owner stays one.
pub open spec fn role_guarded(role_id: i64, facts: SetRoleFacts) -> Result<(), Refusal> {
    let may_promote = if role_id == OWNER_ROLE {
        match owner_role(facts.ranks.actor_role) {
            Err(e) => Err(e),
            Ok(true) => Ok(()),
            Ok(false) => Err(Refusal::Forbidden("Only owners can promote a member to Owner"@)),
        }
    } else {
        Ok(())
    };
    match may_promote {
        Err(e) => Err(e),
        Ok(_) => match owner_role(facts.ranks.target_role) {
            Err(e) => Err(e),
            Ok(is_owner) => if is_owner && role_id != OWNER_ROLE {
                match owner_count(facts.owners) {
                    Err(e) => Err(e),
                    Ok(n) => if n <= 1 {
                        Err(Refusal::BadRequest("Cannot demote the last owner"@))
                    } else {
                        Ok(())
                    },
                }
            } else {
                Ok(())
            },
        },
    }
}

/// What giving someone a role leads to; `lower` is the role's name in lowercase.
pub open spec fn role_set(target: Seq<char>, role_id: i64, facts: SetRoleFacts, lower: Seq<char>) -> Result<
    Effect,
    Refusal,
> {
    match permitted(facts.ranks.actor_bits, MANAGE_ROLES) {
        Err(e) => Err(e),
        Ok(false) => Err(Refusal::Forbidden("Insufficient permissions"@)),
        Ok(true) => match facts.role {
            Lookup::Failed(e) => Err(Refusal::Internal(e@)),
            Lookup::Missing => Err(Refusal::BadRequest("Unknown role_id"@)),
            Lookup::Found(role) => match membership(facts.ranks.memberships) {
                Err(e) => Err(e),
                Ok(false) => Err(Refusal::NotFound("User is not a member of this group"@)),
                Ok(true) => match role_guarded(role_id, facts) {
                    Err(e) => Err(e),
                    Ok(_) => Ok(
                        replying(
                            obj().with("ok"@, Json::Bool(true)).with(
                                "role_id"@,
                                Json::Int(role_id as int),
                            ).with("role_name"@, Json::Text(role.0@)).with(
                                "role_color"@,
                                Json::Text(role.1@),
                            ).json(),
                        ).and_change(
                            Change::SetMemberRole { role_id, role: lower, username: target },
                        ).and_tell(
                            target,
                            role_changed_packet(
                                role_id,
                                role.0@,
                                role.1@,
                                names_json(role.2 & ALL_BITS),
                            ),
                        ).and_broadcast(member_role_packet(target, role.0@, role.1@)).or_refused(
                            Refusal::NotFound("User is not a member of this group"@),
                        ),
                    ),
                },
            },
        },
    }
}

fn guard_role(role_id: i64, facts: &SetRoleFacts) -> (res: Result<(), AppError>)
    ensures
        shown(res) == role_guarded(role_id, *facts),
{
    if role_id == OWNER_ROLE && !is_owner_equivalent(&facts.ranks.actor_role)? {
        return Err(forbidden("Only owners can promote a member to Owner"));
    }
    if is_owner_equivalent(&facts.ranks.target_role)? && role_id != OWNER_ROLE {
        if count_owner_equivalent_members(&facts.owners)? <= 1 {
            return Err(bad_request("Cannot demote the last owner"));
        }
    }
    Ok(())
}

/// Give a member a role whose name in lowercase is known.
pub fn set_role_named(target: &str, req: &SetRoleRequest, facts: &SetRoleFacts, lower: &str) -> (res: Result<
    Outcome,
    AppError,
>)
    ensures
        told(res) == role_set(target@, req.role_id, *facts, lower@),
{
    let role_id: i64 = req.role_id;
    if !has_permission(&facts.ranks.actor_bits, Permission { bits: MANAGE_ROLES })? {
        return Err(forbidden("Insufficient permissions"));
    }
    let role = match &facts.role {
        Lookup::Failed(e) => return Err(AppError::Internal(e.clone())),
        Lookup::Missing => return Err(bad_request("Unknown role_id")),
        Lookup::Found(r) => r,
    };
    if !is_member(&facts.ranks.memberships)? {
        return Err(not_found("User is not a member of this group"));
    }
    guard_role(role_id, facts)?;
    let name = role.0.as_str();
    let color = role.1.as_str();
    let permissions = names_value(Permission::from_bits_truncate(role.2));
    let reply = Fields::new().put_bool("ok", true).put_int("role_id", role_id).put_text(
        "role_name",
        name,
    ).put_text("role_color", color).done();
    Ok(
        Outcome::replying(reply).and_write(
            Write::SetMemberRole { role_id, role: lower.to_owned(), username: target.to_owned() },
        ).and_tell(target, role_changed_value(role_id, name, color, permissions)).and_broadcast(
            member_role_value(target, name, color),
        ).or_refused(not_found("User is not a member of this group")),
    )
}

/// The name of a role in lowercase, or nothing where the role is not known.
pub open spec fn lower_name(role: Lookup<(String, String, i64)>) -> Seq<char> {
    match role {
        Lookup::Found(r) => lowercase(r.0@),
        _ => Seq::empty(),
    }
}

/// Give a member a role. Its name is kept in lowercase.
pub fn set_role(target: &str, req: &SetRoleRequest, facts: &SetRoleFacts) -> (res: Result<
    Outcome,
    AppError,
>)
    ensures
        told(res) == role_set(target@, req.role_id, *facts, lower_name(facts.role)),
{
    let lower = match &facts.role {
        Lookup::Found(r) => to_lowercase(r.0.as_str()),
        _ => String::new(),
    };
    set_role_named(target, req, facts, lower.as_str())
}

/// Giving someone a role changes that member's role alone. Only an owner makes
/// an owner, and a group that has an owner still has one afterwards.
pub proof fn there_is_always_an_owner(
    actor: Seq<char>,
    target: Seq<char>,
    role_id: i64,
    facts: SetRoleFacts,
    lower: Seq<char>,
    db: GroupDb,
)
    requires
        role_set(target, role_id, facts, lower) is Ok,
        db.members.dom().finite(),
        owners(db).len() > 0,
        ranks_found(facts.ranks, db, actor, target),
        facts.owners matches Lookup::Found(n) && n == owners(db).len(),
    ensures
        ({
            let effect = role_set(target, role_id, facts, lower)->Ok_0;
            let after = applied(db, effect.changes[0], 0);
            &&& effect.changes.len() == 1
            &&& role_id == OWNER_ROLE ==> owners(db).contains(actor)
            &&& may(db, actor, MANAGE_ROLES)
            &&& owners(after).len() > 0
            &&& after == (GroupDb {
                members: db.members.insert(
                    target,
                    MemberRow { role_id: Some(role_id), role: lower, ..db.members[target] },
                ),
                ..db
            })
        }),
{
    let effect = role_set(target, role_id, facts, lower)->Ok_0;
    let after = applied(db, effect.changes[0], 0);
    if role_id == OWNER_ROLE {
        assert(owners(after) =~= owners(db).insert(target));
    } else {
        assert(owners(after) =~= owners(db).remove(target));
    }
}

/// A user who is banned is told by whom, why and since when, and anyone else that
/// they are not.
pub proof fn a_ban_is_told_to_the_banned(ban: Lookup<Ban>)
    ensures
        ban_shown(ban) is Ok <==> ban !is Failed,
        ban_shown(ban) matches Ok(effect) ==> {
            &&& effect.changes.len() == 0
            &&& effect.notices.len() == 0
            &&& ban is Missing ==> member_of(effect.reply, "banned"@) == Some(Json::Bool(false))
            &&& ban matches Lookup::Found(b) ==> {
                &&& member_of(effect.reply, "banned"@) == Some(Json::Bool(true))
                &&& member_of(effect.reply, "banned_by"@) == Some(Json::Text(b.banned_by@))
                &&& member_of(effect.reply, "banned_at"@) == Some(Json::Text(b.banned_at@))
                &&& member_of(effect.reply, "reason"@) == Some(
                    match b.reason {
                        Some(s) => Json::Text(s@),
                        None => Json::Null,
                    },
                )
            }
        },
{
    broadcast use lookup_of_push;

    reveal_strlit("banned");
    reveal_strlit("banned_by");
    reveal_strlit("banned_at");
    reveal_strlit("reason");
}

/// A member is told every member, in the order in which they were read, each with
/// the columns of their row and whether they are muted.
pub proof fn every_member_is_told(
    memberships: Lookup<i64>,
    rows: Result<Seq<MemberEntry>, Refusal>,
    now: i64,
    i: int,
)
    ensures
        members_listed(memberships, rows, now) is Ok <==> some_found(memberships) && rows is Ok,
        memberships matches Lookup::Found(n) && n <= 0 ==> members_listed(memberships, rows, now) matches Err(
            Refusal::NotFound(_),
        ),
        members_listed(memberships, rows, now) matches Ok(effect) ==> {
            let told = effect.reply->Array_0;
            let m = rows->Ok_0[i];
            &&& effect.changes.len() == 0
            &&& effect.notices.len() == 0
            &&& effect.reply is Array
            &&& told.len() == rows->Ok_0.len()
            &&& 0 <= i < told.len() ==> {
                &&& member_of(told[i], "username"@) == Some(Json::Text(m.username@))
                &&& member_of(told[i], "display_name"@) == Some(Json::Text(m.display_name@))
                &&& member_of(told[i], "role"@) == Some(Json::Text(m.role@))
                &&& member_of(told[i], "joined_at"@) == Some(Json::Text(m.joined_at@))
                &&& member_of(told[i], "role_id"@) == Some(
                    match m.role_id {
                        Some(id) => Json::Int(id as int),
                        None => Json::Null,
                    },
                )
                &&& member_of(told[i], "role_name"@) == Some(
                    match m.role_name {
                        Some(s) => Json::Text(s@),
                        None => Json::Null,
                    },
                )
                &&& member_of(told[i], "role_color"@) == Some(
                    match m.role_color {
                        Some(s) => Json::Text(s@),
                        None => Json::Null,
                    },
                )
                &&& member_of(told[i], "is_muted"@) == Some(
                    Json::Bool(m.muted_until is Some && m.muted_until->Some_0 > now),
                )
            }
        },
{
    broadcast use lookup_of_push;

    reveal_strlit("username");
    reveal_strlit("display_name");
    reveal_strlit("role");
    reveal_strlit("joined_at");
    reveal_strlit("role_id");
    reveal_strlit("role_name");
    reveal_strlit("role_color");
    reveal_strlit("is_muted");
}

/// Someone is kicked if and only if whoever acts may kick members, the other is a
/// member and, if an owner, whoever acts is another owner. The others are told who
/// is gone, and whoever was kicked that they were.
pub proof fn who_may_kick(actor: Seq<char>, target: Seq<char>, facts: RankFacts)
    ensures
        kicked(actor, target, facts) is Ok <==> {
            &&& granted(facts.actor_bits, KICK_MEMBERS)
            &&& some_found(facts.memberships)
            &&& facts.target_role !is Failed
            &&& facts.target_role == Lookup::Found(1i64) ==> facts.actor_role == Lookup::Found(1i64) && actor
                != target
        },
        facts.actor_bits !is Failed && !granted(facts.actor_bits, KICK_MEMBERS) ==> kicked(actor, target, facts)
            matches Err(Refusal::Forbidden(_)),
        kicked(actor, target, facts) matches Ok(effect) ==> {
            &&& member_of(effect.reply, "ok"@) == Some(Json::Bool(true))
            &&& effect.notices.len() == 2
            &&& effect.notices[0] matches Packet::Broadcast(told) && {
                &&& member_of(told, "type"@) == Some(Json::Text("group_member_left"@))
                &&& member_of(told, "group_id"@) == Some(Json::Int(1))
                &&& member_of(told, "username"@) == Some(Json::Text(target))
            }
            &&& effect.notices[1] matches Packet::ToUser(whom, said) && {
                &&& whom == target
                &&& member_of(said, "type"@) == Some(Json::Text("kicked"@))
                &&& member_of(said, "group_id"@) == Some(Json::Int(1))
            }
        },
{
    broadcast use lookup_of_push;

    reveal_strlit("ok");
    reveal_strlit("type");
    reveal_strlit("group_id");
    reveal_strlit("username");
    permissions_are_those_of_the_role(
        facts.actor_bits,
        KICK_MEMBERS,
        Permission { bits: KICK_MEMBERS },
        Permission { bits: KICK_MEMBERS },
    );
    permissions_are_those_of_the_role(
        facts.target_role,
        KICK_MEMBERS,
        Permission { bits: KICK_MEMBERS },
        Permission { bits: KICK_MEMBERS },
    );
    permissions_are_those_of_the_role(
        facts.actor_role,
        KICK_MEMBERS,
        Permission { bits: KICK_MEMBERS },
        Permission { bits: KICK_MEMBERS },
    );
}

/// Someone is banned if and only if whoever acts may ban members or view the bans
/// and, if the other is a member and an owner, is an owner too. The ban says who
/// banned them and why; a member is one no more. The others are told who is gone,
/// and whoever was banned why.
pub proof fn a_ban_is_stored_and_told(
    actor: Seq<char>,
    target: Seq<char>,
    reason: Option<Seq<char>>,
    facts: RankFacts,
    db: GroupDb,
)
    ensures
        banned(actor, target, reason, facts) is Ok <==> {
            &&& granted(facts.actor_bits, BAN_MEMBERS) || granted(facts.actor_bits, VIEW_BAN_LIST)
            &&& facts.memberships is Found
            &&& some_found(facts.memberships) ==> facts.target_role !is Failed && (facts.target_role
                == Lookup::Found(1i64) ==> facts.actor_role == Lookup::Found(1i64))
        },
        banned(actor, target, reason, facts) matches Ok(effect) ==> {
            &&& applied_all(db, effect.changes) == (GroupDb {
                members: db.members.remove(target),
                bans: db.bans.insert(target, BanRow { banned_by: actor, reason }),
                ..db
            })
            &&& member_of(effect.reply, "ok"@) == Some(Json::Bool(true))
            &&& effect.notices.len() == 2
            &&& effect.notices[0] matches Packet::Broadcast(told) && {
                &&& member_of(told, "type"@) == Some(Json::Text("group_member_left"@))
                &&& member_of(told, "group_id"@) == Some(Json::Int(1))
                &&& member_of(told, "username"@) == Some(Json::Text(target))
            }
            &&& effect.notices[1] matches Packet::ToUser(whom, said) && {
                &&& whom == target
                &&& member_of(said, "type"@) == Some(Json::Text("banned"@))
                &&& member_of(said, "group_id"@) == Some(Json::Int(1))
                &&& member_of(said, "reason"@) == Some(
                    match reason {
                        Some(s) => Json::Text(s),
                        None => Json::Null,
                    },
                )
            }
        },
{
    broadcast use lookup_of_push;

    reveal_strlit("ok");
    reveal_strlit("type");
    reveal_strlit("group_id");
    reveal_strlit("username");
    reveal_strlit("reason");
    permissions_are_those_of_the_role(
        facts.actor_bits,
        BAN_MEMBERS,
        Permission { bits: BAN_MEMBERS },
        Permission { bits: VIEW_BAN_LIST },
    );
    if let Ok(effect) = banned(actor, target, reason, facts) {
        two_changes(db, effect.changes);
    }
}

/// A ban is lifted if and only if whoever acts may ban members or view the bans
/// and it is known whether the other is registered. Someone who is not registered
/// becomes no member. Whoever was banned is told.
pub proof fn who_may_lift_a_ban(
    target: Seq<char>,
    actor_bits: Lookup<i64>,
    session: Lookup<(String, String)>,
    db: GroupDb,
)
    ensures
        unbanned(target, actor_bits, session) is Ok <==> session !is Failed && (granted(actor_bits, BAN_MEMBERS)
            || granted(actor_bits, VIEW_BAN_LIST)),
        unbanned(target, actor_bits, session) matches Ok(effect) ==> {
            let after = applied_all(db, effect.changes);
            &&& session is Missing ==> after.members == db.members
            &&& after == (GroupDb { bans: db.bans.remove(target), members: after.members, ..db })
            &&& member_of(effect.reply, "ok"@) == Some(Json::Bool(true))
            &&& effect.notices.len() == 1
            &&& effect.notices[0] matches Packet::ToUser(whom, said) && {
                &&& whom == target
                &&& member_of(said, "type"@) == Some(Json::Text("unbanned"@))
                &&& member_of(said, "group_id"@) == Some(Json::Int(1))
            }
        },
{
    broadcast use lookup_of_push;

    reveal_strlit("ok");
    reveal_strlit("type");
    reveal_strlit("group_id");
    permissions_are_those_of_the_role(
        actor_bits,
        BAN_MEMBERS,
        Permission { bits: BAN_MEMBERS },
        Permission { bits: VIEW_BAN_LIST },
    );
    if let Ok(effect) = unbanned(target, actor_bits, session) {
        two_changes(db, effect.changes);
    }
}

/// Whoever may view the bans is told every one of them, in the order in which they
/// were read, with the columns of its row.
pub proof fn every_ban_is_told(bits: Lookup<i64>, rows: Result<Seq<Ban>, Refusal>, i: int)
    ensures
        bans_listed(bits, rows) is Ok <==> granted(bits, VIEW_BAN_LIST) && rows is Ok,
        bits !is Failed && !granted(bits, VIEW_BAN_LIST) ==> bans_listed(bits, rows) matches Err(
            Refusal::Forbidden(_),
        ),
        bans_listed(bits, rows) matches Ok(effect) ==> {
            let told = effect.reply->Array_0;
            let b = rows->Ok_0[i];
            &&& effect.changes.len() == 0
            &&& effect.notices.len() == 0
            &&& effect.reply is Array
            &&& told.len() == rows->Ok_0.len()
            &&& 0 <= i < told.len() ==> {
                &&& member_of(told[i], "username"@) == Some(Json::Text(b.username@))
                &&& member_of(told[i], "banned_by"@) == Some(Json::Text(b.banned_by@))
                &&& member_of(told[i], "banned_at"@) == Some(Json::Text(b.banned_at@))
                &&& member_of(told[i], "reason"@) == Some(
                    match b.reason {
                        Some(s) => Json::Text(s@),
                        None => Json::Null,
                    },
                )
            }
        },
{
    broadcast use lookup_of_push;

    reveal_strlit("username");
    reveal_strlit("banned_by");
    reveal_strlit("banned_at");
    reveal_strlit("reason");
}

/// What is told about a role that someone has now: its number, name, color and
/// permissions to that user, and its name and color to everyone.
pub proof fn a_role_is_told_as_it_is(
    role_id: i64,
    username: Seq<char>,
    name: Seq<char>,
    color: Seq<char>,
    permissions: Json,
)
    ensures
        ({
            let said = role_changed_packet(role_id, name, color, permissions);
            &&& member_of(said, "type"@) == Some(Json::Text("role_changed"@))
            &&& member_of(said, "group_id"@) == Some(Json::Int(1))
            &&& member_of(said, "role_id"@) == Some(Json::Int(role_id as int))
            &&& member_of(said, "role_name"@) == Some(Json::Text(name))
            &&& member_of(said, "role_color"@) == Some(Json::Text(color))
            &&& member_of(said, "permissions"@) == Some(permissions)
        }),
        ({
            let told = member_role_packet(username, name, color);
            &&& member_of(told, "type"@) == Some(Json::Text("member_role_updated"@))
            &&& member_of(told, "username"@) == Some(Json::Text(username))
            &&& member_of(told, "role_name"@) == Some(Json::Text(name))
            &&& member_of(told, "role_color"@) == Some(Json::Text(color))
        }),
{
    broadcast use lookup_of_push;

    reveal_strlit("type");
    reveal_strlit("group_id");
    reveal_strlit("role_id");
    reveal_strlit("role_name");
    reveal_strlit("role_color");
    reveal_strlit("permissions");
    reveal_strlit("username");
}

/// A role is given if and only if whoever acts may manage roles and is an owner if
/// the role is the Owner role, the role is there, the other is a member, and no
/// last owner gets another role. The member's row gets the number of the role and
/// its name in lowercase; the role is told to whoever gave it, to whoever got it
/// and to everyone.
pub proof fn a_role_is_given_and_told(target: Seq<char>, req: SetRoleRequest, facts: SetRoleFacts, db: GroupDb)
    ensures
        ({
            let res = role_set(target, req.role_id, facts, lower_name(facts.role));
            let owner = Lookup::Found(1i64);
            &&& res is Ok <==> {
                &&& granted(facts.ranks.actor_bits, MANAGE_ROLES)
                &&& facts.role is Found
                &&& some_found(facts.ranks.memberships)
                &&& req.role_id == 1 ==> facts.ranks.actor_role == owner
                &&& facts.ranks.target_role !is Failed
                &&& facts.ranks.target_role == owner && req.role_id != 1 ==> facts.owners is Found
                    && facts.owners->Found_0 > 1
            }
            &&& res matches Ok(effect) ==> {
                let role = facts.role->Found_0;
                &&& effect.changes.len() == 1
                &&& db.members.contains_key(target) ==> applied(db, effect.changes[0], 0) == (GroupDb {
                    members: db.members.insert(
                        target,
                        MemberRow {
                            role_id: Some(req.role_id),
                            role: lowercase(role.0@),
                            ..db.members[target]
                        },
                    ),
                    ..db
                })
                &&& effect.unless_changed matches Some(Refusal::NotFound(_))
                &&& member_of(effect.reply, "ok"@) == Some(Json::Bool(true))
                &&& member_of(effect.reply, "role_id"@) == Some(Json::Int(req.role_id as int))
                &&& member_of(effect.reply, "role_name"@) == Some(Json::Text(role.0@))
                &&& member_of(effect.reply, "role_color"@) == Some(Json::Text(role.1@))
                &&& effect.notices.len() == 2
                &&& effect.notices[0] matches Packet::ToUser(whom, said) && {
                    &&& whom == target
                    &&& member_of(said, "type"@) == Some(Json::Text("role_changed"@))
                    &&& member_of(said, "role_id"@) == Some(Json::Int(req.role_id as int))
                    &&& member_of(said, "role_name"@) == Some(Json::Text(role.0@))
                    &&& member_of(said, "role_color"@) == Some(Json::Text(role.1@))
                    &&& member_of(said, "permissions"@) == Some(names_json(role.2 & ALL_BITS))
                }
                &&& effect.notices[1] matches Packet::Broadcast(told) && {
                    &&& member_of(told, "type"@) == Some(Json::Text("member_role_updated"@))
                    &&& member_of(told, "username"@) == Some(Json::Text(target))
                    &&& member_of(told, "role_name"@) == Some(Json::Text(role.0@))
                    &&& member_of(told, "role_color"@) == Some(Json::Text(role.1@))
                }
            }
        }),
{
    broadcast use lookup_of_push;

    reveal_strlit("ok");
    reveal_strlit("type");
    reveal_strlit("group_id");
    reveal_strlit("role_id");
    reveal_strlit("role_name");
    reveal_strlit("role_color");
    reveal_strlit("permissions");
    reveal_strlit("username");
}

/// What is asked about who acts on whom is what the one may do and is, and whether
/// and as what the other is a member.
pub proof fn acting_asks_about_both(
    actor: &str,
    target: &str,
    res: RankQueries,
)
    requires
        call_ensures(rank_queries, (actor, target), res),
    ensures
        asks(
            res.actor_bits,
            "SELECT r.permissions FROM members m JOIN roles r ON r.id = m.role_id WHERE m.username = ?1"@,
            seq![Param::Text(actor@)],
        ),
        asks(
            res.actor_role,
            "SELECT role_id FROM members WHERE username = ?1"@,
            seq![Param::Text(actor@)],
        ),
        asks(
            res.memberships,
            "SELECT COUNT(*) FROM members WHERE username = ?1"@,
            seq![Param::Text(target@)],
        ),
        asks(
            res.target_role,
            "SELECT role_id FROM members WHERE username = ?1"@,
            seq![Param::Text(target@)],
        ),
{
}

/// What is asked about giving someone a role is asked about both users, that role and
/// the owners.
pub proof fn giving_a_role_asks_about_it(
    actor: &str,
    target: &str,
    req: SetRoleRequest,
    res: SetRoleQueries,
)
    requires
        call_ensures(set_role_queries, (actor, target, &req), res),
    ensures
        asks(
            res.ranks.actor_bits,
            "SELECT r.permissions FROM members m JOIN roles r ON r.id = m.role_id WHERE m.username = ?1"@,
            seq![Param::Text(actor@)],
        ),
        asks(
            res.ranks.actor_role,
            "SELECT role_id FROM members WHERE username = ?1"@,
            seq![Param::Text(actor@)],
        ),
        asks(
            res.ranks.memberships,
            "SELECT COUNT(*) FROM members WHERE username = ?1"@,
            seq![Param::Text(target@)],
        ),
        asks(
            res.ranks.target_role,
            "SELECT role_id FROM members WHERE username = ?1"@,
            seq![Param::Text(target@)],
        ),
        asks(
            res.role,
            "SELECT name, color, permissions FROM roles WHERE id = ?1"@,
            seq![Param::Int(req.role_id)],
        ),
        asks(
            res.owners,
            "SELECT COUNT(*) FROM members WHERE role_id = 1"@,
            Seq::empty(),
        ),
{
}

/// A ban gives the reason that the request gives, if it gives one.
pub proof fn a_ban_gives_the_reason(
    actor: &str,
    target: &str,
    req: BanRequest,
    facts: RankFacts,
    res: Result<Outcome, AppError>,
    db: GroupDb,
)
    requires
        call_ensures(ban_member, (actor, target, &req, &facts), res),
        res is Ok,
    ensures
        applied_all(db, res->Ok_0@.changes).bans == db.bans.insert(
            target@,
            BanRow {
                banned_by: actor@,
                reason: match req.reason {
                    Some(r) => Some(r@),
                    None => None,
                },
            },
        ),
{
    two_changes(db, res->Ok_0@.changes);
}

/// How the requests about members are refused: without the permission, about
/// someone who is no member, by whoever is no owner, for a role that is not there,
/// and to the last owner.
pub proof fn refusals_about_members(
    actor: Seq<char>,
    target: Seq<char>,
    reason: Option<Seq<char>>,
    role_id: i64,
    facts: SetRoleFacts,
    lower: Seq<char>,
    session: Lookup<(String, String)>,
)
    ensures
        ({
            let ranks = facts.ranks;
            let owner = Lookup::Found(1i64);
            let out = ranks.memberships matches Lookup::Found(n) && n <= 0;
            let kick = kicked(actor, target, ranks);
            let may_kick = granted(ranks.actor_bits, KICK_MEMBERS);
            let ban = banned(actor, target, reason, ranks);
            let may_ban = granted(ranks.actor_bits, BAN_MEMBERS) || granted(ranks.actor_bits, VIEW_BAN_LIST);
            let lift = unbanned(target, ranks.actor_bits, session);
            let give = role_set(target, role_id, facts, lower);
            let may_give = granted(ranks.actor_bits, MANAGE_ROLES);
            let known = may_give && facts.role is Found && some_found(ranks.memberships);
            &&& may_kick && out ==> (kick matches Err(Refusal::NotFound(_)))
            &&& may_kick && some_found(ranks.memberships) && ranks.target_role == owner && ranks.actor_role !is Failed
                && (ranks.actor_role != owner || actor == target) ==> (kick matches Err(Refusal::Forbidden(_)))
            &&& ranks.actor_bits !is Failed && !may_ban ==> (ban matches Err(Refusal::Forbidden(_))) && (
            lift matches Err(Refusal::Forbidden(_)))
            &&& may_ban && some_found(ranks.memberships) && ranks.target_role == owner && ranks.actor_role !is Failed
                && ranks.actor_role != owner ==> (ban matches Err(Refusal::Forbidden(_)))
            &&& ranks.actor_bits !is Failed && !may_give ==> (give matches Err(Refusal::Forbidden(_)))
            &&& may_give && facts.role is Missing ==> (give matches Err(Refusal::BadRequest(_)))
            &&& may_give && facts.role is Found && out ==> (give matches Err(Refusal::NotFound(_)))
            &&& known && role_id == 1 && ranks.actor_role !is Failed && ranks.actor_role != owner ==> (
            give matches Err(Refusal::Forbidden(_)))
            &&& known && role_id != 1 && ranks.target_role == owner && (facts.owners matches Lookup::Found(n) && n
                <= 1) ==> (give matches Err(Refusal::BadRequest(_)))
        }),
{
    permissions_are_those_of_the_role(
        facts.ranks.actor_bits,
        BAN_MEMBERS,
        Permission { bits: BAN_MEMBERS },
        Permission { bits: VIEW_BAN_LIST },
    );
}

} // verus!
