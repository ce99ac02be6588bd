//! The group's avatar in the database.

use crate::error::{bad_request, forbidden, not_found, AppError, Lookup, Refusal};
use crate::group::{applied_all, GroupDb, GroupInfo};
use crate::json::{lookup_of_push, member_of, obj, opt_text, Fields, Json};
use crate::outcome::{ok_json, ok_reply, replying, told, Effect, Outcome, Packet};
use crate::store::{Change, Write};
use crate::text::{glue, same};
use vstd::prelude::*;

verus! {

/// The size that an avatar may have, in bytes.
pub const MAX_AVATAR_BYTES: usize = 5_242_880;

/// A part of a form that was sent: its name, the name and the type of the file
/// in it, and its data or why that could not be read.
pub struct Part {
    pub name: Option<String>,
    pub file_name: Option<String>,
    pub content_type: Option<String>,
    pub data: Result<Vec<u8>, String>,
}

/// Whether someone may change the avatar: owners and moderators may.
pub open spec fn may_change(role: Lookup<String>) -> Result<(), Refusal> {
    match role {
        Lookup::Failed(e) => Err(Refusal::Internal(e@)),
        Lookup::Missing => Err(Refusal::NotFound("Not a member"@)),
        Lookup::Found(r) => if r@ == "owner"@ || r@ == "moderator"@ {
            Ok(())
        } else {
            Err(Refusal::Forbidden("Only owner or moderator can change avatar"@))
        },
    }
}

/// Refuse someone who may not change the avatar.
pub fn require_avatar_role(role: &Lookup<String>) -> (res: Result<(), AppError>)
    ensures
        crate::error::shown(res) == may_change(*role),
{
    match role {
        Lookup::Failed(e) => Err(AppError::Internal(e.clone())),
        Lookup::Missing => Err(not_found("Not a member")),
        Lookup::Found(r) => if same(r.as_str(), "owner") || same(r.as_str(), "moderator") {
            Ok(())
        } else {
            Err(forbidden("Only owner or moderator can change avatar"))
        },
    }
}

/// Whether a part of a form holds an avatar.
pub open spec fn holds_avatar(name: Option<Seq<char>>) -> bool {
    name == Some("file"@) || name == Some("avatar"@)
}

/// Whether a part of a form holds an avatar.
pub fn is_avatar_part(name: &Option<String>) -> (res: bool)
    ensures
        res == holds_avatar(opt_text(*name)),
{
    match name {
        Some(n) => same(n.as_str(), "file") || same(n.as_str(), "avatar"),
        None => false,
    }
}

/// An avatar: its type and its data.
pub struct Avatar {
    pub mime_type: String,
    pub data: Option<Vec<u8>>,
}

/// The model of an avatar.
pub struct AvatarModel {
    pub mime_type: Seq<char>,
    pub data: Option<Seq<u8>>,
}

impl View for Avatar {
    type V = AvatarModel;

    open spec fn view(&self) -> AvatarModel {
        AvatarModel {
            mime_type: self.mime_type@,
            data: match self.data {
                Some(d) => Some(d@),
                None => None,
            },
        }
    }
}

/// What is known of the avatar after one more part.
pub open spec fn with_part(so_far: AvatarModel, part: Part) -> Result<AvatarModel, Refusal> {
    if !holds_avatar(opt_text(part.name)) {
        Ok(so_far)
    } else {
        let mime_type = match part.content_type {
            Some(t) => t@,
            None => so_far.mime_type,
        };
        match part.data {
            Err(e) => Err(Refusal::BadRequest("Read error: "@ + e@)),
            Ok(d) => if d@.len() > MAX_AVATAR_BYTES {
                Err(Refusal::BadRequest("Avatar too large (max 5 MB)"@))
            } else {
                Ok(AvatarModel { mime_type, data: Some(d@) })
            },
        }
    }
}

/// What is known of the avatar after some parts: the last one of them counts.
pub open spec fn avatar_in(parts: Seq<Part>) -> Result<AvatarModel, Refusal>
    decreases parts.len(),
{
    if parts.len() == 0 {
        Ok(AvatarModel { mime_type: "image/png"@, data: None })
    } else {
        match avatar_in(parts.drop_last()) {
            Err(e) => Err(e),
            Ok(so_far) => with_part(so_far, parts.last()),
        }
    }
}

/// The avatar in a form that may have broken off.
pub open spec fn avatar_of(parts: Seq<Part>, failure: Option<Seq<char>>) -> Result<AvatarModel, Refusal> {
    match avatar_in(parts) {
        Err(e) => Err(e),
        Ok(a) => match failure {
            Some(e) => Err(Refusal::BadRequest("Multipart error: "@ + e)),
            None => if a.data is Some {
                Ok(a)
            } else {
                Err(Refusal::BadRequest("No avatar file provided"@))
            },
        },
    }
}

/// The model of a result with an avatar.
pub open spec fn avatar_result(r: Result<Avatar, AppError>) -> Result<AvatarModel, Refusal> {
    match r {
        Ok(a) => Ok(a@),
        Err(e) => Err(e@),
    }
}

/// The same bytes again.
pub fn same_bytes(data: &Vec<u8>) -> (res: Vec<u8>)
    ensures
        res@ == data@,
{
    let mut copy: Vec<u8> = Vec::new();
    copy.extend_from_slice(data.as_slice());
    assert(copy@ =~= data@);
    copy
}

fn take_part(so_far: Avatar, part: &Part) -> (res: Result<Avatar, AppError>)
    ensures
        avatar_result(res) == with_part(so_far@, *part),
{
    if !is_avatar_part(&part.name) {
        return Ok(so_far);
    }
    let mime_type = match &part.content_type {
        Some(t) => t.clone(),
        None => so_far.mime_type,
    };
    match &part.data {
        Err(e) => Err(AppError::BadRequest(glue("Read error: ", e.as_str()))),
        Ok(d) => if d.len() > MAX_AVATAR_BYTES {
            Err(bad_request("Avatar too large (max 5 MB)"))
        } else {
            Ok(Avatar { mime_type, data: Some(same_bytes(d)) })
        },
    }
}

proof fn failed_parts_stay(parts: Seq<Part>, n: int)
    requires
        0 <= n <= parts.len(),
        avatar_in(parts.take(n)) is Err,
    ensures
        avatar_in(parts) == avatar_in(parts.take(n)),
    decreases parts.len(),
{
    if n == parts.len() {
        assert(parts.take(n) =~= parts);
    } else {
        assert(parts.drop_last().take(n) =~= parts.take(n));
        failed_parts_stay(parts.drop_last(), n);
    }
}

fn find_avatar(parts: &Vec<Part>, failure: &Option<String>) -> (res: Result<Avatar, AppError>)
    ensures
        avatar_result(res) == avatar_of(parts@, opt_text(*failure)),
{
    let mut avatar = Avatar { mime_type: "image/png".to_owned(), data: None };
    let mut i: usize = 0;
    while i < parts.len()
        invariant
            i <= parts@.len(),
            avatar_in(parts@.take(i as int)) == Ok::<AvatarModel, Refusal>(avatar@),
        decreases parts@.len() - i,
    {
        assert(parts@.take(i + 1).drop_last() =~= parts@.take(i as int));
        match take_part(avatar, &parts[i]) {
            Err(e) => {
                proof {
                    failed_parts_stay(parts@, i + 1);
                }
                return Err(e);
            },
            Ok(a) => {
                avatar = a;
            },
        }
        i += 1;
    }
    assert(parts@.take(parts@.len() as int) =~= parts@);
    if let Some(e) = failure {
        return Err(AppError::BadRequest(glue("Multipart error: ", e.as_str())));
    }
    if avatar.data.is_none() {
        return Err(bad_request("No avatar file provided"));
    }
    Ok(avatar)
}

/// The changes that an uploaded avatar leads to.
pub open spec fn avatar_uploaded(
    role: Lookup<String>,
    parts: Seq<Part>,
    failure: Option<Seq<char>>,
) -> Result<Seq<Change>, Refusal> {
    match may_change(role) {
        Err(e) => Err(e),
        Ok(_) => match avatar_of(parts, failure) {
            Err(e) => Err(e),
            Ok(a) => Ok(
                Seq::empty().push(
                    Change::ReplaceAvatar { data: a.data->0, mime_type: a.mime_type },
                ).push(Change::BumpAvatarVersion),
            ),
        },
    }
}

/// Take over an uploaded avatar. `parts` are those of the form, and `failure`
/// says why there are no more, if it broke off.
pub fn upload_avatar(role: &Lookup<String>, parts: &Vec<Part>, failure: &Option<String>) -> (res: Result<
    Vec<Write>,
    AppError,
>)
    ensures
        crate::handlers::polls::writes_of(res) == avatar_uploaded(*role, parts@, opt_text(*failure)),
{
    require_avatar_role(role)?;
    let avatar = match find_avatar(parts, failure) {
        Err(e) => return Err(e),
        Ok(a) => a,
    };
    let Avatar { mime_type, data } = avatar;
    let mut writes: Vec<Write> = Vec::new();
    if let Some(bytes) = data {
        writes.push(Write::ReplaceAvatar { data: bytes, mime_type });
        writes.push(Write::BumpAvatarVersion);
        proof {
            assert(crate::store::changes(writes@) =~= Seq::empty().push(
                Change::ReplaceAvatar { data: bytes@, mime_type: mime_type@ },
            ).push(Change::BumpAvatarVersion));
        }
    }
    Ok(writes)
}

/// What everyone is told about the avatar.
pub open spec fn avatar_packet(version: int) -> Json {
    obj().with("type"@, Json::Text("avatar_update"@)).with("avatar_version"@, Json::Int(version)).json()
}

/// The version that a lookup found, or zero.
pub open spec fn version_or_zero(version: Lookup<i64>) -> i64 {
    match version {
        Lookup::Found(v) => v,
        _ => 0,
    }
}

/// What follows once an uploaded avatar is stored.
pub open spec fn avatar_told(version: Lookup<i64>) -> Effect {
    replying(
        obj().with("ok"@, Json::Bool(true)).with(
            "avatar_version"@,
            Json::Int(version_or_zero(version) as int),
        ).json(),
    ).and_broadcast(avatar_packet(version_or_zero(version) as int))
}

/// What follows once an uploaded avatar is stored.
pub fn avatar_stored(version: &Lookup<i64>) -> (res: Outcome)
    ensures
        res@ == avatar_told(*version),
{
    let v: i64 = match version {
        Lookup::Found(n) => *n,
        _ => 0,
    };
    let packet = Fields::new().put_text("type", "avatar_update").put_int("avatar_version", v).done();
    let reply = Fields::new().put_bool("ok", true).put_int("avatar_version", v).done();
    Outcome::replying(reply).and_broadcast(packet)
}

/// The avatar, to be sent: its data, its type, and how long it may be cached.
pub struct FileReply {
    pub data: Vec<u8>,
    pub content_type: String,
    pub cache_control: String,
    /// Whether a browser must not guess another type.
    pub nosniff: bool,
    pub disposition: Option<String>,
}

/// The model of a [`FileReply`].
pub struct FileModel {
    pub data: Seq<u8>,
    pub content_type: Seq<char>,
    pub cache_control: Seq<char>,
    pub nosniff: bool,
    pub disposition: Option<Seq<char>>,
}

impl View for FileReply {
    type V = FileModel;

    open spec fn view(&self) -> FileModel {
        FileModel {
            data: self.data@,
            content_type: self.content_type@,
            cache_control: self.cache_control@,
            nosniff: self.nosniff,
            disposition: opt_text(self.disposition),
        }
    }
}

/// The model of a result with a file.
pub open spec fn file_result(r: Result<FileReply, AppError>) -> Result<FileModel, Refusal> {
    match r {
        Ok(f) => Ok(f@),
        Err(e) => Err(e@),
    }
}

/// What asking for the avatar leads to.
pub open spec fn avatar_sent(avatar: Lookup<(Vec<u8>, String)>) -> Result<FileModel, Refusal> {
    match avatar {
        Lookup::Failed(e) => Err(Refusal::Internal(e@)),
        Lookup::Missing => Err(Refusal::NotFound("No avatar"@)),
        Lookup::Found(a) => Ok(
            FileModel {
                data: a.0@,
                content_type: a.1@,
                cache_control: "public, max-age=3600"@,
                nosniff: false,
                disposition: None,
            },
        ),
    }
}

/// Send the avatar.
pub fn get_avatar(avatar: &Lookup<(Vec<u8>, String)>) -> (res: Result<FileReply, AppError>)
    ensures
        file_result(res) == avatar_sent(*avatar),
{
    match avatar {
        Lookup::Failed(e) => Err(AppError::Internal(e.clone())),
        Lookup::Missing => Err(not_found("No avatar")),
        Lookup::Found(a) => Ok(
            FileReply {
                data: same_bytes(&a.0),
                content_type: a.1.clone(),
                cache_control: "public, max-age=3600".to_owned(),
                nosniff: false,
                disposition: None,
            },
        ),
    }
}

/// What deleting the avatar leads to.
pub open spec fn avatar_deleted(username: Seq<char>, owner: Lookup<String>) -> Result<Effect, Refusal> {
    match owner {
        Lookup::Failed(e) => Err(Refusal::Internal(e@)),
        Lookup::Missing => Err(Refusal::NotFound("Group not found"@)),
        Lookup::Found(o) => if o@ != username {
            Err(Refusal::Forbidden("Only owner can delete avatar"@))
        } else {
            Ok(
                replying(ok_json()).and_change(Change::DeleteAvatar).and_change(
                    Change::BumpAvatarVersion,
                ).and_broadcast(avatar_packet(-1)),
            )
        },
    }
}

/// Delete the avatar, for the owner of the group.
pub fn delete_avatar(username: &str, owner: &Lookup<String>) -> (res: Result<Outcome, AppError>)
    ensures
        told(res) == avatar_deleted(username@, *owner),
{
    match owner {
        Lookup::Failed(e) => Err(AppError::Internal(e.clone())),
        Lookup::Missing => Err(not_found("Group not found")),
        Lookup::Found(o) => {
            if !same(o.as_str(), username) {
                return Err(forbidden("Only owner can delete avatar"));
            }
            let packet = Fields::new().put_text("type", "avatar_update").put_int("avatar_version", -1).done();
            Ok(
                Outcome::replying(ok_reply()).and_write(Write::DeleteAvatar).and_write(
                    Write::BumpAvatarVersion,
                ).and_broadcast(packet),
            )
        },
    }
}

/// An uploaded avatar is what is sent afterwards, under a new version; it came
/// from an owner or a moderator and is not too large.
pub proof fn the_avatar_is_what_was_uploaded(
    role: Lookup<String>,
    parts: Seq<Part>,
    failure: Option<Seq<char>>,
    db: GroupDb,
)
    requires
        avatar_uploaded(role, parts, failure) is Ok,
    ensures
        ({
            let after = applied_all(db, avatar_uploaded(role, parts, failure)->Ok_0);
            let a = avatar_of(parts, failure)->Ok_0;
            &&& may_change(role) is Ok
            &&& a.data->0.len() <= MAX_AVATAR_BYTES
            &&& after == (GroupDb {
                avatar: Some((a.data->0, a.mime_type)),
                info: GroupInfo { avatar_version: db.info.avatar_version + 1, ..db.info },
                ..db
            })
        }),
{
    let s = avatar_uploaded(role, parts, failure)->Ok_0;
    reveal_with_fuel(applied_all, 3);
    assert(s.drop_last().drop_last() =~= Seq::<Change>::empty());
    small_enough(parts);
}

proof fn small_enough(parts: Seq<Part>)
    ensures
        avatar_in(parts) matches Ok(a) ==> (a.data matches Some(d) ==> d.len() <= MAX_AVATAR_BYTES),
    decreases parts.len(),
{
    if parts.len() > 0 {
        small_enough(parts.drop_last());
    }
}

/// Whether a part of a form is named after an avatar.
pub open spec fn named_as_avatar(part: Part) -> bool {
    part.name matches Some(n) && (n@ == "file"@ || n@ == "avatar"@)
}

proof fn the_last_avatar_counts(parts: Seq<Part>, i: int)
    requires
        0 <= i < parts.len(),
        named_as_avatar(parts[i]),
        forall|k: int| i < k < parts.len() ==> !named_as_avatar(#[trigger] parts[k]),
        avatar_in(parts) is Ok,
    ensures
        parts[i].data is Ok,
        avatar_in(parts)->Ok_0.data == Some(parts[i].data->Ok_0@),
        parts[i].content_type matches Some(t) ==> avatar_in(parts)->Ok_0.mime_type == t@,
    decreases parts.len(),
{
    let rest = parts.drop_last();
    assert(parts.last() == parts[parts.len() - 1]);
    if i < rest.len() {
        assert(!named_as_avatar(parts[parts.len() - 1]));
        assert forall|k: int| i < k < rest.len() implies !named_as_avatar(#[trigger] rest[k]) by {
            assert(rest[k] == parts[k]);
        }
        the_last_avatar_counts(rest, i);
    }
}

proof fn a_form_can_be_read(parts: Seq<Part>)
    ensures
        avatar_in(parts) is Ok <==> forall|k: int|
            0 <= k < parts.len() && named_as_avatar(#[trigger] parts[k]) ==> parts[k].data is Ok
                && parts[k].data->Ok_0@.len() <= 5_242_880,
        avatar_in(parts) matches Ok(a) ==> (a.data is Some <==> exists|k: int|
            0 <= k < parts.len() && named_as_avatar(#[trigger] parts[k])),
        avatar_in(parts) is Ok && (forall|k: int|
            0 <= k < parts.len() && named_as_avatar(#[trigger] parts[k]) ==> parts[k].content_type is None)
            ==> avatar_in(parts)->Ok_0.mime_type == "image/png"@,
    decreases parts.len(),
{
    if parts.len() > 0 {
        let rest = parts.drop_last();
        a_form_can_be_read(rest);
        assert(parts.last() == parts[parts.len() - 1]);
        assert forall|k: int| 0 <= k < rest.len() implies #[trigger] rest[k] == parts[k] by {}
        if avatar_in(rest) is Err {
            let k = choose|k: int|
                0 <= k < rest.len() && named_as_avatar(#[trigger] rest[k]) && !(rest[k].data is Ok
                    && rest[k].data->Ok_0@.len() <= 5_242_880);
            assert(named_as_avatar(parts[k]));
        } else {
            if avatar_in(parts) is Ok {
                assert forall|k: int| 0 <= k < parts.len() && named_as_avatar(#[trigger] parts[k]) implies parts[k].data is Ok
                    && parts[k].data->Ok_0@.len() <= 5_242_880 by {
                    if k < rest.len() {
                        assert(named_as_avatar(rest[k]));
                    }
                }
                if avatar_in(rest)->Ok_0.data is Some {
                    let k = choose|k: int| 0 <= k < rest.len() && named_as_avatar(#[trigger] rest[k]);
                    assert(named_as_avatar(parts[k]));
                }
                if exists|k: int| 0 <= k < parts.len() && named_as_avatar(#[trigger] parts[k]) {
                    let k = choose|k: int| 0 <= k < parts.len() && named_as_avatar(#[trigger] parts[k]);
                    if k < rest.len() {
                        assert(named_as_avatar(rest[k]));
                    }
                }
                if forall|k: int|
                    0 <= k < parts.len() && named_as_avatar(#[trigger] parts[k]) ==> parts[k].content_type is None {
                    assert forall|k: int| 0 <= k < rest.len() && named_as_avatar(#[trigger] rest[k]) implies rest[k].content_type is None by {
                        assert(named_as_avatar(parts[k]));
                    }
                }
            }
        }
    }
}

/// An avatar is taken over if and only if it comes from an owner or a moderator,
/// the form did not break off and holds one, and each one in it could be read and
/// is not too large.
pub proof fn who_may_upload_an_avatar(role: Lookup<String>, parts: Seq<Part>, failure: Option<Seq<char>>)
    ensures
        avatar_uploaded(role, parts, failure) is Ok <==> {
            &&& role matches Lookup::Found(r) && (r@ == "owner"@ || r@ == "moderator"@)
            &&& failure is None
            &&& exists|k: int| 0 <= k < parts.len() && named_as_avatar(#[trigger] parts[k])
            &&& forall|k: int|
                0 <= k < parts.len() && named_as_avatar(#[trigger] parts[k]) ==> parts[k].data is Ok
                    && parts[k].data->Ok_0@.len() <= 5_242_880
        },
        role is Found && !(role matches Lookup::Found(r) && (r@ == "owner"@ || r@ == "moderator"@))
            ==> avatar_uploaded(role, parts, failure) matches Err(Refusal::Forbidden(_)),
{
    a_form_can_be_read(parts);
}

/// The avatar that is stored is the last one in the form, with the type that the
/// form gives for it; where it gives none for any, it is a PNG image.
pub proof fn the_last_avatar_is_stored(
    role: Lookup<String>,
    parts: Seq<Part>,
    failure: Option<Seq<char>>,
    db: GroupDb,
    i: int,
)
    requires
        avatar_uploaded(role, parts, failure) is Ok,
        0 <= i < parts.len(),
        named_as_avatar(parts[i]),
        forall|k: int| i < k < parts.len() ==> !named_as_avatar(#[trigger] parts[k]),
    ensures
        ({
            let after = applied_all(db, avatar_uploaded(role, parts, failure)->Ok_0);
            &&& parts[i].data is Ok
            &&& after.avatar matches Some(a) && {
                &&& a.0 == parts[i].data->Ok_0@
                &&& parts[i].content_type matches Some(t) ==> a.1 == t@
                &&& (forall|k: int|
                    0 <= k < parts.len() && named_as_avatar(#[trigger] parts[k]) ==> parts[k].content_type is None)
                    ==> a.1 == "image/png"@
            }
            &&& after.info.avatar_version == db.info.avatar_version + 1
        }),
{
    the_avatar_is_what_was_uploaded(role, parts, failure, db);
    the_last_avatar_counts(parts, i);
    a_form_can_be_read(parts);
}

/// After an upload the version of the avatar is told to whoever made it and to
/// everyone.
pub proof fn a_new_avatar_is_told(version: Lookup<i64>)
    ensures
        ({
            let effect = avatar_told(version);
            let v = match version {
                Lookup::Found(n) => n as int,
                _ => 0,
            };
            &&& effect.changes.len() == 0
            &&& member_of(effect.reply, "ok"@) == Some(Json::Bool(true))
            &&& member_of(effect.reply, "avatar_version"@) == Some(Json::Int(v))
            &&& effect.notices.len() == 1
            &&& effect.notices[0] matches Packet::Broadcast(told) && {
                &&& member_of(told, "type"@) == Some(Json::Text("avatar_update"@))
                &&& member_of(told, "avatar_version"@) == Some(Json::Int(v))
            }
        }),
{
    broadcast use lookup_of_push;

    reveal_strlit("ok");
    reveal_strlit("avatar_version");
    reveal_strlit("type");
}

/// The avatar is sent as it is stored, if there is one.
pub proof fn the_avatar_is_sent_as_stored(avatar: Lookup<(Vec<u8>, String)>)
    ensures
        avatar_sent(avatar) is Ok <==> avatar is Found,
        avatar is Missing ==> avatar_sent(avatar) matches Err(Refusal::NotFound(_)),
        avatar_sent(avatar) matches Ok(f) ==> f.data == avatar->Found_0.0@ && f.content_type
            == avatar->Found_0.1@ && f.disposition is None,
{
}

/// The avatar is deleted by the owner of the group alone. There is none then, its
/// version is the next one, and everyone is told that it is gone.
pub proof fn a_deleted_avatar_is_gone(username: Seq<char>, owner: Lookup<String>, db: GroupDb)
    ensures
        ({
            let res = avatar_deleted(username, owner);
            &&& res is Ok <==> (owner matches Lookup::Found(o) && o@ == username)
            &&& owner is Found && res is Err ==> (res matches Err(Refusal::Forbidden(_)))
            &&& res matches Ok(effect) ==> {
                &&& applied_all(db, effect.changes) == (GroupDb {
                    avatar: None,
                    info: GroupInfo { avatar_version: db.info.avatar_version + 1, ..db.info },
                    ..db
                })
                &&& member_of(effect.reply, "ok"@) == Some(Json::Bool(true))
                &&& effect.notices.len() == 1
                &&& effect.notices[0] matches Packet::Broadcast(told) && {
                    &&& member_of(told, "type"@) == Some(Json::Text("avatar_update"@))
                    &&& member_of(told, "avatar_version"@) == Some(Json::Int(-1))
                }
            }
        }),
{
    broadcast use lookup_of_push;

    reveal_strlit("ok");
    reveal_strlit("avatar_version");
    reveal_strlit("type");
    if let Ok(effect) = avatar_deleted(username, owner) {
        reveal_with_fuel(applied_all, 3);
        assert(effect.changes.drop_last().drop_last() =~= Seq::<Change>::empty());
    }
}

proof fn the_last_type_counts(parts: Seq<Part>, j: int)
    requires
        0 <= j < parts.len(),
        named_as_avatar(parts[j]),
        parts[j].content_type is Some,
        forall|k: int|
            j < k < parts.len() && named_as_avatar(#[trigger] parts[k]) ==> parts[k].content_type is None,
        avatar_in(parts) is Ok,
    ensures
        avatar_in(parts)->Ok_0.mime_type == parts[j].content_type->Some_0@,
    decreases parts.len(),
{
    let rest = parts.drop_last();
    assert(parts.last() == parts[parts.len() - 1]);
    if j < rest.len() {
        assert forall|k: int| j < k < rest.len() && named_as_avatar(#[trigger] rest[k]) implies rest[k].content_type is None by {
            assert(named_as_avatar(parts[k]));
        }
        the_last_type_counts(rest, j);
    }
}

/// The type of the avatar that is stored is the last one that the form gives for
/// an avatar.
pub proof fn the_last_type_given_is_stored(
    role: Lookup<String>,
    parts: Seq<Part>,
    failure: Option<Seq<char>>,
    db: GroupDb,
    j: int,
)
    requires
        avatar_uploaded(role, parts, failure) is Ok,
        0 <= j < parts.len(),
        named_as_avatar(parts[j]),
        parts[j].content_type is Some,
        forall|k: int|
            j < k < parts.len() && named_as_avatar(#[trigger] parts[k]) ==> parts[k].content_type is None,
    ensures
        applied_all(db, avatar_uploaded(role, parts, failure)->Ok_0).avatar matches Some(a) && a.1
            == parts[j].content_type->Some_0@,
{
    the_avatar_is_what_was_uploaded(role, parts, failure, db);
    the_last_type_counts(parts, j);
}

proof fn complaints_are_about_the_form(parts: Seq<Part>)
    ensures
        avatar_in(parts) is Err ==> avatar_in(parts) matches Err(Refusal::BadRequest(_)),
    decreases parts.len(),
{
    if parts.len() > 0 {
        complaints_are_about_the_form(parts.drop_last());
    }
}

/// An avatar of someone who is no member is refused as such, and one that an owner
/// or a moderator may not upload is malformed. There is no avatar to delete where
/// there is no group.
pub proof fn refusals_about_avatars(
    role: Lookup<String>,
    parts: Seq<Part>,
    failure: Option<Seq<char>>,
    username: Seq<char>,
    owner: Lookup<String>,
)
    ensures
        role is Missing ==> avatar_uploaded(role, parts, failure) matches Err(Refusal::NotFound(_)),
        (role matches Lookup::Found(r) && (r@ == "owner"@ || r@ == "moderator"@)) && avatar_uploaded(
            role,
            parts,
            failure,
        ) is Err ==> avatar_uploaded(role, parts, failure) matches Err(Refusal::BadRequest(_)),
        owner is Missing ==> avatar_deleted(username, owner) matches Err(Refusal::NotFound(_)),
{
    complaints_are_about_the_form(parts);
}

} // verus!
