//! The group's name, and its avatar in the storage.

use crate::error::{bad_request, forbidden, not_found, unauthorized, AppError, Lookup, Refusal};
use crate::group::{applied, GroupDb, GroupInfo};
use crate::handlers::avatars::{same_bytes, version_or_zero, Part, MAX_AVATAR_BYTES};
use crate::handlers::checks::GROUP;
use crate::json::{lookup_of_push, member_of, obj, opt_text, Fields, Json};
use crate::outcome::{replying, told, Effect, Outcome, Packet};
use crate::store::{Change, Write};
use crate::text::{
    alphanumeric, byte_count, byte_len, chars_of, contains, contains_text, glue, is_alphanumeric,
    same, show_i64, signed_decimal, starts, starts_with, texts, trim, trimmed,
};
use vstd::prelude::*;
use vstd::string::*;

verus! {

/// A request to rename the group.
pub struct RenameGroupRequest {
    pub name: String,
}

/// Owners of the one group pass; others are refused.
pub open spec fn owners_only(group_id: i64, role: Lookup<String>, message: Seq<char>) -> Result<(), Refusal> {
    if group_id != 1 {
        Err(Refusal::NotFound("Group not found"@))
    } else {
        match role {
            Lookup::Failed(e) => Err(Refusal::Internal(e@)),
            Lookup::Missing => Err(Refusal::Unauthorized("Not a member"@)),
            Lookup::Found(r) => if r@ == "owner"@ {
                Ok(())
            } else {
                Err(Refusal::Forbidden(message))
            },
        }
    }
}

/// Refuse someone who is not an owner of the one group.
pub fn require_owner(group_id: i64, role: &Lookup<String>, message: &str) -> (res: Result<(), AppError>)
    ensures
        crate::error::shown(res) == owners_only(group_id, *role, message@),
{
    if group_id != GROUP {
        return Err(not_found("Group not found"));
    }
    match role {
        Lookup::Failed(e) => Err(AppError::Internal(e.clone())),
        Lookup::Missing => Err(unauthorized("Not a member")),
        Lookup::Found(r) => if same(r.as_str(), "owner") {
            Ok(())
        } else {
            Err(forbidden(message))
        },
    }
}

/// What renaming the group leads to.
pub open spec fn renamed(group_id: i64, role: Lookup<String>, name: Seq<char>) -> Result<Effect, Refusal> {
    match owners_only(group_id, role, "Only owner can rename the group"@) {
        Err(e) => Err(e),
        Ok(_) => {
            let new_name = trimmed(name);
            if new_name.len() == 0 {
                Err(Refusal::BadRequest("Group name cannot be empty"@))
            } else if byte_count(new_name) > 100 {
                Err(Refusal::BadRequest("Group name too long (max 100 characters)"@))
            } else {
                Ok(
                    replying(
                        obj().with("ok"@, Json::Bool(true)).with(
                            "message"@,
                            Json::Text("Group renamed successfully"@),
                        ).with("name"@, Json::Text(new_name)).json(),
                    ).and_change(Change::SetGroupName { name: new_name }).and_broadcast(
                        obj().with("type"@, Json::Text("group_updated"@)).with(
                            "group_id"@,
                            Json::Int(group_id as int),
                        ).with("name"@, Json::Text(new_name)).json(),
                    ),
                )
            }
        },
    }
}

/// Rename the group, for an owner.
pub fn rename_group(group_id: i64, role: &Lookup<String>, req: &RenameGroupRequest) -> (res: Result<
    Outcome,
    AppError,
>)
    ensures
        told(res) == renamed(group_id, *role, req.name@),
{
    require_owner(group_id, role, "Only owner can rename the group")?;
    let name = trim(req.name.as_str());
    if name.as_str().unicode_len() == 0 {
        return Err(bad_request("Group name cannot be empty"));
    }
    if byte_len(name.as_str()) > 100 {
        return Err(bad_request("Group name too long (max 100 characters)"));
    }
    let packet = Fields::new().put_text("type", "group_updated").put_int("group_id", group_id).put_text(
        "name",
        name.as_str(),
    ).done();
    let reply = Fields::new().put_bool("ok", true).put_text("message", "Group renamed successfully").put_text(
        "name",
        name.as_str(),
    ).done();
    Ok(Outcome::replying(reply).and_write(Write::SetGroupName { name }).and_broadcast(packet))
}

/// The folder of a server in the storage: its name with `_` for every character
/// that is no letter, number, `_` or `-`.
pub open spec fn subfolder_of(name: Seq<char>) -> Seq<char> {
    name.map_values(
        |c: char|
            if alphanumeric(c) || c == '_' || c == '-' {
                c
            } else {
                '_'
            },
    )
}

/// The folder of a server in the storage. It is a single folder: there is no
/// path separator and no dot in its name.
pub fn server_subfolder(name: &str) -> (res: String)
    ensures
        res@ == subfolder_of(name@),
        forall|i: int|
            0 <= i < res@.len() ==> #[trigger] res@[i] != '/' && res@[i] != '\\' && res@[i] != '.' && res@[i]
                != ':',
{
    let chars = chars_of(name);
    let mut out = String::new();
    let mut i: usize = 0;
    while i < chars.len()
        invariant
            i <= chars@.len(),
            chars@ == name@,
            out@ == subfolder_of(name@.take(i as int)),
            forall|k: int|
                0 <= k < out@.len() ==> #[trigger] out@[k] != '/' && out@[k] != '\\' && out@[k] != '.'
                    && out@[k] != ':',
        decreases chars@.len() - i,
    {
        let c = chars[i];
        let kept = is_alphanumeric(c) || c == '_' || c == '-';
        let ghost before = out@;
        out.push(
            if kept {
                c
            } else {
                '_'
            },
        );
        proof {
            assert(out@ =~= subfolder_of(name@.take(i + 1)));
            assert forall|k: int| 0 <= k < out@.len() implies #[trigger] out@[k] != '/' && out@[k] != '\\'
                && out@[k] != '.' && out@[k] != ':' by {
                if k < before.len() {
                    assert(before[k] != '/');
                }
            }
        }
        i += 1;
    }
    assert(name@.take(name@.len() as int) =~= name@);
    out
}

/// The part of a form that holds the avatar, if there is one, up to where the
/// form was read.
pub open spec fn avatar_part(parts: Seq<Part>, n: int) -> Option<int>
    decreases parts.len() - n,
{
    if n < 0 || n >= parts.len() {
        None
    } else if opt_text(parts[n].name) == Some("avatar"@) {
        Some(n)
    } else {
        avatar_part(parts, n + 1)
    }
}

/// Which part of a form holds the avatar: the first of that name. `failure` says
/// why there are no more parts, if the form broke off.
pub open spec fn avatar_index(parts: Seq<Part>, failure: Option<Seq<char>>) -> Result<int, Refusal> {
    match avatar_part(parts, 0) {
        None => match failure {
            Some(e) => Err(Refusal::BadRequest(e)),
            None => Err(Refusal::BadRequest("No avatar file provided"@)),
        },
        Some(i) => match parts[i].data {
            Err(e) => Err(Refusal::BadRequest(e@)),
            Ok(_) => Ok(i),
        },
    }
}

/// The extension of an image's file by the image's type.
pub open spec fn image_extension(content_type: Seq<char>) -> Seq<char> {
    if contains_text(content_type, "png"@) {
        "png"@
    } else if contains_text(content_type, "jpeg"@) || contains_text(content_type, "jpg"@) {
        "jpg"@
    } else if contains_text(content_type, "gif"@) {
        "gif"@
    } else if contains_text(content_type, "webp"@) {
        "webp"@
    } else {
        "jpg"@
    }
}

/// The extension of an image's file by the image's type.
pub fn extension_for(content_type: &str) -> (res: &'static str)
    ensures
        res@ == image_extension(content_type@),
{
    if contains(content_type, "png") {
        "png"
    } else if contains(content_type, "jpeg") || contains(content_type, "jpg") {
        "jpg"
    } else if contains(content_type, "gif") {
        "gif"
    } else if contains(content_type, "webp") {
        "webp"
    } else {
        "jpg"
    }
}

/// The name of the avatar's file.
pub open spec fn avatar_name(group_id: i64, extension: Seq<char>) -> Seq<char> {
    "group_"@ + signed_decimal(group_id as int) + ("."@ + extension)
}

fn avatar_file(group_id: i64, extension: &str) -> (res: String)
    ensures
        res@ == avatar_name(group_id, extension@),
{
    let number = show_i64(group_id);
    let head = glue("group_", number.as_str());
    let tail = glue(".", extension);
    glue(head.as_str(), tail.as_str())
}

/// An uploaded avatar: the part of the form that it is in, the name of the file
/// that it goes to, and its version.
pub struct AvatarPlan {
    pub part: usize,
    pub filename: String,
    pub version: i64,
}

/// The model of an uploaded avatar.
pub open spec fn plan_of(r: Result<AvatarPlan, AppError>) -> Result<(int, Seq<char>, i64), Refusal> {
    match r {
        Ok(p) => Ok((p.part as int, p.filename@, p.version)),
        Err(e) => Err(e@),
    }
}

/// The type of a part.
pub open spec fn type_of(part: Part) -> Seq<char> {
    match part.content_type {
        Some(t) => t@,
        None => ""@,
    }
}

/// What an uploaded avatar leads to.
pub open spec fn group_avatar(
    group_id: i64,
    role: Lookup<String>,
    parts: Seq<Part>,
    failure: Option<Seq<char>>,
    version: Lookup<i64>,
) -> Result<(int, Seq<char>, i64), Refusal> {
    match owners_only(group_id, role, "Only owner can change the group avatar"@) {
        Err(e) => Err(e),
        Ok(_) => match avatar_index(parts, failure) {
            Err(e) => Err(e),
            Ok(i) => if parts[i].data->Ok_0@.len() > MAX_AVATAR_BYTES {
                Err(Refusal::BadRequest("Avatar file too large (max 5MB)"@))
            } else if !starts(type_of(parts[i]), "image/"@) {
                Err(Refusal::BadRequest("File must be an image"@))
            } else {
                Ok(
                    (
                        i,
                        avatar_name(group_id, image_extension(type_of(parts[i]))),
                        (version_or_zero(version) + 1) as i64,
                    ),
                )
            },
        },
    }
}

fn find_avatar_part(parts: &Vec<Part>) -> (res: Option<usize>)
    ensures
        match res {
            Some(i) => avatar_part(parts@, 0) == Some(i as int) && i < parts@.len(),
            None => avatar_part(parts@, 0) is None,
        },
{
    let mut i: usize = 0;
    while i < parts.len()
        invariant
            i <= parts@.len(),
            avatar_part(parts@, 0) == avatar_part(parts@, i as int),
        decreases parts@.len() - i,
    {
        if let Some(n) = &parts[i].name {
            if same(n.as_str(), "avatar") {
                return Some(i);
            }
        }
        i += 1;
    }
    None
}

/// Take over an uploaded avatar, for an owner: an image of at most 5 MB. The
/// version that there is must not be the last one.
pub fn upload_group_avatar(
    group_id: i64,
    role: &Lookup<String>,
    parts: &Vec<Part>,
    failure: &Option<String>,
    version: &Lookup<i64>,
) -> (res: Result<AvatarPlan, AppError>)
    requires
        version_or_zero(*version) < i64::MAX,
    ensures
        plan_of(res) == group_avatar(group_id, *role, parts@, opt_text(*failure), *version),
        res matches Ok(p) ==> p.part < parts@.len(),
{
    require_owner(group_id, role, "Only owner can change the group avatar")?;
    let part = match find_avatar_part(parts) {
        None => match failure {
            Some(e) => return Err(AppError::BadRequest(e.clone())),
            None => return Err(bad_request("No avatar file provided")),
        },
        Some(i) => i,
    };
    let size: usize = match &parts[part].data {
        Err(e) => return Err(AppError::BadRequest(e.clone())),
        Ok(d) => d.len(),
    };
    if size > MAX_AVATAR_BYTES {
        return Err(bad_request("Avatar file too large (max 5MB)"));
    }
    let content_type = match &parts[part].content_type {
        Some(t) => t.as_str(),
        None => "",
    };
    if !starts_with(content_type, "image/") {
        return Err(bad_request("File must be an image"));
    }
    let filename = avatar_file(group_id, extension_for(content_type));
    let current: i64 = match version {
        Lookup::Found(v) => *v,
        _ => 0,
    };
    Ok(AvatarPlan { part, filename, version: current + 1 })
}

/// The write that makes a version of the avatar the current one.
pub fn version_write(version: i64) -> (res: Write)
    ensures
        res@ == (Change::SetAvatarVersion { version }),
{
    Write::SetAvatarVersion { version }
}

/// What can go wrong when the avatar's file is written.
pub enum FileFailure {
    /// The folder could not be made.
    Folder(String),
    /// The file could not be made.
    Creation(String),
    /// The file could not be written.
    Writing(String),
}

/// The refusal when the avatar's file could not be written.
pub fn file_failure(failure: &FileFailure) -> (res: AppError)
    ensures
        res@ == Refusal::Internal(
            match *failure {
                FileFailure::Folder(e) => "Failed to create media directory: "@ + e@,
                FileFailure::Creation(e) => "Failed to create avatar file: "@ + e@,
                FileFailure::Writing(e) => "Failed to write avatar file: "@ + e@,
            },
        ),
{
    match failure {
        FileFailure::Folder(e) => AppError::Internal(
            glue("Failed to create media directory: ", e.as_str()),
        ),
        FileFailure::Creation(e) => AppError::Internal(glue("Failed to create avatar file: ", e.as_str())),
        FileFailure::Writing(e) => AppError::Internal(glue("Failed to write avatar file: ", e.as_str())),
    }
}

/// What follows once the avatar's file is written or deleted.
pub open spec fn avatar_announced(group_id: i64, version: i64, message: Seq<char>) -> Effect {
    replying(
        obj().with("ok"@, Json::Bool(true)).with("message"@, Json::Text(message)).with(
            "avatar_version"@,
            Json::Int(version as int),
        ).json(),
    ).and_broadcast(
        obj().with("type"@, Json::Text("group_avatar_updated"@)).with(
            "group_id"@,
            Json::Int(group_id as int),
        ).with("avatar_version"@, Json::Int(version as int)).json(),
    )
}

fn announce(group_id: i64, version: i64, message: &str) -> (res: Outcome)
    ensures
        res@ == avatar_announced(group_id, version, message@),
{
    let packet = Fields::new().put_text("type", "group_avatar_updated").put_int("group_id", group_id).put_int(
        "avatar_version",
        version,
    ).done();
    let reply = Fields::new().put_bool("ok", true).put_text("message", message).put_int(
        "avatar_version",
        version,
    ).done();
    Outcome::replying(reply).and_broadcast(packet)
}

/// What follows once the avatar's file is written.
pub fn group_avatar_written(group_id: i64, version: i64) -> (res: Outcome)
    ensures
        res@ == avatar_announced(group_id, version, "Group avatar updated successfully"@),
{
    announce(group_id, version, "Group avatar updated successfully")
}

/// The names that the avatar's file may have, in the order in which they are
/// looked for.
pub open spec fn avatar_names(group_id: i64) -> Seq<Seq<char>> {
    Seq::empty().push(avatar_name(group_id, "png"@)).push(avatar_name(group_id, "jpg"@)).push(
        avatar_name(group_id, "jpeg"@),
    ).push(avatar_name(group_id, "gif"@)).push(avatar_name(group_id, "webp"@))
}

/// The names that the avatar's file may have, in the order in which they are
/// looked for.
pub fn avatar_files(group_id: i64) -> (res: Vec<String>)
    ensures
        texts(res@) == avatar_names(group_id),
{
    let mut out: Vec<String> = Vec::new();
    out.push(avatar_file(group_id, "png"));
    out.push(avatar_file(group_id, "jpg"));
    out.push(avatar_file(group_id, "jpeg"));
    out.push(avatar_file(group_id, "gif"));
    out.push(avatar_file(group_id, "webp"));
    assert(texts(out@) =~= avatar_names(group_id));
    out
}

/// The first file that could be read.
pub open spec fn first_read(files: Seq<Option<Vec<u8>>>) -> Option<Seq<u8>>
    decreases files.len(),
{
    if files.len() == 0 {
        None
    } else {
        match files[0] {
            Some(d) => Some(d@),
            None => first_read(files.skip(1)),
        }
    }
}

/// What asking for the avatar's file leads to.
pub open spec fn group_avatar_sent(group_id: i64, files: Seq<Option<Vec<u8>>>) -> Result<Seq<u8>, Refusal> {
    if group_id != 1 {
        Err(Refusal::NotFound("Group not found"@))
    } else {
        match first_read(files) {
            Some(d) => Ok(d),
            None => Err(Refusal::NotFound("Avatar not found"@)),
        }
    }
}

/// Send the avatar's file: the first that could be read of those that it may be.
pub fn get_group_avatar(group_id: i64, files: &Vec<Option<Vec<u8>>>) -> (res: Result<Vec<u8>, AppError>)
    ensures
        crate::auth::shown_bytes(res) == group_avatar_sent(group_id, files@),
{
    if group_id != GROUP {
        return Err(not_found("Group not found"));
    }
    let mut i: usize = 0;
    assert(files@.skip(0) =~= files@);
    while i < files.len()
        invariant
            i <= files@.len(),
            group_id == 1,
            first_read(files@) == first_read(files@.skip(i as int)),
        decreases files@.len() - i,
    {
        assert(files@.skip(i as int).skip(1) =~= files@.skip(i + 1));
        if let Some(d) = &files[i] {
            return Ok(same_bytes(d));
        }
        i += 1;
    }
    Err(not_found("Avatar not found"))
}

/// What deleting the avatar leads to: the version that it has afterwards.
pub open spec fn group_avatar_gone(group_id: i64, role: Lookup<String>, version: Lookup<i64>) -> Result<
    Effect,
    Refusal,
> {
    match owners_only(group_id, role, "Only owner can delete the group avatar"@) {
        Err(e) => Err(e),
        Ok(_) => {
            let v = (version_or_zero(version) + 1) as i64;
            Ok(
                avatar_announced(group_id, v, "Group avatar deleted successfully"@).and_change(
                    Change::SetAvatarVersion { version: v },
                ),
            )
        },
    }
}

/// Delete the avatar, for an owner, whatever the name of its file is. The version
/// that there is must not be the last one.
pub fn delete_group_avatar(group_id: i64, role: &Lookup<String>, version: &Lookup<i64>) -> (res: Result<
    Outcome,
    AppError,
>)
    requires
        version_or_zero(*version) < i64::MAX,
    ensures
        told(res) == group_avatar_gone(group_id, *role, *version),
{
    require_owner(group_id, role, "Only owner can delete the group avatar")?;
    let current: i64 = match version {
        Lookup::Found(v) => *v,
        _ => 0,
    };
    let next: i64 = current + 1;
    Ok(
        announce(group_id, next, "Group avatar deleted successfully").and_write(
            Write::SetAvatarVersion { version: next },
        ),
    )
}

/// The file that an avatar is written to is among those that are looked for.
pub proof fn an_uploaded_avatar_is_looked_for(
    group_id: i64,
    role: Lookup<String>,
    parts: Seq<Part>,
    failure: Option<Seq<char>>,
    version: Lookup<i64>,
)
    requires
        group_avatar(group_id, role, parts, failure, version) is Ok,
    ensures
        avatar_names(group_id).contains(group_avatar(group_id, role, parts, failure, version)->Ok_0.1),
        owners_only(group_id, role, "Only owner can change the group avatar"@) is Ok,
{
    let names = avatar_names(group_id);
    let name = group_avatar(group_id, role, parts, failure, version)->Ok_0.1;
    assert(names[0] == avatar_name(group_id, "png"@));
    assert(names[1] == avatar_name(group_id, "jpg"@));
    assert(names[3] == avatar_name(group_id, "gif"@));
    assert(names[4] == avatar_name(group_id, "webp"@));
}

/// The group is renamed if and only if it is this one, the user is an owner, and
/// the name has 1 to 100 bytes without white space around it. That name is stored
/// and told, and nothing else changes.
pub proof fn a_new_name_is_stored_and_told(group_id: i64, role: Lookup<String>, name: Seq<char>, db: GroupDb)
    ensures
        ({
            let res = renamed(group_id, role, name);
            let new_name = trimmed(name);
            let owner = role matches Lookup::Found(r) && r@ == "owner"@;
            &&& res is Ok <==> group_id == 1 && owner && 0 < new_name.len() && byte_count(new_name) <= 100
            &&& group_id == 1 && role is Missing ==> (res matches Err(Refusal::Unauthorized(_)))
            &&& group_id == 1 && role is Found && !owner ==> (res matches Err(Refusal::Forbidden(_)))
            &&& res matches Ok(effect) ==> {
                &&& effect.changes.len() == 1
                &&& applied(db, effect.changes[0], 0) == (GroupDb {
                    info: GroupInfo { name: new_name, ..db.info },
                    ..db
                })
                &&& member_of(effect.reply, "ok"@) == Some(Json::Bool(true))
                &&& member_of(effect.reply, "name"@) == Some(Json::Text(new_name))
                &&& effect.notices.len() == 1
                &&& effect.notices[0] matches Packet::Broadcast(told) && {
                    &&& member_of(told, "type"@) == Some(Json::Text("group_updated"@))
                    &&& member_of(told, "group_id"@) == Some(Json::Int(1))
                    &&& member_of(told, "name"@) == Some(Json::Text(new_name))
                }
            }
        }),
{
    broadcast use lookup_of_push;

    reveal_strlit("ok");
    reveal_strlit("message");
    reveal_strlit("name");
    reveal_strlit("type");
    reveal_strlit("group_id");
}

/// The folder of a server keeps the letters, numbers, `_` and `-` of the server's
/// name where they are, and has `_` for everything else.
pub proof fn a_folder_is_named_after_its_server(name: Seq<char>, i: int)
    requires
        0 <= i < name.len(),
    ensures
        subfolder_of(name).len() == name.len(),
        alphanumeric(name[i]) || name[i] == '_' || name[i] == '-' ==> subfolder_of(name)[i] == name[i],
        !alphanumeric(name[i]) && name[i] != '-' ==> subfolder_of(name)[i] == '_',
{
}

proof fn the_first_avatar_counts(parts: Seq<Part>, n: int)
    requires
        0 <= n <= parts.len(),
    ensures
        match avatar_part(parts, n) {
            Some(i) => {
                &&& n <= i < parts.len()
                &&& opt_text(parts[i].name) == Some("avatar"@)
                &&& forall|k: int| n <= k < i ==> opt_text(#[trigger] parts[k].name) != Some("avatar"@)
            },
            None => forall|k: int|
                n <= k < parts.len() ==> opt_text(#[trigger] parts[k].name) != Some("avatar"@),
        },
    decreases parts.len() - n,
{
    if n < parts.len() && opt_text(parts[n].name) != Some("avatar"@) {
        the_first_avatar_counts(parts, n + 1);
    }
}

/// An avatar is taken over if and only if the group is this one, the user is an
/// owner, and the first part of the form of that name could be read, is not too
/// large and is an image. It is that part that is taken over, under the next
/// version, to a file with an extension that fits its type.
pub proof fn the_group_avatar_is_what_was_uploaded(
    group_id: i64,
    role: Lookup<String>,
    parts: Seq<Part>,
    failure: Option<Seq<char>>,
    version: Lookup<i64>,
    i: int,
)
    requires
        version matches Lookup::Found(v) ==> v < i64::MAX,
        0 <= i < parts.len(),
        parts[i].name matches Some(n) && n@ == "avatar"@,
        forall|k: int| 0 <= k < i ==> !((#[trigger] parts[k].name) matches Some(n) && n@ == "avatar"@),
    ensures
        ({
            let res = group_avatar(group_id, role, parts, failure, version);
            let kind = match parts[i].content_type {
                Some(t) => t@,
                None => ""@,
            };
            let png = contains_text(kind, "png"@);
            let jpeg = contains_text(kind, "jpeg"@) || contains_text(kind, "jpg"@);
            let gif = contains_text(kind, "gif"@);
            let webp = contains_text(kind, "webp"@);
            let stem = "group_"@ + signed_decimal(group_id as int);
            &&& res is Ok <==> {
                &&& group_id == 1
                &&& role matches Lookup::Found(r) && r@ == "owner"@
                &&& parts[i].data is Ok && parts[i].data->Ok_0@.len() <= 5_242_880
                &&& starts(kind, "image/"@)
            }
            &&& group_id == 1 && (role matches Lookup::Found(r) && r@ == "owner"@) && res is Err ==> (
            res matches Err(Refusal::BadRequest(_)))
            &&& res matches Ok(plan) ==> {
                &&& plan.0 == i
                &&& plan.2 == 1 + match version {
                    Lookup::Found(v) => v,
                    _ => 0i64,
                }
                &&& png ==> plan.1 == stem + ("."@ + "png"@)
                &&& !png && jpeg ==> plan.1 == stem + ("."@ + "jpg"@)
                &&& !png && !jpeg && gif ==> plan.1 == stem + ("."@ + "gif"@)
                &&& !png && !jpeg && !gif && webp ==> plan.1 == stem + ("."@ + "webp"@)
                &&& !png && !jpeg && !gif && !webp ==> plan.1 == stem + ("."@ + "jpg"@)
            }
        }),
{
    the_first_avatar_counts(parts, 0);
    let k = avatar_part(parts, 0);
    assert(opt_text(parts[i].name) == Some("avatar"@));
    if k is None || k->Some_0 > i {
        assert(opt_text(parts[i].name) != Some("avatar"@));
    }
}

/// A form without an avatar is refused.
pub proof fn a_form_without_an_avatar_is_refused(
    group_id: i64,
    role: Lookup<String>,
    parts: Seq<Part>,
    failure: Option<Seq<char>>,
    version: Lookup<i64>,
)
    requires
        forall|k: int| 0 <= k < parts.len() ==> !((#[trigger] parts[k].name) matches Some(n) && n@ == "avatar"@),
    ensures
        group_avatar(group_id, role, parts, failure, version) is Err,
        group_id == 1 && (role matches Lookup::Found(r) && r@ == "owner"@) ==> group_avatar(
            group_id,
            role,
            parts,
            failure,
            version,
        ) matches Err(Refusal::BadRequest(_)),
{
    the_first_avatar_counts(parts, 0);
}

/// The version of the avatar is told to whoever changed it and to everyone.
pub proof fn the_avatar_version_is_told(group_id: i64, version: i64, message: Seq<char>)
    ensures
        ({
            let effect = avatar_announced(group_id, version, message);
            &&& effect.changes.len() == 0
            &&& member_of(effect.reply, "ok"@) == Some(Json::Bool(true))
            &&& member_of(effect.reply, "message"@) == Some(Json::Text(message))
            &&& member_of(effect.reply, "avatar_version"@) == Some(Json::Int(version as int))
            &&& effect.notices.len() == 1
            &&& effect.notices[0] matches Packet::Broadcast(told) && {
                &&& member_of(told, "type"@) == Some(Json::Text("group_avatar_updated"@))
                &&& member_of(told, "group_id"@) == Some(Json::Int(group_id as int))
                &&& member_of(told, "avatar_version"@) == Some(Json::Int(version as int))
            }
        }),
{
    broadcast use lookup_of_push;

    reveal_strlit("ok");
    reveal_strlit("message");
    reveal_strlit("avatar_version");
    reveal_strlit("type");
    reveal_strlit("group_id");
}

/// The avatar is deleted if and only if the group is this one and the user is an
/// owner. The next version is stored and told.
pub proof fn a_deleted_group_avatar_has_a_version(
    group_id: i64,
    role: Lookup<String>,
    version: Lookup<i64>,
    db: GroupDb,
)
    requires
        version matches Lookup::Found(v) ==> v < i64::MAX,
    ensures
        ({
            let res = group_avatar_gone(group_id, role, version);
            let next = 1 + match version {
                Lookup::Found(v) => v,
                _ => 0i64,
            };
            &&& res is Ok <==> group_id == 1 && (role matches Lookup::Found(r) && r@ == "owner"@)
            &&& res matches Ok(effect) ==> {
                &&& effect.changes.len() == 1
                &&& applied(db, effect.changes[0], 0) == (GroupDb {
                    info: GroupInfo { avatar_version: next, ..db.info },
                    ..db
                })
                &&& member_of(effect.reply, "ok"@) == Some(Json::Bool(true))
                &&& member_of(effect.reply, "avatar_version"@) == Some(Json::Int(next))
                &&& effect.notices.len() == 1
                &&& effect.notices[0] matches Packet::Broadcast(told) && {
                    &&& member_of(told, "type"@) == Some(Json::Text("group_avatar_updated"@))
                    &&& member_of(told, "group_id"@) == Some(Json::Int(1))
                    &&& member_of(told, "avatar_version"@) == Some(Json::Int(next))
                }
            }
        }),
{
    the_avatar_version_is_told(
        group_id,
        (version_or_zero(version) + 1) as i64,
        "Group avatar deleted successfully"@,
    );
}

/// The avatar that is sent is the first file that could be read of those that are
/// looked for.
pub proof fn the_first_file_is_sent(group_id: i64, files: Seq<Option<Vec<u8>>>, i: int)
    ensures
        group_id == 1 && 0 <= i < files.len() && files[i] is Some && (forall|k: int|
            0 <= k < i ==> (#[trigger] files[k]) is None) ==> group_avatar_sent(group_id, files) == Ok::<
            Seq<u8>,
            Refusal,
        >(files[i]->Some_0@),
        (forall|k: int| 0 <= k < files.len() ==> (#[trigger] files[k]) is None) ==> group_avatar_sent(
            group_id,
            files,
        ) matches Err(Refusal::NotFound(_)),
        group_id != 1 ==> group_avatar_sent(group_id, files) matches Err(Refusal::NotFound(_)),
    decreases files.len(),
{
    if files.len() > 0 && files[0] is None {
        let rest = files.skip(1);
        the_first_file_is_sent(1, rest, i - 1);
        assert forall|k: int| 0 <= k < rest.len() implies #[trigger] rest[k] == files[k + 1] by {}
        if 0 < i < files.len() && (forall|k: int| 0 <= k < i ==> (#[trigger] files[k]) is None) {
            assert(rest[i - 1] == files[i]);
        }
    }
}

/// The version of the avatar that is written is the one that is given.
pub proof fn the_version_is_written(version: i64, res: Write, db: GroupDb)
    requires
        call_ensures(version_write, (version,), res),
    ensures
        applied(db, res@, 0) == (GroupDb {
            info: GroupInfo { avatar_version: version as int, ..db.info },
            ..db
        }),
{
}

} // verus!
