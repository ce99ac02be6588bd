//! A model of the group's database: what its tables hold, what a change does
//! to them, and what a lookup finds in them.
//!
//! It exists for stating laws only. Columns that the database fills in with the
//! current time are left out.

use crate::error::Lookup;
use crate::models::permission::{holds, ALL_BITS};
use crate::store::Change;
use vstd::prelude::*;

verus! {

/// A row of `members`, without the username that keys it.
pub struct MemberRow {
    pub display_name: Seq<char>,
    pub public_key: Seq<char>,
    pub role: Seq<char>,
    pub role_id: Option<i64>,
}

/// A row of `roles`, without the id that keys it.
pub struct RoleRow {
    pub name: Seq<char>,
    pub color: Seq<char>,
    pub permissions: i64,
    pub is_system: bool,
    pub sort_order: i64,
}

/// A row of `bans`.
pub struct BanRow {
    pub banned_by: Seq<char>,
    pub reason: Option<Seq<char>>,
}

/// A row of `mutes`.
pub struct MuteRow {
    pub muted_by: Seq<char>,
    pub reason: Option<Seq<char>>,
    pub expires_at: i64,
}

/// A row of `sessions`.
pub struct SessionRow {
    pub display_name: Seq<char>,
    pub token: Seq<char>,
    pub public_key: Seq<char>,
    pub password_hash: Seq<char>,
}

/// A row of `messages` or, with the post it belongs to, of `comments`.
pub struct PostRow {
    pub post_id: Option<i64>,
    pub sender: Seq<char>,
    pub content: Seq<char>,
    pub reply_to_id: Option<i64>,
    pub reply_to_sender: Option<Seq<char>>,
    pub reply_to_content: Option<Seq<char>>,
    pub timestamp: Seq<char>,
    pub timestamp_ms: i64,
}

/// A row of `polls`.
pub struct PollRow {
    pub question: Seq<char>,
    pub multi_choice: bool,
    pub closes_at: Option<i64>,
    pub created_by: Seq<char>,
}

/// A row of `poll_options`.
pub struct OptionRow {
    pub poll_id: i64,
    pub text: Seq<char>,
    pub sort_order: i64,
}

/// A row of `donation_addresses`.
pub struct DonationRow {
    pub label: Seq<char>,
    pub address: Seq<char>,
    pub sort_order: i64,
}

/// A row of `media`.
pub struct MediaRow {
    pub uploader: Seq<char>,
    pub original_filename: Seq<char>,
    pub mime_type: Seq<char>,
    pub size_bytes: i64,
    pub url: Seq<char>,
    pub provider: Seq<char>,
}

/// The one row of `group_info`.
pub struct GroupInfo {
    pub name: Seq<char>,
    pub description: Seq<char>,
    pub motd: Seq<char>,
    pub is_channel: bool,
    pub owner_username: Seq<char>,
    pub avatar_version: int,
    pub slow_mode_seconds: i64,
    pub max_members: i64,
    pub max_message_length: i64,
    pub max_messages_per_minute: i64,
    pub default_role_id: i64,
}

/// The tables.
pub struct GroupDb {
    pub members: Map<Seq<char>, MemberRow>,
    pub roles: Map<i64, RoleRow>,
    pub bans: Map<Seq<char>, BanRow>,
    pub mutes: Map<Seq<char>, MuteRow>,
    pub sessions: Map<Seq<char>, SessionRow>,
    /// From a token's hash to the user it belongs to.
    pub device_tokens: Map<Seq<char>, Seq<char>>,
    pub messages: Map<i64, PostRow>,
    /// Message, user and emoji.
    pub reactions: Set<(i64, Seq<char>, Seq<char>)>,
    pub comments: Map<i64, PostRow>,
    /// Comment, user and emoji.
    pub comment_reactions: Set<(i64, Seq<char>, Seq<char>)>,
    pub polls: Map<i64, PollRow>,
    pub poll_options: Map<i64, OptionRow>,
    /// Poll, option and user.
    pub votes: Set<(i64, i64, Seq<char>)>,
    pub donations: Seq<DonationRow>,
    pub media: Map<Seq<char>, MediaRow>,
    pub avatar: Option<(Seq<u8>, Seq<char>)>,
    pub info: GroupInfo,
}

/// The tables after a post and what hangs on it are deleted.
pub open spec fn without_message(db: GroupDb, id: i64) -> GroupDb {
    let gone = Set::new(|c: i64| db.comments.contains_key(c) && db.comments[c].post_id == Some(id));
    GroupDb {
        messages: db.messages.remove(id),
        reactions: db.reactions.filter(|r: (i64, Seq<char>, Seq<char>)| r.0 != id),
        comments: db.comments.remove_keys(gone),
        comment_reactions: db.comment_reactions.filter(
            |r: (i64, Seq<char>, Seq<char>)| !gone.contains(r.0),
        ),
        ..db
    }
}

/// The tables after a comment and the reactions to it are deleted.
pub open spec fn without_comment(db: GroupDb, id: i64) -> GroupDb {
    GroupDb {
        comments: db.comments.remove(id),
        comment_reactions: db.comment_reactions.filter(
            |r: (i64, Seq<char>, Seq<char>)| r.0 != id,
        ),
        ..db
    }
}

/// A member's row with the system Member role.
pub open spec fn as_plain_member(row: MemberRow) -> MemberRow {
    MemberRow { role: "member"@, role_id: Some(3), ..row }
}

/// The tables after a change. A change that inserts a row under a number gets
/// the number `id` from the database.
pub open spec fn applied(db: GroupDb, c: Change, id: i64) -> GroupDb {
    match c {
        Change::DeleteMember { username } => GroupDb { members: db.members.remove(username), ..db },
        Change::InsertMember { username, display_name, public_key, role } => GroupDb {
            members: db.members.insert(
                username,
                MemberRow { display_name, public_key, role, role_id: None },
            ),
            ..db
        },
        Change::InsertMemberIfAbsent { username, display_name, public_key, role } => {
            if db.members.contains_key(username) {
                db
            } else {
                GroupDb {
                    members: db.members.insert(
                        username,
                        MemberRow { display_name, public_key, role, role_id: None },
                    ),
                    ..db
                }
            }
        },
        Change::RestoreMember { username, display_name, public_key } => GroupDb {
            members: db.members.insert(
                username,
                MemberRow { display_name, public_key, role: "member"@, role_id: Some(3) },
            ),
            ..db
        },
        Change::UpdateMemberIdentity { public_key, display_name, username } => {
            if db.members.contains_key(username) {
                GroupDb {
                    members: db.members.insert(
                        username,
                        MemberRow { display_name, public_key, ..db.members[username] },
                    ),
                    ..db
                }
            } else {
                db
            }
        },
        Change::SetMemberRole { role_id, role, username } => {
            if db.members.contains_key(username) {
                GroupDb {
                    members: db.members.insert(
                        username,
                        MemberRow { role_id: Some(role_id), role, ..db.members[username] },
                    ),
                    ..db
                }
            } else {
                db
            }
        },
        Change::ReleaseRole { role_id } => GroupDb {
            members: db.members.map_values(
                |row: MemberRow|
                    if row.role_id == Some(role_id) {
                        as_plain_member(row)
                    } else {
                        row
                    },
            ),
            ..db
        },
        Change::ReplaceBan { username, banned_by, reason } => GroupDb {
            bans: db.bans.insert(username, BanRow { banned_by, reason }),
            ..db
        },
        Change::DeleteBan { username } => GroupDb { bans: db.bans.remove(username), ..db },
        Change::ReplaceMute { username, muted_by, reason, expires_at } => GroupDb {
            mutes: db.mutes.insert(username, MuteRow { muted_by, reason, expires_at }),
            ..db
        },
        Change::DeleteMute { username } => GroupDb { mutes: db.mutes.remove(username), ..db },
        Change::InsertSession { username, display_name, token, public_key, password_hash } => GroupDb {
            sessions: db.sessions.insert(
                username,
                SessionRow { display_name, token, public_key, password_hash },
            ),
            ..db
        },
        Change::UpdateSessionIdentity { display_name, public_key, username } => {
            if db.sessions.contains_key(username) {
                GroupDb {
                    sessions: db.sessions.insert(
                        username,
                        SessionRow { display_name, public_key, ..db.sessions[username] },
                    ),
                    ..db
                }
            } else {
                db
            }
        },
        Change::TouchSession { username } => db,
        Change::AddDeviceToken { username, token } => {
            if db.device_tokens.contains_key(token) {
                db
            } else {
                GroupDb { device_tokens: db.device_tokens.insert(token, username), ..db }
            }
        },
        Change::SetGroupOwner { username } => GroupDb {
            info: GroupInfo { owner_username: username, ..db.info },
            ..db
        },
        Change::SetGroupName { name } => GroupDb { info: GroupInfo { name, ..db.info }, ..db },
        Change::SetAvatarVersion { version } => GroupDb {
            info: GroupInfo { avatar_version: version as int, ..db.info },
            ..db
        },
        Change::BumpAvatarVersion => GroupDb {
            info: GroupInfo { avatar_version: db.info.avatar_version + 1, ..db.info },
            ..db
        },
        Change::SetSlowMode { seconds } => GroupDb {
            info: GroupInfo { slow_mode_seconds: seconds, ..db.info },
            ..db
        },
        Change::UpdateSettings {
            description,
            motd,
            max_members,
            max_message_length,
            max_messages_per_minute,
            default_role_id,
        } => GroupDb {
            info: GroupInfo {
                description,
                motd,
                max_members,
                max_message_length,
                max_messages_per_minute,
                default_role_id,
                ..db.info
            },
            ..db
        },
        Change::ReplaceAvatar { data, mime_type } => GroupDb {
            avatar: Some((data, mime_type)),
            ..db
        },
        Change::DeleteAvatar => GroupDb { avatar: None, ..db },
        Change::InsertMessage {
            sender,
            content,
            reply_to_id,
            reply_to_sender,
            reply_to_content,
            timestamp,
            timestamp_ms,
        } => GroupDb {
            messages: db.messages.insert(
                id,
                PostRow {
                    post_id: None,
                    sender,
                    content,
                    reply_to_id,
                    reply_to_sender,
                    reply_to_content,
                    timestamp,
                    timestamp_ms,
                },
            ),
            ..db
        },
        Change::DeleteOwnMessage { message_id, sender } => {
            if db.messages.contains_key(message_id) && db.messages[message_id].sender == sender {
                without_message(db, message_id)
            } else {
                db
            }
        },
        Change::EditOwnMessage { content, message_id, sender } => {
            if db.messages.contains_key(message_id) && db.messages[message_id].sender == sender {
                GroupDb {
                    messages: db.messages.insert(
                        message_id,
                        PostRow { content, ..db.messages[message_id] },
                    ),
                    ..db
                }
            } else {
                db
            }
        },
        Change::AddReaction { message_id, username, emoji } => GroupDb {
            reactions: db.reactions.insert((message_id, username, emoji)),
            ..db
        },
        Change::RemoveReaction { message_id, username, emoji } => GroupDb {
            reactions: db.reactions.remove((message_id, username, emoji)),
            ..db
        },
        Change::InsertComment {
            post_id,
            sender,
            content,
            reply_to_id,
            reply_to_sender,
            reply_to_content,
            timestamp,
            timestamp_ms,
        } => GroupDb {
            comments: db.comments.insert(
                id,
                PostRow {
                    post_id: Some(post_id),
                    sender,
                    content,
                    reply_to_id,
                    reply_to_sender,
                    reply_to_content,
                    timestamp,
                    timestamp_ms,
                },
            ),
            ..db
        },
        Change::EditOwnComment { content, comment_id, sender } => {
            if db.comments.contains_key(comment_id) && db.comments[comment_id].sender == sender {
                GroupDb {
                    comments: db.comments.insert(
                        comment_id,
                        PostRow { content, ..db.comments[comment_id] },
                    ),
                    ..db
                }
            } else {
                db
            }
        },
        Change::DeleteComment { comment_id } => without_comment(db, comment_id),
        Change::DeleteOwnComment { comment_id, sender } => {
            if db.comments.contains_key(comment_id) && db.comments[comment_id].sender == sender {
                without_comment(db, comment_id)
            } else {
                db
            }
        },
        Change::AddCommentReaction { comment_id, username, emoji } => GroupDb {
            comment_reactions: db.comment_reactions.insert((comment_id, username, emoji)),
            ..db
        },
        Change::RemoveCommentReaction { comment_id, username, emoji } => GroupDb {
            comment_reactions: db.comment_reactions.remove((comment_id, username, emoji)),
            ..db
        },
        Change::ClearDonations => GroupDb { donations: Seq::empty(), ..db },
        Change::InsertDonation { label, address, sort_order } => GroupDb {
            donations: db.donations.push(DonationRow { label, address, sort_order }),
            ..db
        },
        Change::InsertPoll { question, multi_choice, closes_at, created_by } => GroupDb {
            polls: db.polls.insert(id, PollRow { question, multi_choice, closes_at, created_by }),
            ..db
        },
        Change::InsertPollOption { poll_id, text, sort_order } => GroupDb {
            poll_options: db.poll_options.insert(id, OptionRow { poll_id, text, sort_order }),
            ..db
        },
        Change::ClearVotes { poll_id, username } => GroupDb {
            votes: db.votes.filter(
                |v: (i64, i64, Seq<char>)| !(v.0 == poll_id && v.2 == username),
            ),
            ..db
        },
        Change::AddVote { poll_id, option_id, username } => GroupDb {
            votes: db.votes.insert((poll_id, option_id, username)),
            ..db
        },
        Change::InsertRole { name, color, permissions, sort_order } => GroupDb {
            roles: db.roles.insert(
                id,
                RoleRow { name, color, permissions, is_system: false, sort_order },
            ),
            ..db
        },
        Change::UpdateRole { name, color, permissions, role_id } => {
            if db.roles.contains_key(role_id) {
                GroupDb {
                    roles: db.roles.insert(
                        role_id,
                        RoleRow { name, color, permissions, ..db.roles[role_id] },
                    ),
                    ..db
                }
            } else {
                db
            }
        },
        Change::DeleteRole { role_id } => GroupDb { roles: db.roles.remove(role_id), ..db },
        Change::InsertMedia {
            id: media_id,
            uploader,
            original_filename,
            mime_type,
            size_bytes,
            url,
            provider,
        } => GroupDb {
            media: db.media.insert(
                media_id,
                MediaRow { uploader, original_filename, mime_type, size_bytes, url, provider },
            ),
            ..db
        },
    }
}

/// The tables after some changes, none of which inserts a row under a number.
pub open spec fn applied_all(db: GroupDb, changes: Seq<Change>) -> GroupDb
    decreases changes.len(),
{
    if changes.len() == 0 {
        db
    } else {
        applied(applied_all(db, changes.drop_last()), changes.last(), 0)
    }
}

/// A count is that of a row that is there or not.
pub open spec fn counts(l: Lookup<i64>, there: bool) -> bool {
    l matches Lookup::Found(n) && n == (if there { 1i64 } else { 0i64 })
}

/// What looking up the permission bits of a user's role finds: a member's role
/// decides, and a member without a role, or with one that is gone, has none.
pub open spec fn finds_bits(l: Lookup<i64>, db: GroupDb, user: Seq<char>) -> bool {
    match role_id_of(db, user) {
        Some(r) if db.roles.contains_key(r) => l == Lookup::Found(db.roles[r].permissions),
        _ => l == Lookup::<i64>::Missing,
    }
}

/// The role number of a member.
pub open spec fn role_id_of(db: GroupDb, user: Seq<char>) -> Option<i64> {
    if db.members.contains_key(user) {
        db.members[user].role_id
    } else {
        None
    }
}

/// Whether a user holds a permission: a member's role decides.
pub open spec fn may(db: GroupDb, user: Seq<char>, wanted: i64) -> bool {
    match role_id_of(db, user) {
        Some(r) => db.roles.contains_key(r) && holds(db.roles[r].permissions & ALL_BITS, wanted),
        None => false,
    }
}

/// What looking up a user's role number finds: nothing for a member without one.
pub open spec fn finds_role_id(l: Lookup<i64>, db: GroupDb, user: Seq<char>) -> bool {
    if db.members.contains_key(user) {
        match db.members[user].role_id {
            Some(r) => l == Lookup::Found(r),
            None => l == Lookup::<i64>::Missing,
        }
    } else {
        l == Lookup::<i64>::Missing
    }
}

/// The number of the role that a role's name stands for.
pub open spec fn number_of(role: Seq<char>) -> i64 {
    if role == "owner"@ {
        1
    } else if role == "moderator"@ {
        2
    } else {
        3
    }
}

/// The number of a member's role or, without one, of the role that they are named
/// after.
pub open spec fn rank_of(db: GroupDb, user: Seq<char>) -> Option<i64> {
    if db.members.contains_key(user) {
        match db.members[user].role_id {
            Some(r) => Some(r),
            None => Some(number_of(db.members[user].role)),
        }
    } else {
        None
    }
}

/// What looking up a user's rank finds.
pub open spec fn finds_rank(l: Lookup<i64>, db: GroupDb, user: Seq<char>) -> bool {
    match rank_of(db, user) {
        Some(r) => l == Lookup::Found(r),
        None => l == Lookup::<i64>::Missing,
    }
}

/// What looking up a user's role name finds.
pub open spec fn finds_role_name(l: Lookup<String>, db: GroupDb, user: Seq<char>) -> bool {
    if db.members.contains_key(user) {
        l matches Lookup::Found(s) && s@ == db.members[user].role
    } else {
        l is Missing
    }
}

/// The members that hold the system Owner role.
pub open spec fn owners(db: GroupDb) -> Set<Seq<char>> {
    db.members.dom().filter(|u: Seq<char>| db.members[u].role_id == Some(1i64))
}

} // verus!
