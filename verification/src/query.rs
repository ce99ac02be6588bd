//! The questions that requests ask of the database, and the statements that ask
//! them.

use crate::store::{Param, Statement};
use vstd::prelude::*;

verus! {

/// A question to the database.
pub enum Query {
    /// How often a user is a member.
    Memberships { username: String },
    /// How many members there are.
    Members,
    /// The members, with their roles and mutes, in the order in which they joined.
    MemberList,
    /// The permission bits of a member's role.
    Permissions { username: String },
    /// The number of a member's role, which may be NULL: then nothing is found.
    RoleId { username: String },
    /// The number of a member's role or, without one, of the role that they are named after.
    RankOf { username: String },
    /// The name of a member's role.
    RoleName { username: String },
    /// How many members have the Owner role.
    Owners,
    /// How many members have a role that is named owner.
    NamedOwners,
    /// How often a user is banned.
    Bans { username: String },
    /// A user's ban.
    BanOf { username: String },
    /// The bans, the latest first.
    BanList,
    /// When a user's mute ends.
    MuteOf { username: String },
    /// The mutes that end after a time, the longest first.
    MuteList { now: i64 },
    /// A registered user's key and password hash.
    Login { username: String },
    /// A registered user's display name and key.
    Identity { username: String },
    /// A registered user's key.
    KeyOf { username: String },
    /// The user with a device that has a token, by the token's hash.
    DeviceOwner { token: String },
    /// The user with a session that has a token, by the token's hash.
    SessionOwner { token: String },
    /// Whether the group is set up.
    Groups,
    /// The name of the group.
    GroupName,
    /// The owner of the group.
    GroupOwner,
    /// Whether the group is a channel.
    IsChannel,
    /// Whether the group is a channel, and its name.
    ChannelName,
    /// Whether a token is an invitation to the group.
    Invites { token: String },
    /// Whether a token is that of a public channel.
    PublicChannels { token: String },
    /// The settings of the group.
    Settings,
    /// How many seconds lie between the messages of a member.
    SlowMode,
    /// The version of the group's avatar.
    AvatarVersion,
    /// The avatar of the group.
    Avatar,
    /// Whether there is a message.
    Messages { message_id: i64 },
    /// Who sent a message, and what it says.
    QuotedMessage { message_id: i64 },
    /// Whether a user reacted to a message with an emoji.
    SameMessageReactions { message_id: i64, username: String, emoji: String },
    /// With how many emojis a user reacted to a message.
    DifferentMessageReactions { message_id: i64, username: String },
    /// The post that a comment stands under.
    PostOf { comment_id: i64 },
    /// Who made a comment on a post, and what it says.
    QuotedComment { comment_id: i64, post_id: i64 },
    /// The comments on a post, the oldest first.
    CommentList { post_id: i64 },
    /// Whether a user reacted to a comment with an emoji.
    SameReactions { comment_id: i64, username: String, emoji: String },
    /// With how many emojis a user reacted to a comment.
    DifferentReactions { comment_id: i64, username: String },
    /// Whether there is a role.
    Roles { role_id: i64 },
    /// The name, the color and the permission bits of a role.
    RoleOf { role_id: i64 },
    /// Whether a role is a system role.
    RoleIsSystem { role_id: i64 },
    /// The roles, with the number of members who have each.
    RoleList,
    /// The members who have a role.
    RoleHolders { role_id: i64 },
    /// Where a new role is sorted.
    NextRoleOrder,
    /// The donation addresses, in order.
    DonationList,
    /// The polls, the newest first: fifty at most.
    PollList,
    /// A poll.
    PollOf { poll_id: i64 },
    /// Whether several options of a poll may be chosen, and when it closes.
    PollRules { poll_id: i64 },
    /// The options of a poll, in order.
    PollOptions { poll_id: i64 },
    /// How many votes an option of a poll has.
    OptionVotes { poll_id: i64, option_id: i64 },
    /// The options of a poll that a user voted for.
    VotesOf { poll_id: i64, username: String },
    /// Whether an option is one of a poll.
    OwnOptions { option_id: i64, poll_id: i64 },
}

/// The statement that asks a question.
pub open spec fn asked(q: Query) -> (Seq<char>, Seq<Param>) {
    match q {
        Query::Memberships { username } => (
            "SELECT COUNT(*) FROM members WHERE username = ?1"@,
            seq![Param::Text(username@)],
        ),
        Query::Members => (
            "SELECT COUNT(*) FROM members"@,
            Seq::empty(),
        ),
        Query::MemberList => (
            "SELECT m.username, m.display_name, m.role, m.joined_at, m.role_id, r.name, r.color, mu.expires_at FROM members m LEFT JOIN roles r ON r.id = m.role_id LEFT JOIN mutes mu ON mu.username = m.username ORDER BY m.joined_at"@,
            Seq::empty(),
        ),
        Query::Permissions { username } => (
            "SELECT r.permissions FROM members m JOIN roles r ON r.id = m.role_id WHERE m.username = ?1"@,
            seq![Param::Text(username@)],
        ),
        Query::RoleId { username } => (
            "SELECT role_id FROM members WHERE username = ?1"@,
            seq![Param::Text(username@)],
        ),
        Query::RankOf { username } => (
            "SELECT COALESCE(role_id, CASE role WHEN 'owner' THEN 1 WHEN 'moderator' THEN 2 ELSE 3 END) FROM members WHERE username = ?1"@,
            seq![Param::Text(username@)],
        ),
        Query::RoleName { username } => (
            "SELECT role FROM members WHERE username = ?1"@,
            seq![Param::Text(username@)],
        ),
        Query::Owners => (
            "SELECT COUNT(*) FROM members WHERE role_id = 1"@,
            Seq::empty(),
        ),
        Query::NamedOwners => (
            "SELECT COUNT(*) FROM members WHERE role = 'owner'"@,
            Seq::empty(),
        ),
        Query::Bans { username } => (
            "SELECT COUNT(*) FROM bans WHERE username = ?1"@,
            seq![Param::Text(username@)],
        ),
        Query::BanOf { username } => (
            "SELECT id, username, banned_by, reason, banned_at FROM bans WHERE username = ?1"@,
            seq![Param::Text(username@)],
        ),
        Query::BanList => (
            "SELECT id, username, banned_by, reason, banned_at FROM bans ORDER BY banned_at DESC"@,
            Seq::empty(),
        ),
        Query::MuteOf { username } => (
            "SELECT expires_at FROM mutes WHERE username = ?1"@,
            seq![Param::Text(username@)],
        ),
        Query::MuteList { now } => (
            "SELECT username, muted_by, reason, muted_at, expires_at FROM mutes WHERE expires_at > ?1 ORDER BY expires_at DESC"@,
            seq![Param::Int(now)],
        ),
        Query::Login { username } => (
            "SELECT public_key, password_hash FROM sessions WHERE username = ?1"@,
            seq![Param::Text(username@)],
        ),
        Query::Identity { username } => (
            "SELECT display_name, public_key FROM sessions WHERE username = ?1"@,
            seq![Param::Text(username@)],
        ),
        Query::KeyOf { username } => (
            "SELECT public_key FROM sessions WHERE username = ?1"@,
            seq![Param::Text(username@)],
        ),
        Query::DeviceOwner { token } => (
            "SELECT username FROM device_tokens WHERE token = ?1"@,
            seq![Param::Text(token@)],
        ),
        Query::SessionOwner { token } => (
            "SELECT username FROM sessions WHERE token = ?1"@,
            seq![Param::Text(token@)],
        ),
        Query::Groups => (
            "SELECT COUNT(*) FROM group_info WHERE id = 1"@,
            Seq::empty(),
        ),
        Query::GroupName => (
            "SELECT name FROM group_info WHERE id = 1"@,
            Seq::empty(),
        ),
        Query::GroupOwner => (
            "SELECT owner_username FROM group_info WHERE id = 1"@,
            Seq::empty(),
        ),
        Query::IsChannel => (
            "SELECT is_channel FROM group_info WHERE id = 1"@,
            Seq::empty(),
        ),
        Query::ChannelName => (
            "SELECT is_channel, name FROM group_info WHERE id = 1"@,
            Seq::empty(),
        ),
        Query::Invites { token } => (
            "SELECT COUNT(*) FROM group_info WHERE id = 1 AND invite_token = ?1"@,
            seq![Param::Text(token@)],
        ),
        Query::PublicChannels { token } => (
            "SELECT COUNT(*) FROM group_info WHERE id = 1 AND public_channel_token = ?1 AND is_channel = 1"@,
            seq![Param::Text(token@)],
        ),
        Query::Settings => (
            "SELECT description, motd, max_members, max_message_length, max_messages_per_minute, default_role_id FROM group_info WHERE id = 1"@,
            Seq::empty(),
        ),
        Query::SlowMode => (
            "SELECT slow_mode_seconds FROM group_info WHERE id = 1"@,
            Seq::empty(),
        ),
        Query::AvatarVersion => (
            "SELECT avatar_version FROM group_info WHERE id = 1"@,
            Seq::empty(),
        ),
        Query::Avatar => (
            "SELECT data, mime_type FROM group_avatar WHERE id = 1"@,
            Seq::empty(),
        ),
        Query::Messages { message_id } => (
            "SELECT COUNT(*) FROM messages WHERE id = ?1"@,
            seq![Param::Int(message_id)],
        ),
        Query::QuotedMessage { message_id } => (
            "SELECT sender_username, content FROM messages WHERE id = ?1"@,
            seq![Param::Int(message_id)],
        ),
        Query::SameMessageReactions { message_id, username, emoji } => (
            "SELECT COUNT(*) FROM message_reactions WHERE message_id = ?1 AND reactor_username = ?2 AND emoji = ?3"@,
            seq![Param::Int(message_id), Param::Text(username@), Param::Text(emoji@)],
        ),
        Query::DifferentMessageReactions { message_id, username } => (
            "SELECT COUNT(DISTINCT emoji) FROM message_reactions WHERE message_id = ?1 AND reactor_username = ?2"@,
            seq![Param::Int(message_id), Param::Text(username@)],
        ),
        Query::PostOf { comment_id } => (
            "SELECT post_id FROM comments WHERE id = ?1"@,
            seq![Param::Int(comment_id)],
        ),
        Query::QuotedComment { comment_id, post_id } => (
            "SELECT sender_username, content FROM comments WHERE id = ?1 AND post_id = ?2"@,
            seq![Param::Int(comment_id), Param::Int(post_id)],
        ),
        Query::CommentList { post_id } => (
            "SELECT id, sender_username, content, reply_to_id, reply_to_sender, reply_to_content, timestamp, timestamp_ms FROM comments WHERE post_id = ?1 ORDER BY timestamp_ms ASC, id ASC"@,
            seq![Param::Int(post_id)],
        ),
        Query::SameReactions { comment_id, username, emoji } => (
            "SELECT COUNT(*) FROM comment_reactions WHERE comment_id = ?1 AND reactor_username = ?2 AND emoji = ?3"@,
            seq![Param::Int(comment_id), Param::Text(username@), Param::Text(emoji@)],
        ),
        Query::DifferentReactions { comment_id, username } => (
            "SELECT COUNT(DISTINCT emoji) FROM comment_reactions WHERE comment_id = ?1 AND reactor_username = ?2"@,
            seq![Param::Int(comment_id), Param::Text(username@)],
        ),
        Query::Roles { role_id } => (
            "SELECT COUNT(*) FROM roles WHERE id = ?1"@,
            seq![Param::Int(role_id)],
        ),
        Query::RoleOf { role_id } => (
            "SELECT name, color, permissions FROM roles WHERE id = ?1"@,
            seq![Param::Int(role_id)],
        ),
        Query::RoleIsSystem { role_id } => (
            "SELECT is_system FROM roles WHERE id = ?1"@,
            seq![Param::Int(role_id)],
        ),
        Query::RoleList => (
            "SELECT id, name, color, permissions, is_system, (SELECT COUNT(*) FROM members WHERE members.role_id = roles.id) AS member_count FROM roles ORDER BY sort_order"@,
            Seq::empty(),
        ),
        Query::RoleHolders { role_id } => (
            "SELECT username FROM members WHERE role_id = ?1"@,
            seq![Param::Int(role_id)],
        ),
        Query::NextRoleOrder => (
            "SELECT COALESCE(MAX(sort_order), -1) + 1 FROM roles"@,
            Seq::empty(),
        ),
        Query::DonationList => (
            "SELECT id, label, address FROM donation_addresses ORDER BY sort_order, id"@,
            Seq::empty(),
        ),
        Query::PollList => (
            "SELECT id FROM polls ORDER BY id DESC LIMIT 50"@,
            Seq::empty(),
        ),
        Query::PollOf { poll_id } => (
            "SELECT question, multi_choice, closes_at, created_by FROM polls WHERE id = ?1"@,
            seq![Param::Int(poll_id)],
        ),
        Query::PollRules { poll_id } => (
            "SELECT multi_choice, closes_at FROM polls WHERE id = ?1"@,
            seq![Param::Int(poll_id)],
        ),
        Query::PollOptions { poll_id } => (
            "SELECT id, text FROM poll_options WHERE poll_id = ?1 ORDER BY sort_order, id"@,
            seq![Param::Int(poll_id)],
        ),
        Query::OptionVotes { poll_id, option_id } => (
            "SELECT COUNT(*) FROM poll_votes WHERE poll_id = ?1 AND option_id = ?2"@,
            seq![Param::Int(poll_id), Param::Int(option_id)],
        ),
        Query::VotesOf { poll_id, username } => (
            "SELECT option_id FROM poll_votes WHERE poll_id = ?1 AND username = ?2"@,
            seq![Param::Int(poll_id), Param::Text(username@)],
        ),
        Query::OwnOptions { option_id, poll_id } => (
            "SELECT COUNT(*) FROM poll_options WHERE id = ?1 AND poll_id = ?2"@,
            seq![Param::Int(option_id), Param::Int(poll_id)],
        ),
    }
}

impl Query {
    /// The statement that asks the question.
    pub fn statement(&self) -> (res: Statement)
        ensures
            res@ == asked(*self),
    {
        match self {
            Query::Memberships { username } => Statement::new(
                "SELECT COUNT(*) FROM members WHERE username = ?1",
            ).text(username.as_str()),
            Query::Members => Statement::new(
                "SELECT COUNT(*) FROM members",
            ),
            Query::MemberList => Statement::new(
                "SELECT m.username, m.display_name, m.role, m.joined_at, m.role_id, r.name, r.color, mu.expires_at FROM members m LEFT JOIN roles r ON r.id = m.role_id LEFT JOIN mutes mu ON mu.username = m.username ORDER BY m.joined_at",
            ),
            Query::Permissions { username } => Statement::new(
                "SELECT r.permissions FROM members m JOIN roles r ON r.id = m.role_id WHERE m.username = ?1",
            ).text(username.as_str()),
            Query::RoleId { username } => Statement::new(
                "SELECT role_id FROM members WHERE username = ?1",
            ).text(username.as_str()),
            Query::RankOf { username } => Statement::new(
                "SELECT COALESCE(role_id, CASE role WHEN 'owner' THEN 1 WHEN 'moderator' THEN 2 ELSE 3 END) FROM members WHERE username = ?1",
            ).text(username.as_str()),
            Query::RoleName { username } => Statement::new(
                "SELECT role FROM members WHERE username = ?1",
            ).text(username.as_str()),
            Query::Owners => Statement::new(
                "SELECT COUNT(*) FROM members WHERE role_id = 1",
            ),
            Query::NamedOwners => Statement::new(
                "SELECT COUNT(*) FROM members WHERE role = 'owner'",
            ),
            Query::Bans { username } => Statement::new(
                "SELECT COUNT(*) FROM bans WHERE username = ?1",
            ).text(username.as_str()),
            Query::BanOf { username } => Statement::new(
                "SELECT id, username, banned_by, reason, banned_at FROM bans WHERE username = ?1",
            ).text(username.as_str()),
            Query::BanList => Statement::new(
                "SELECT id, username, banned_by, reason, banned_at FROM bans ORDER BY banned_at DESC",
            ),
            Query::MuteOf { username } => Statement::new(
                "SELECT expires_at FROM mutes WHERE username = ?1",
            ).text(username.as_str()),
            Query::MuteList { now } => Statement::new(
                "SELECT username, muted_by, reason, muted_at, expires_at FROM mutes WHERE expires_at > ?1 ORDER BY expires_at DESC",
            ).number(*now),
            Query::Login { username } => Statement::new(
                "SELECT public_key, password_hash FROM sessions WHERE username = ?1",
            ).text(username.as_str()),
            Query::Identity { username } => Statement::new(
                "SELECT display_name, public_key FROM sessions WHERE username = ?1",
            ).text(username.as_str()),
            Query::KeyOf { username } => Statement::new(
                "SELECT public_key FROM sessions WHERE username = ?1",
            ).text(username.as_str()),
            Query::DeviceOwner { token } => Statement::new(
                "SELECT username FROM device_tokens WHERE token = ?1",
            ).text(token.as_str()),
            Query::SessionOwner { token } => Statement::new(
                "SELECT username FROM sessions WHERE token = ?1",
            ).text(token.as_str()),
            Query::Groups => Statement::new(
                "SELECT COUNT(*) FROM group_info WHERE id = 1",
            ),
            Query::GroupName => Statement::new(
                "SELECT name FROM group_info WHERE id = 1",
            ),
            Query::GroupOwner => Statement::new(
                "SELECT owner_username FROM group_info WHERE id = 1",
            ),
            Query::IsChannel => Statement::new(
                "SELECT is_channel FROM group_info WHERE id = 1",
            ),
            Query::ChannelName => Statement::new(
                "SELECT is_channel, name FROM group_info WHERE id = 1",
            ),
            Query::Invites { token } => Statement::new(
                "SELECT COUNT(*) FROM group_info WHERE id = 1 AND invite_token = ?1",
            ).text(token.as_str()),
            Query::PublicChannels { token } => Statement::new(
                "SELECT COUNT(*) FROM group_info WHERE id = 1 AND public_channel_token = ?1 AND is_channel = 1",
            ).text(token.as_str()),
            Query::Settings => Statement::new(
                "SELECT description, motd, max_members, max_message_length, max_messages_per_minute, default_role_id FROM group_info WHERE id = 1",
            ),
            Query::SlowMode => Statement::new(
                "SELECT slow_mode_seconds FROM group_info WHERE id = 1",
            ),
            Query::AvatarVersion => Statement::new(
                "SELECT avatar_version FROM group_info WHERE id = 1",
            ),
            Query::Avatar => Statement::new(
                "SELECT data, mime_type FROM group_avatar WHERE id = 1",
            ),
            Query::Messages { message_id } => Statement::new(
                "SELECT COUNT(*) FROM messages WHERE id = ?1",
            ).number(*message_id),
            Query::QuotedMessage { message_id } => Statement::new(
                "SELECT sender_username, content FROM messages WHERE id = ?1",
            ).number(*message_id),
            Query::SameMessageReactions { message_id, username, emoji } => Statement::new(
                "SELECT COUNT(*) FROM message_reactions WHERE message_id = ?1 AND reactor_username = ?2 AND emoji = ?3",
            ).number(*message_id).text(username.as_str()).text(emoji.as_str()),
            Query::DifferentMessageReactions { message_id, username } => Statement::new(
                "SELECT COUNT(DISTINCT emoji) FROM message_reactions WHERE message_id = ?1 AND reactor_username = ?2",
            ).number(*message_id).text(username.as_str()),
            Query::PostOf { comment_id } => Statement::new(
                "SELECT post_id FROM comments WHERE id = ?1",
            ).number(*comment_id),
            Query::QuotedComment { comment_id, post_id } => Statement::new(
                "SELECT sender_username, content FROM comments WHERE id = ?1 AND post_id = ?2",
            ).number(*comment_id).number(*post_id),
            Query::CommentList { post_id } => Statement::new(
                "SELECT id, sender_username, content, reply_to_id, reply_to_sender, reply_to_content, timestamp, timestamp_ms FROM comments WHERE post_id = ?1 ORDER BY timestamp_ms ASC, id ASC",
            ).number(*post_id),
            Query::SameReactions { comment_id, username, emoji } => Statement::new(
                "SELECT COUNT(*) FROM comment_reactions WHERE comment_id = ?1 AND reactor_username = ?2 AND emoji = ?3",
            ).number(*comment_id).text(username.as_str()).text(emoji.as_str()),
            Query::DifferentReactions { comment_id, username } => Statement::new(
                "SELECT COUNT(DISTINCT emoji) FROM comment_reactions WHERE comment_id = ?1 AND reactor_username = ?2",
            ).number(*comment_id).text(username.as_str()),
            Query::Roles { role_id } => Statement::new(
                "SELECT COUNT(*) FROM roles WHERE id = ?1",
            ).number(*role_id),
            Query::RoleOf { role_id } => Statement::new(
                "SELECT name, color, permissions FROM roles WHERE id = ?1",
            ).number(*role_id),
            Query::RoleIsSystem { role_id } => Statement::new(
                "SELECT is_system FROM roles WHERE id = ?1",
            ).number(*role_id),
            Query::RoleList => Statement::new(
                "SELECT id, name, color, permissions, is_system, (SELECT COUNT(*) FROM members WHERE members.role_id = roles.id) AS member_count FROM roles ORDER BY sort_order",
            ),
            Query::RoleHolders { role_id } => Statement::new(
                "SELECT username FROM members WHERE role_id = ?1",
            ).number(*role_id),
            Query::NextRoleOrder => Statement::new(
                "SELECT COALESCE(MAX(sort_order), -1) + 1 FROM roles",
            ),
            Query::DonationList => Statement::new(
                "SELECT id, label, address FROM donation_addresses ORDER BY sort_order, id",
            ),
            Query::PollList => Statement::new(
                "SELECT id FROM polls ORDER BY id DESC LIMIT 50",
            ),
            Query::PollOf { poll_id } => Statement::new(
                "SELECT question, multi_choice, closes_at, created_by FROM polls WHERE id = ?1",
            ).number(*poll_id),
            Query::PollRules { poll_id } => Statement::new(
                "SELECT multi_choice, closes_at FROM polls WHERE id = ?1",
            ).number(*poll_id),
            Query::PollOptions { poll_id } => Statement::new(
                "SELECT id, text FROM poll_options WHERE poll_id = ?1 ORDER BY sort_order, id",
            ).number(*poll_id),
            Query::OptionVotes { poll_id, option_id } => Statement::new(
                "SELECT COUNT(*) FROM poll_votes WHERE poll_id = ?1 AND option_id = ?2",
            ).number(*poll_id).number(*option_id),
            Query::VotesOf { poll_id, username } => Statement::new(
                "SELECT option_id FROM poll_votes WHERE poll_id = ?1 AND username = ?2",
            ).number(*poll_id).text(username.as_str()),
            Query::OwnOptions { option_id, poll_id } => Statement::new(
                "SELECT COUNT(*) FROM poll_options WHERE id = ?1 AND poll_id = ?2",
            ).number(*option_id).number(*poll_id),
        }
    }
}

/// Whether a question is asked by a statement with these values for its
/// placeholders.
pub open spec fn asks(q: Query, text: Seq<char>, values: Seq<Param>) -> bool {
    asked(q).0 == text && asked(q).1 =~= values
}

} // verus!
