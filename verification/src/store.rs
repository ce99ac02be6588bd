//! The changes that requests make to the database, and the statements that
//! make them.

use crate::json::opt_text;
use vstd::prelude::*;

verus! {

/// A change to the database.
pub enum Write {
    /// Someone stops being a member.
    DeleteMember { username: String },
    /// Someone becomes a member.
    InsertMember { username: String, display_name: String, public_key: String, role: String },
    /// Someone becomes a member, unless they are one.
    InsertMemberIfAbsent { username: String, display_name: String, public_key: String, role: String },
    /// Someone is a member with the Member role again.
    RestoreMember { username: String, display_name: String, public_key: String },
    /// A member has a new key and display name.
    UpdateMemberIdentity { public_key: String, display_name: String, username: String },
    /// A member has another role.
    SetMemberRole { role_id: i64, role: String, username: String },
    /// Whoever has a role gets the Member role instead.
    ReleaseRole { role_id: i64 },
    /// Someone is banned.
    ReplaceBan { username: String, banned_by: String, reason: Option<String> },
    /// Someone is no longer banned.
    DeleteBan { username: String },
    /// Someone is muted.
    ReplaceMute { username: String, muted_by: String, reason: Option<String>, expires_at: i64 },
    /// Someone is no longer muted.
    DeleteMute { username: String },
    /// Someone registers.
    InsertSession { username: String, display_name: String, token: String, public_key: String, password_hash: String },
    /// A registered user has a new key and display name.
    UpdateSessionIdentity { display_name: String, public_key: String, username: String },
    /// A registered user was seen.
    TouchSession { username: String },
    /// A device gets a token, kept as its hash.
    AddDeviceToken { username: String, token: String },
    /// The group has another owner of record.
    SetGroupOwner { username: String },
    /// The group has another name.
    SetGroupName { name: String },
    /// The avatar has the given version.
    SetAvatarVersion { version: i64 },
    /// The avatar has the next version.
    BumpAvatarVersion,
    /// Members wait so many seconds between messages.
    SetSlowMode { seconds: i64 },
    /// The group has other settings.
    UpdateSettings { description: String, motd: String, max_members: i64, max_message_length: i64, max_messages_per_minute: i64, default_role_id: i64 },
    /// The group has another avatar.
    ReplaceAvatar { data: Vec<u8>, mime_type: String },
    /// The group has no avatar.
    DeleteAvatar,
    /// A message is sent.
    InsertMessage { sender: String, content: String, reply_to_id: Option<i64>, reply_to_sender: Option<String>, reply_to_content: Option<String>, timestamp: String, timestamp_ms: i64 },
    /// A message is deleted, if it is its sender who asks.
    DeleteOwnMessage { message_id: i64, sender: String },
    /// A message is edited, if it is its sender who asks.
    EditOwnMessage { content: String, message_id: i64, sender: String },
    /// Someone reacts to a message, unless they did so already.
    AddReaction { message_id: i64, username: String, emoji: String },
    /// Someone takes a reaction to a message back.
    RemoveReaction { message_id: i64, username: String, emoji: String },
    /// A post is commented on.
    InsertComment { post_id: i64, sender: String, content: String, reply_to_id: Option<i64>, reply_to_sender: Option<String>, reply_to_content: Option<String>, timestamp: String, timestamp_ms: i64 },
    /// A comment is edited, if it is its sender who asks.
    EditOwnComment { content: String, comment_id: i64, sender: String },
    /// A comment is deleted.
    DeleteComment { comment_id: i64 },
    /// A comment is deleted, if it is its sender who asks.
    DeleteOwnComment { comment_id: i64, sender: String },
    /// Someone reacts to a comment, unless they did so already.
    AddCommentReaction { comment_id: i64, username: String, emoji: String },
    /// Someone takes a reaction to a comment back.
    RemoveCommentReaction { comment_id: i64, username: String, emoji: String },
    /// There are no donation addresses.
    ClearDonations,
    /// There is one more donation address.
    InsertDonation { label: String, address: String, sort_order: i64 },
    /// There is one more poll.
    InsertPoll { question: String, multi_choice: bool, closes_at: Option<i64>, created_by: String },
    /// A poll has one more option.
    InsertPollOption { poll_id: i64, text: String, sort_order: i64 },
    /// Someone has no votes in a poll.
    ClearVotes { poll_id: i64, username: String },
    /// Someone votes, unless they did so already.
    AddVote { poll_id: i64, option_id: i64, username: String },
    /// There is one more custom role.
    InsertRole { name: String, color: String, permissions: i64, sort_order: i64 },
    /// A role has another name, color and permission set.
    UpdateRole { name: String, color: String, permissions: i64, role_id: i64 },
    /// A role is gone.
    DeleteRole { role_id: i64 },
    /// A file was uploaded.
    InsertMedia { id: String, uploader: String, original_filename: String, mime_type: String, size_bytes: i64, url: String, provider: String },
}

/// The model of a [`Write`].
pub enum Change {
    DeleteMember { username: Seq<char> },
    InsertMember { username: Seq<char>, display_name: Seq<char>, public_key: Seq<char>, role: Seq<char> },
    InsertMemberIfAbsent { username: Seq<char>, display_name: Seq<char>, public_key: Seq<char>, role: Seq<char> },
    RestoreMember { username: Seq<char>, display_name: Seq<char>, public_key: Seq<char> },
    UpdateMemberIdentity { public_key: Seq<char>, display_name: Seq<char>, username: Seq<char> },
    SetMemberRole { role_id: i64, role: Seq<char>, username: Seq<char> },
    ReleaseRole { role_id: i64 },
    ReplaceBan { username: Seq<char>, banned_by: Seq<char>, reason: Option<Seq<char>> },
    DeleteBan { username: Seq<char> },
    ReplaceMute { username: Seq<char>, muted_by: Seq<char>, reason: Option<Seq<char>>, expires_at: i64 },
    DeleteMute { username: Seq<char> },
    InsertSession { username: Seq<char>, display_name: Seq<char>, token: Seq<char>, public_key: Seq<char>, password_hash: Seq<char> },
    UpdateSessionIdentity { display_name: Seq<char>, public_key: Seq<char>, username: Seq<char> },
    TouchSession { username: Seq<char> },
    AddDeviceToken { username: Seq<char>, token: Seq<char> },
    SetGroupOwner { username: Seq<char> },
    SetGroupName { name: Seq<char> },
    SetAvatarVersion { version: i64 },
    BumpAvatarVersion,
    SetSlowMode { seconds: i64 },
    UpdateSettings { description: Seq<char>, motd: Seq<char>, max_members: i64, max_message_length: i64, max_messages_per_minute: i64, default_role_id: i64 },
    ReplaceAvatar { data: Seq<u8>, mime_type: Seq<char> },
    DeleteAvatar,
    InsertMessage { sender: Seq<char>, content: Seq<char>, reply_to_id: Option<i64>, reply_to_sender: Option<Seq<char>>, reply_to_content: Option<Seq<char>>, timestamp: Seq<char>, timestamp_ms: i64 },
    DeleteOwnMessage { message_id: i64, sender: Seq<char> },
    EditOwnMessage { content: Seq<char>, message_id: i64, sender: Seq<char> },
    AddReaction { message_id: i64, username: Seq<char>, emoji: Seq<char> },
    RemoveReaction { message_id: i64, username: Seq<char>, emoji: Seq<char> },
    InsertComment { post_id: i64, sender: Seq<char>, content: Seq<char>, reply_to_id: Option<i64>, reply_to_sender: Option<Seq<char>>, reply_to_content: Option<Seq<char>>, timestamp: Seq<char>, timestamp_ms: i64 },
    EditOwnComment { content: Seq<char>, comment_id: i64, sender: Seq<char> },
    DeleteComment { comment_id: i64 },
    DeleteOwnComment { comment_id: i64, sender: Seq<char> },
    AddCommentReaction { comment_id: i64, username: Seq<char>, emoji: Seq<char> },
    RemoveCommentReaction { comment_id: i64, username: Seq<char>, emoji: Seq<char> },
    ClearDonations,
    InsertDonation { label: Seq<char>, address: Seq<char>, sort_order: i64 },
    InsertPoll { question: Seq<char>, multi_choice: bool, closes_at: Option<i64>, created_by: Seq<char> },
    InsertPollOption { poll_id: i64, text: Seq<char>, sort_order: i64 },
    ClearVotes { poll_id: i64, username: Seq<char> },
    AddVote { poll_id: i64, option_id: i64, username: Seq<char> },
    InsertRole { name: Seq<char>, color: Seq<char>, permissions: i64, sort_order: i64 },
    UpdateRole { name: Seq<char>, color: Seq<char>, permissions: i64, role_id: i64 },
    DeleteRole { role_id: i64 },
    InsertMedia { id: Seq<char>, uploader: Seq<char>, original_filename: Seq<char>, mime_type: Seq<char>, size_bytes: i64, url: Seq<char>, provider: Seq<char> },
}

impl View for Write {
    type V = Change;

    open spec fn view(&self) -> Change {
        match self {
            Write::DeleteMember { username } => Change::DeleteMember { username: username@ },
            Write::InsertMember { username, display_name, public_key, role } => Change::InsertMember { username: username@, display_name: display_name@, public_key: public_key@, role: role@ },
            Write::InsertMemberIfAbsent { username, display_name, public_key, role } => Change::InsertMemberIfAbsent { username: username@, display_name: display_name@, public_key: public_key@, role: role@ },
            Write::RestoreMember { username, display_name, public_key } => Change::RestoreMember { username: username@, display_name: display_name@, public_key: public_key@ },
            Write::UpdateMemberIdentity { public_key, display_name, username } => Change::UpdateMemberIdentity { public_key: public_key@, display_name: display_name@, username: username@ },
            Write::SetMemberRole { role_id, role, username } => Change::SetMemberRole { role_id: *role_id, role: role@, username: username@ },
            Write::ReleaseRole { role_id } => Change::ReleaseRole { role_id: *role_id },
            Write::ReplaceBan { username, banned_by, reason } => Change::ReplaceBan { username: username@, banned_by: banned_by@, reason: opt_text(*reason) },
            Write::DeleteBan { username } => Change::DeleteBan { username: username@ },
            Write::ReplaceMute { username, muted_by, reason, expires_at } => Change::ReplaceMute { username: username@, muted_by: muted_by@, reason: opt_text(*reason), expires_at: *expires_at },
            Write::DeleteMute { username } => Change::DeleteMute { username: username@ },
            Write::InsertSession { username, display_name, token, public_key, password_hash } => Change::InsertSession { username: username@, display_name: display_name@, token: token@, public_key: public_key@, password_hash: password_hash@ },
            Write::UpdateSessionIdentity { display_name, public_key, username } => Change::UpdateSessionIdentity { display_name: display_name@, public_key: public_key@, username: username@ },
            Write::TouchSession { username } => Change::TouchSession { username: username@ },
            Write::AddDeviceToken { username, token } => Change::AddDeviceToken { username: username@, token: token@ },
            Write::SetGroupOwner { username } => Change::SetGroupOwner { username: username@ },
            Write::SetGroupName { name } => Change::SetGroupName { name: name@ },
            Write::SetAvatarVersion { version } => Change::SetAvatarVersion { version: *version },
            Write::BumpAvatarVersion => Change::BumpAvatarVersion,
            Write::SetSlowMode { seconds } => Change::SetSlowMode { seconds: *seconds },
            Write::UpdateSettings { description, motd, max_members, max_message_length, max_messages_per_minute, default_role_id } => Change::UpdateSettings { description: description@, motd: motd@, max_members: *max_members, max_message_length: *max_message_length, max_messages_per_minute: *max_messages_per_minute, default_role_id: *default_role_id },
            Write::ReplaceAvatar { data, mime_type } => Change::ReplaceAvatar { data: data@, mime_type: mime_type@ },
            Write::DeleteAvatar => Change::DeleteAvatar,
            Write::InsertMessage { sender, content, reply_to_id, reply_to_sender, reply_to_content, timestamp, timestamp_ms } => Change::InsertMessage { sender: sender@, content: content@, reply_to_id: *reply_to_id, reply_to_sender: opt_text(*reply_to_sender), reply_to_content: opt_text(*reply_to_content), timestamp: timestamp@, timestamp_ms: *timestamp_ms },
            Write::DeleteOwnMessage { message_id, sender } => Change::DeleteOwnMessage { message_id: *message_id, sender: sender@ },
            Write::EditOwnMessage { content, message_id, sender } => Change::EditOwnMessage { content: content@, message_id: *message_id, sender: sender@ },
            Write::AddReaction { message_id, username, emoji } => Change::AddReaction { message_id: *message_id, username: username@, emoji: emoji@ },
            Write::RemoveReaction { message_id, username, emoji } => Change::RemoveReaction { message_id: *message_id, username: username@, emoji: emoji@ },
            Write::InsertComment { post_id, sender, content, reply_to_id, reply_to_sender, reply_to_content, timestamp, timestamp_ms } => Change::InsertComment { post_id: *post_id, sender: sender@, content: content@, reply_to_id: *reply_to_id, reply_to_sender: opt_text(*reply_to_sender), reply_to_content: opt_text(*reply_to_content), timestamp: timestamp@, timestamp_ms: *timestamp_ms },
            Write::EditOwnComment { content, comment_id, sender } => Change::EditOwnComment { content: content@, comment_id: *comment_id, sender: sender@ },
            Write::DeleteComment { comment_id } => Change::DeleteComment { comment_id: *comment_id },
            Write::DeleteOwnComment { comment_id, sender } => Change::DeleteOwnComment { comment_id: *comment_id, sender: sender@ },
            Write::AddCommentReaction { comment_id, username, emoji } => Change::AddCommentReaction { comment_id: *comment_id, username: username@, emoji: emoji@ },
            Write::RemoveCommentReaction { comment_id, username, emoji } => Change::RemoveCommentReaction { comment_id: *comment_id, username: username@, emoji: emoji@ },
            Write::ClearDonations => Change::ClearDonations,
            Write::InsertDonation { label, address, sort_order } => Change::InsertDonation { label: label@, address: address@, sort_order: *sort_order },
            Write::InsertPoll { question, multi_choice, closes_at, created_by } => Change::InsertPoll { question: question@, multi_choice: *multi_choice, closes_at: *closes_at, created_by: created_by@ },
            Write::InsertPollOption { poll_id, text, sort_order } => Change::InsertPollOption { poll_id: *poll_id, text: text@, sort_order: *sort_order },
            Write::ClearVotes { poll_id, username } => Change::ClearVotes { poll_id: *poll_id, username: username@ },
            Write::AddVote { poll_id, option_id, username } => Change::AddVote { poll_id: *poll_id, option_id: *option_id, username: username@ },
            Write::InsertRole { name, color, permissions, sort_order } => Change::InsertRole { name: name@, color: color@, permissions: *permissions, sort_order: *sort_order },
            Write::UpdateRole { name, color, permissions, role_id } => Change::UpdateRole { name: name@, color: color@, permissions: *permissions, role_id: *role_id },
            Write::DeleteRole { role_id } => Change::DeleteRole { role_id: *role_id },
            Write::InsertMedia { id, uploader, original_filename, mime_type, size_bytes, url, provider } => Change::InsertMedia { id: id@, uploader: uploader@, original_filename: original_filename@, mime_type: mime_type@, size_bytes: *size_bytes, url: url@, provider: provider@ },
        }
    }
}

/// The models of some writes.
pub open spec fn changes(writes: Seq<Write>) -> Seq<Change> {
    writes.map_values(|w: Write| w@)
}

/// A parameter of a statement.
pub enum SqlValue {
    Null,
    Int(i64),
    Text(String),
    Blob(Vec<u8>),
}

/// The model of a [`SqlValue`].
pub enum Param {
    Null,
    Int(i64),
    Text(Seq<char>),
    Blob(Seq<u8>),
}

impl View for SqlValue {
    type V = Param;

    open spec fn view(&self) -> Param {
        match self {
            SqlValue::Null => Param::Null,
            SqlValue::Int(n) => Param::Int(*n),
            SqlValue::Text(s) => Param::Text(s@),
            SqlValue::Blob(b) => Param::Blob(b@),
        }
    }
}

/// The parameter for an optional text.
pub open spec fn text_param(s: Option<Seq<char>>) -> Param {
    match s {
        Some(t) => Param::Text(t),
        None => Param::Null,
    }
}

/// The parameter for an optional number.
pub open spec fn int_param(n: Option<i64>) -> Param {
    match n {
        Some(v) => Param::Int(v),
        None => Param::Null,
    }
}

/// A statement with its parameters, the first of which is `?1`.
pub struct Statement {
    pub sql: &'static str,
    pub params: Vec<SqlValue>,
}

/// The models of some parameters.
pub open spec fn params_of(params: Seq<SqlValue>) -> Seq<Param> {
    params.map_values(|p: SqlValue| p@)
}

impl View for Statement {
    type V = (Seq<char>, Seq<Param>);

    open spec fn view(&self) -> (Seq<char>, Seq<Param>) {
        (self.sql@, params_of(self.params@))
    }
}

impl Statement {
    /// A statement without parameters.
    pub fn new(sql: &'static str) -> (res: Statement)
        ensures
            res@ == (sql@, Seq::<Param>::empty()),
    {
        let res = Statement { sql, params: Vec::new() };
        assert(res@.1 =~= Seq::<Param>::empty());
        res
    }

    fn param(self, value: SqlValue) -> (res: Statement)
        ensures
            res@ == (self@.0, self@.1.push(value@)),
    {
        let sql = self.sql;
        let mut params = self.params;
        params.push(value);
        let res = Statement { sql, params };
        assert(res@.1 =~= self@.1.push(value@));
        res
    }

    /// With one more parameter, a number.
    pub fn number(self, n: i64) -> (res: Statement)
        ensures
            res@ == (self@.0, self@.1.push(Param::Int(n))),
    {
        self.param(SqlValue::Int(n))
    }

    /// With one more parameter, a text.
    pub fn text(self, s: &str) -> (res: Statement)
        ensures
            res@ == (self@.0, self@.1.push(Param::Text(s@))),
    {
        self.param(SqlValue::Text(s.to_owned()))
    }

    fn blob(self, b: &Vec<u8>) -> (res: Statement)
        ensures
            res@ == (self@.0, self@.1.push(Param::Blob(b@))),
    {
        let mut copy: Vec<u8> = Vec::new();
        copy.extend_from_slice(b.as_slice());
        assert(copy@ =~= b@);
        self.param(SqlValue::Blob(copy))
    }

    fn text_or_null(self, s: &Option<String>) -> (res: Statement)
        ensures
            res@ == (self@.0, self@.1.push(text_param(opt_text(*s)))),
    {
        match s {
            Some(t) => self.param(SqlValue::Text(t.clone())),
            None => self.param(SqlValue::Null),
        }
    }

    fn number_or_null(self, n: Option<i64>) -> (res: Statement)
        ensures
            res@ == (self@.0, self@.1.push(int_param(n))),
    {
        match n {
            Some(v) => self.param(SqlValue::Int(v)),
            None => self.param(SqlValue::Null),
        }
    }
}

/// The statement that makes a change.
pub open spec fn statement_of(c: Change) -> (Seq<char>, Seq<Param>) {
    match c {
        Change::DeleteMember { username } => (
            "DELETE FROM members WHERE username = ?1"@,
            seq![Param::Text(username)],
        ),
        Change::InsertMember { username, display_name, public_key, role } => (
            "INSERT INTO members (username, display_name, public_key, role) VALUES (?1, ?2, ?3, ?4)"@,
            seq![Param::Text(username), Param::Text(display_name), Param::Text(public_key), Param::Text(role)],
        ),
        Change::InsertMemberIfAbsent { username, display_name, public_key, role } => (
            "INSERT OR IGNORE INTO members (username, display_name, public_key, role) VALUES (?1, ?2, ?3, ?4)"@,
            seq![Param::Text(username), Param::Text(display_name), Param::Text(public_key), Param::Text(role)],
        ),
        Change::RestoreMember { username, display_name, public_key } => (
            "INSERT OR REPLACE INTO members (username, display_name, public_key, role, role_id) VALUES (?1, ?2, ?3, 'member', 3)"@,
            seq![Param::Text(username), Param::Text(display_name), Param::Text(public_key)],
        ),
        Change::UpdateMemberIdentity { public_key, display_name, username } => (
            "UPDATE members SET public_key = ?1, display_name = ?2 WHERE username = ?3"@,
            seq![Param::Text(public_key), Param::Text(display_name), Param::Text(username)],
        ),
        Change::SetMemberRole { role_id, role, username } => (
            "UPDATE members SET role_id = ?1, role = ?2 WHERE username = ?3"@,
            seq![Param::Int(role_id), Param::Text(role), Param::Text(username)],
        ),
        Change::ReleaseRole { role_id } => (
            "UPDATE members SET role_id = 3, role = 'member' WHERE role_id = ?1"@,
            seq![Param::Int(role_id)],
        ),
        Change::ReplaceBan { username, banned_by, reason } => (
            "INSERT OR REPLACE INTO bans (username, banned_by, reason) VALUES (?1, ?2, ?3)"@,
            seq![Param::Text(username), Param::Text(banned_by), text_param(reason)],
        ),
        Change::DeleteBan { username } => (
            "DELETE FROM bans WHERE username = ?1"@,
            seq![Param::Text(username)],
        ),
        Change::ReplaceMute { username, muted_by, reason, expires_at } => (
            "INSERT OR REPLACE INTO mutes (username, muted_by, reason, expires_at) VALUES (?1, ?2, ?3, ?4)"@,
            seq![Param::Text(username), Param::Text(muted_by), text_param(reason), Param::Int(expires_at)],
        ),
        Change::DeleteMute { username } => (
            "DELETE FROM mutes WHERE username = ?1"@,
            seq![Param::Text(username)],
        ),
        Change::InsertSession { username, display_name, token, public_key, password_hash } => (
            "INSERT INTO sessions (username, display_name, token, public_key, password_hash) VALUES (?1, ?2, ?3, ?4, ?5)"@,
            seq![Param::Text(username), Param::Text(display_name), Param::Text(token), Param::Text(public_key), Param::Text(password_hash)],
        ),
        Change::UpdateSessionIdentity { display_name, public_key, username } => (
            "UPDATE sessions SET display_name = ?1, public_key = ?2, last_seen = datetime('now') WHERE username = ?3"@,
            seq![Param::Text(display_name), Param::Text(public_key), Param::Text(username)],
        ),
        Change::TouchSession { username } => (
            "UPDATE sessions SET last_seen = datetime('now') WHERE username = ?1"@,
            seq![Param::Text(username)],
        ),
        Change::AddDeviceToken { username, token } => (
            "INSERT OR IGNORE INTO device_tokens (username, token) VALUES (?1, ?2)"@,
            seq![Param::Text(username), Param::Text(token)],
        ),
        Change::SetGroupOwner { username } => (
            "UPDATE group_info SET owner_username = ?1 WHERE id = 1"@,
            seq![Param::Text(username)],
        ),
        Change::SetGroupName { name } => (
            "UPDATE group_info SET name = ?1 WHERE id = 1"@,
            seq![Param::Text(name)],
        ),
        Change::SetAvatarVersion { version } => (
            "UPDATE group_info SET avatar_version = ?1 WHERE id = 1"@,
            seq![Param::Int(version)],
        ),
        Change::BumpAvatarVersion => (
            "UPDATE group_info SET avatar_version = avatar_version + 1 WHERE id = 1"@,
            Seq::empty(),
        ),
        Change::SetSlowMode { seconds } => (
            "UPDATE group_info SET slow_mode_seconds = ?1 WHERE id = 1"@,
            seq![Param::Int(seconds)],
        ),
        Change::UpdateSettings { description, motd, max_members, max_message_length, max_messages_per_minute, default_role_id } => (
            "UPDATE group_info SET description = ?1, motd = ?2, max_members = ?3, max_message_length = ?4, max_messages_per_minute = ?5, default_role_id = ?6 WHERE id = 1"@,
            seq![Param::Text(description), Param::Text(motd), Param::Int(max_members), Param::Int(max_message_length), Param::Int(max_messages_per_minute), Param::Int(default_role_id)],
        ),
        Change::ReplaceAvatar { data, mime_type } => (
            "INSERT OR REPLACE INTO group_avatar (id, data, mime_type, updated_at) VALUES (1, ?1, ?2, datetime('now'))"@,
            seq![Param::Blob(data), Param::Text(mime_type)],
        ),
        Change::DeleteAvatar => (
            "DELETE FROM group_avatar WHERE id = 1"@,
            Seq::empty(),
        ),
        Change::InsertMessage { sender, content, reply_to_id, reply_to_sender, reply_to_content, timestamp, timestamp_ms } => (
            "INSERT INTO messages (sender_username, content, reply_to_id, reply_to_sender, reply_to_content, timestamp, timestamp_ms) VALUES (?1, ?2, ?3, ?4, ?5, ?6, ?7)"@,
            seq![Param::Text(sender), Param::Text(content), int_param(reply_to_id), text_param(reply_to_sender), text_param(reply_to_content), Param::Text(timestamp), Param::Int(timestamp_ms)],
        ),
        Change::DeleteOwnMessage { message_id, sender } => (
            "DELETE FROM messages WHERE id = ?1 AND sender_username = ?2"@,
            seq![Param::Int(message_id), Param::Text(sender)],
        ),
        Change::EditOwnMessage { content, message_id, sender } => (
            "UPDATE messages SET content = ?1 WHERE id = ?2 AND sender_username = ?3"@,
            seq![Param::Text(content), Param::Int(message_id), Param::Text(sender)],
        ),
        Change::AddReaction { message_id, username, emoji } => (
            "INSERT OR IGNORE INTO message_reactions (message_id, reactor_username, emoji) VALUES (?1, ?2, ?3)"@,
            seq![Param::Int(message_id), Param::Text(username), Param::Text(emoji)],
        ),
        Change::RemoveReaction { message_id, username, emoji } => (
            "DELETE FROM message_reactions WHERE message_id = ?1 AND reactor_username = ?2 AND emoji = ?3"@,
            seq![Param::Int(message_id), Param::Text(username), Param::Text(emoji)],
        ),
        Change::InsertComment { post_id, sender, content, reply_to_id, reply_to_sender, reply_to_content, timestamp, timestamp_ms } => (
            "INSERT INTO comments (post_id, sender_username, content, reply_to_id, reply_to_sender, reply_to_content, timestamp, timestamp_ms) VALUES (?1, ?2, ?3, ?4, ?5, ?6, ?7, ?8)"@,
            seq![Param::Int(post_id), Param::Text(sender), Param::Text(content), int_param(reply_to_id), text_param(reply_to_sender), text_param(reply_to_content), Param::Text(timestamp), Param::Int(timestamp_ms)],
        ),
        Change::EditOwnComment { content, comment_id, sender } => (
            "UPDATE comments SET content = ?1 WHERE id = ?2 AND sender_username = ?3"@,
            seq![Param::Text(content), Param::Int(comment_id), Param::Text(sender)],
        ),
        Change::DeleteComment { comment_id } => (
            "DELETE FROM comments WHERE id = ?1"@,
            seq![Param::Int(comment_id)],
        ),
        Change::DeleteOwnComment { comment_id, sender } => (
            "DELETE FROM comments WHERE id = ?1 AND sender_username = ?2"@,
            seq![Param::Int(comment_id), Param::Text(sender)],
        ),
        Change::AddCommentReaction { comment_id, username, emoji } => (
            "INSERT OR IGNORE INTO comment_reactions (comment_id, reactor_username, emoji) VALUES (?1, ?2, ?3)"@,
            seq![Param::Int(comment_id), Param::Text(username), Param::Text(emoji)],
        ),
        Change::RemoveCommentReaction { comment_id, username, emoji } => (
            "DELETE FROM comment_reactions WHERE comment_id = ?1 AND reactor_username = ?2 AND emoji = ?3"@,
            seq![Param::Int(comment_id), Param::Text(username), Param::Text(emoji)],
        ),
        Change::ClearDonations => (
            "DELETE FROM donation_addresses"@,
            Seq::empty(),
        ),
        Change::InsertDonation { label, address, sort_order } => (
            "INSERT INTO donation_addresses (label, address, sort_order) VALUES (?1, ?2, ?3)"@,
            seq![Param::Text(label), Param::Text(address), Param::Int(sort_order)],
        ),
        Change::InsertPoll { question, multi_choice, closes_at, created_by } => (
            "INSERT INTO polls (question, multi_choice, closes_at, created_by) VALUES (?1, ?2, ?3, ?4)"@,
            seq![Param::Text(question), Param::Int(if multi_choice { 1 } else { 0 }), int_param(closes_at), Param::Text(created_by)],
        ),
        Change::InsertPollOption { poll_id, text, sort_order } => (
            "INSERT INTO poll_options (poll_id, text, sort_order) VALUES (?1, ?2, ?3)"@,
            seq![Param::Int(poll_id), Param::Text(text), Param::Int(sort_order)],
        ),
        Change::ClearVotes { poll_id, username } => (
            "DELETE FROM poll_votes WHERE poll_id = ?1 AND username = ?2"@,
            seq![Param::Int(poll_id), Param::Text(username)],
        ),
        Change::AddVote { poll_id, option_id, username } => (
            "INSERT OR IGNORE INTO poll_votes (poll_id, option_id, username) VALUES (?1, ?2, ?3)"@,
            seq![Param::Int(poll_id), Param::Int(option_id), Param::Text(username)],
        ),
        Change::InsertRole { name, color, permissions, sort_order } => (
            "INSERT INTO roles (name, color, permissions, is_system, sort_order) VALUES (?1, ?2, ?3, 0, ?4)"@,
            seq![Param::Text(name), Param::Text(color), Param::Int(permissions), Param::Int(sort_order)],
        ),
        Change::UpdateRole { name, color, permissions, role_id } => (
            "UPDATE roles SET name = ?1, color = ?2, permissions = ?3 WHERE id = ?4"@,
            seq![Param::Text(name), Param::Text(color), Param::Int(permissions), Param::Int(role_id)],
        ),
        Change::DeleteRole { role_id } => (
            "DELETE FROM roles WHERE id = ?1"@,
            seq![Param::Int(role_id)],
        ),
        Change::InsertMedia { id, uploader, original_filename, mime_type, size_bytes, url, provider } => (
            "INSERT INTO media (id, uploader_username, original_filename, mime_type, size_bytes, storage_path, provider) VALUES (?1, ?2, ?3, ?4, ?5, ?6, ?7)"@,
            seq![Param::Text(id), Param::Text(uploader), Param::Text(original_filename), Param::Text(mime_type), Param::Int(size_bytes), Param::Text(url), Param::Text(provider)],
        ),
    }
}

impl Write {
    /// The statement that makes the change.
    pub fn statement(&self) -> (res: Statement)
        ensures
            res@ == statement_of(self@),
    {
        match self {
            Write::DeleteMember { username } => Statement::new(
                "DELETE FROM members WHERE username = ?1",
            ).text(username.as_str()),
            Write::InsertMember { username, display_name, public_key, role } => Statement::new(
                "INSERT INTO members (username, display_name, public_key, role) VALUES (?1, ?2, ?3, ?4)",
            ).text(username.as_str()).text(display_name.as_str()).text(public_key.as_str()).text(role.as_str()),
            Write::InsertMemberIfAbsent { username, display_name, public_key, role } => Statement::new(
                "INSERT OR IGNORE INTO members (username, display_name, public_key, role) VALUES (?1, ?2, ?3, ?4)",
            ).text(username.as_str()).text(display_name.as_str()).text(public_key.as_str()).text(role.as_str()),
            Write::RestoreMember { username, display_name, public_key } => Statement::new(
                "INSERT OR REPLACE INTO members (username, display_name, public_key, role, role_id) VALUES (?1, ?2, ?3, 'member', 3)",
            ).text(username.as_str()).text(display_name.as_str()).text(public_key.as_str()),
            Write::UpdateMemberIdentity { public_key, display_name, username } => Statement::new(
                "UPDATE members SET public_key = ?1, display_name = ?2 WHERE username = ?3",
            ).text(public_key.as_str()).text(display_name.as_str()).text(username.as_str()),
            Write::SetMemberRole { role_id, role, username } => Statement::new(
                "UPDATE members SET role_id = ?1, role = ?2 WHERE username = ?3",
            ).number(*role_id).text(role.as_str()).text(username.as_str()),
            Write::ReleaseRole { role_id } => Statement::new(
                "UPDATE members SET role_id = 3, role = 'member' WHERE role_id = ?1",
            ).number(*role_id),
            Write::ReplaceBan { username, banned_by, reason } => Statement::new(
                "INSERT OR REPLACE INTO bans (username, banned_by, reason) VALUES (?1, ?2, ?3)",
            ).text(username.as_str()).text(banned_by.as_str()).text_or_null(reason),
            Write::DeleteBan { username } => Statement::new(
                "DELETE FROM bans WHERE username = ?1",
            ).text(username.as_str()),
            Write::ReplaceMute { username, muted_by, reason, expires_at } => Statement::new(
                "INSERT OR REPLACE INTO mutes (username, muted_by, reason, expires_at) VALUES (?1, ?2, ?3, ?4)",
            ).text(username.as_str()).text(muted_by.as_str()).text_or_null(reason).number(*expires_at),
            Write::DeleteMute { username } => Statement::new(
                "DELETE FROM mutes WHERE username = ?1",
            ).text(username.as_str()),
            Write::InsertSession { username, display_name, token, public_key, password_hash } => Statement::new(
                "INSERT INTO sessions (username, display_name, token, public_key, password_hash) VALUES (?1, ?2, ?3, ?4, ?5)",
            ).text(username.as_str()).text(display_name.as_str()).text(token.as_str()).text(public_key.as_str()).text(password_hash.as_str()),
            Write::UpdateSessionIdentity { display_name, public_key, username } => Statement::new(
                "UPDATE sessions SET display_name = ?1, public_key = ?2, last_seen = datetime('now') WHERE username = ?3",
            ).text(display_name.as_str()).text(public_key.as_str()).text(username.as_str()),
            Write::TouchSession { username } => Statement::new(
                "UPDATE sessions SET last_seen = datetime('now') WHERE username = ?1",
            ).text(username.as_str()),
            Write::AddDeviceToken { username, token } => Statement::new(
                "INSERT OR IGNORE INTO device_tokens (username, token) VALUES (?1, ?2)",
            ).text(username.as_str()).text(token.as_str()),
            Write::SetGroupOwner { username } => Statement::new(
                "UPDATE group_info SET owner_username = ?1 WHERE id = 1",
            ).text(username.as_str()),
            Write::SetGroupName { name } => Statement::new(
                "UPDATE group_info SET name = ?1 WHERE id = 1",
            ).text(name.as_str()),
            Write::SetAvatarVersion { version } => Statement::new(
                "UPDATE group_info SET avatar_version = ?1 WHERE id = 1",
            ).number(*version),
            Write::BumpAvatarVersion => Statement::new(
                "UPDATE group_info SET avatar_version = avatar_version + 1 WHERE id = 1",
            ),
            Write::SetSlowMode { seconds } => Statement::new(
                "UPDATE group_info SET slow_mode_seconds = ?1 WHERE id = 1",
            ).number(*seconds),
            Write::UpdateSettings { description, motd, max_members, max_message_length, max_messages_per_minute, default_role_id } => Statement::new(
                "UPDATE group_info SET description = ?1, motd = ?2, max_members = ?3, max_message_length = ?4, max_messages_per_minute = ?5, default_role_id = ?6 WHERE id = 1",
            ).text(description.as_str()).text(motd.as_str()).number(*max_members).number(*max_message_length).number(*max_messages_per_minute).number(*default_role_id),
            Write::ReplaceAvatar { data, mime_type } => Statement::new(
                "INSERT OR REPLACE INTO group_avatar (id, data, mime_type, updated_at) VALUES (1, ?1, ?2, datetime('now'))",
            ).blob(data).text(mime_type.as_str()),
            Write::DeleteAvatar => Statement::new(
                "DELETE FROM group_avatar WHERE id = 1",
            ),
            Write::InsertMessage { sender, content, reply_to_id, reply_to_sender, reply_to_content, timestamp, timestamp_ms } => Statement::new(
                "INSERT INTO messages (sender_username, content, reply_to_id, reply_to_sender, reply_to_content, timestamp, timestamp_ms) VALUES (?1, ?2, ?3, ?4, ?5, ?6, ?7)",
            ).text(sender.as_str()).text(content.as_str()).number_or_null(*reply_to_id).text_or_null(reply_to_sender).text_or_null(reply_to_content).text(timestamp.as_str()).number(*timestamp_ms),
            Write::DeleteOwnMessage { message_id, sender } => Statement::new(
                "DELETE FROM messages WHERE id = ?1 AND sender_username = ?2",
            ).number(*message_id).text(sender.as_str()),
            Write::EditOwnMessage { content, message_id, sender } => Statement::new(
                "UPDATE messages SET content = ?1 WHERE id = ?2 AND sender_username = ?3",
            ).text(content.as_str()).number(*message_id).text(sender.as_str()),
            Write::AddReaction { message_id, username, emoji } => Statement::new(
                "INSERT OR IGNORE INTO message_reactions (message_id, reactor_username, emoji) VALUES (?1, ?2, ?3)",
            ).number(*message_id).text(username.as_str()).text(emoji.as_str()),
            Write::RemoveReaction { message_id, username, emoji } => Statement::new(
                "DELETE FROM message_reactions WHERE message_id = ?1 AND reactor_username = ?2 AND emoji = ?3",
            ).number(*message_id).text(username.as_str()).text(emoji.as_str()),
            Write::InsertComment { post_id, sender, content, reply_to_id, reply_to_sender, reply_to_content, timestamp, timestamp_ms } => Statement::new(
                "INSERT INTO comments (post_id, sender_username, content, reply_to_id, reply_to_sender, reply_to_content, timestamp, timestamp_ms) VALUES (?1, ?2, ?3, ?4, ?5, ?6, ?7, ?8)",
            ).number(*post_id).text(sender.as_str()).text(content.as_str()).number_or_null(*reply_to_id).text_or_null(reply_to_sender).text_or_null(reply_to_content).text(timestamp.as_str()).number(*timestamp_ms),
            Write::EditOwnComment { content, comment_id, sender } => Statement::new(
                "UPDATE comments SET content = ?1 WHERE id = ?2 AND sender_username = ?3",
            ).text(content.as_str()).number(*comment_id).text(sender.as_str()),
            Write::DeleteComment { comment_id } => Statement::new(
                "DELETE FROM comments WHERE id = ?1",
            ).number(*comment_id),
            Write::DeleteOwnComment { comment_id, sender } => Statement::new(
                "DELETE FROM comments WHERE id = ?1 AND sender_username = ?2",
            ).number(*comment_id).text(sender.as_str()),
            Write::AddCommentReaction { comment_id, username, emoji } => Statement::new(
                "INSERT OR IGNORE INTO comment_reactions (comment_id, reactor_username, emoji) VALUES (?1, ?2, ?3)",
            ).number(*comment_id).text(username.as_str()).text(emoji.as_str()),
            Write::RemoveCommentReaction { comment_id, username, emoji } => Statement::new(
                "DELETE FROM comment_reactions WHERE comment_id = ?1 AND reactor_username = ?2 AND emoji = ?3",
            ).number(*comment_id).text(username.as_str()).text(emoji.as_str()),
            Write::ClearDonations => Statement::new(
                "DELETE FROM donation_addresses",
            ),
            Write::InsertDonation { label, address, sort_order } => Statement::new(
                "INSERT INTO donation_addresses (label, address, sort_order) VALUES (?1, ?2, ?3)",
            ).text(label.as_str()).text(address.as_str()).number(*sort_order),
            Write::InsertPoll { question, multi_choice, closes_at, created_by } => Statement::new(
                "INSERT INTO polls (question, multi_choice, closes_at, created_by) VALUES (?1, ?2, ?3, ?4)",
            ).text(question.as_str()).number(if *multi_choice { 1 } else { 0 }).number_or_null(*closes_at).text(created_by.as_str()),
            Write::InsertPollOption { poll_id, text, sort_order } => Statement::new(
                "INSERT INTO poll_options (poll_id, text, sort_order) VALUES (?1, ?2, ?3)",
            ).number(*poll_id).text(text.as_str()).number(*sort_order),
            Write::ClearVotes { poll_id, username } => Statement::new(
                "DELETE FROM poll_votes WHERE poll_id = ?1 AND username = ?2",
            ).number(*poll_id).text(username.as_str()),
            Write::AddVote { poll_id, option_id, username } => Statement::new(
                "INSERT OR IGNORE INTO poll_votes (poll_id, option_id, username) VALUES (?1, ?2, ?3)",
            ).number(*poll_id).number(*option_id).text(username.as_str()),
            Write::InsertRole { name, color, permissions, sort_order } => Statement::new(
                "INSERT INTO roles (name, color, permissions, is_system, sort_order) VALUES (?1, ?2, ?3, 0, ?4)",
            ).text(name.as_str()).text(color.as_str()).number(*permissions).number(*sort_order),
            Write::UpdateRole { name, color, permissions, role_id } => Statement::new(
                "UPDATE roles SET name = ?1, color = ?2, permissions = ?3 WHERE id = ?4",
            ).text(name.as_str()).text(color.as_str()).number(*permissions).number(*role_id),
            Write::DeleteRole { role_id } => Statement::new(
                "DELETE FROM roles WHERE id = ?1",
            ).number(*role_id),
            Write::InsertMedia { id, uploader, original_filename, mime_type, size_bytes, url, provider } => Statement::new(
                "INSERT INTO media (id, uploader_username, original_filename, mime_type, size_bytes, storage_path, provider) VALUES (?1, ?2, ?3, ?4, ?5, ?6, ?7)",
            ).text(id.as_str()).text(uploader.as_str()).text(original_filename.as_str()).text(mime_type.as_str()).number(*size_bytes).text(url.as_str()).text(provider.as_str()),
        }
    }
}

/// The values of a change to the members go to the columns that they are for, of
/// the member that they are of.
pub proof fn members_are_written_to_their_columns(
    username: Seq<char>,
    display_name: Seq<char>,
    public_key: Seq<char>,
    role: Seq<char>,
    role_id: i64,
)
    ensures
        ({
            let s = statement_of(
                (Change::InsertMember { username, display_name, public_key, role }),
            );
            &&& s.0
                == "INSERT INTO members (username, display_name, public_key, role) VALUES (?1, ?2, ?3, ?4)"@
            &&& s.1 =~= seq![
                Param::Text(username),
                Param::Text(display_name),
                Param::Text(public_key),
                Param::Text(role),
            ]
        }),
        ({
            let s = statement_of(
                (Change::InsertMemberIfAbsent {
                    username,
                    display_name,
                    public_key,
                    role,
                }),
            );
            &&& s.0
                == "INSERT OR IGNORE INTO members (username, display_name, public_key, role) VALUES (?1, ?2, ?3, ?4)"@
            &&& s.1 =~= seq![
                Param::Text(username),
                Param::Text(display_name),
                Param::Text(public_key),
                Param::Text(role),
            ]
        }),
        ({
            let s = statement_of(
                (Change::RestoreMember { username, display_name, public_key }),
            );
            &&& s.0
                == "INSERT OR REPLACE INTO members (username, display_name, public_key, role, role_id) VALUES (?1, ?2, ?3, 'member', 3)"@
            &&& s.1 =~= seq![
                Param::Text(username),
                Param::Text(display_name),
                Param::Text(public_key),
            ]
        }),
        ({
            let s = statement_of(
                (Change::UpdateMemberIdentity { public_key, display_name, username }),
            );
            &&& s.0
                == "UPDATE members SET public_key = ?1, display_name = ?2 WHERE username = ?3"@
            &&& s.1 =~= seq![
                Param::Text(public_key),
                Param::Text(display_name),
                Param::Text(username),
            ]
        }),
        ({
            let s = statement_of(
                (Change::SetMemberRole { role_id, role, username }),
            );
            &&& s.0
                == "UPDATE members SET role_id = ?1, role = ?2 WHERE username = ?3"@
            &&& s.1 =~= seq![
                Param::Int(role_id),
                Param::Text(role),
                Param::Text(username),
            ]
        }),
{
}

/// The values of a ban or a mute go to the columns that they are for.
pub proof fn bans_and_mutes_are_written_to_their_columns(
    username: Seq<char>,
    banned_by: Seq<char>,
    reason: Option<Seq<char>>,
    muted_by: Seq<char>,
    expires_at: i64,
)
    ensures
        ({
            let s = statement_of(
                (Change::ReplaceBan { username, banned_by, reason }),
            );
            &&& s.0
                == "INSERT OR REPLACE INTO bans (username, banned_by, reason) VALUES (?1, ?2, ?3)"@
            &&& s.1 =~= seq![
                Param::Text(username),
                Param::Text(banned_by),
                match reason {
                    Some(t) => Param::Text(t),
                    None => Param::Null,
                },
            ]
        }),
        ({
            let s = statement_of(
                (Change::ReplaceMute { username, muted_by, reason, expires_at }),
            );
            &&& s.0
                == "INSERT OR REPLACE INTO mutes (username, muted_by, reason, expires_at) VALUES (?1, ?2, ?3, ?4)"@
            &&& s.1 =~= seq![
                Param::Text(username),
                Param::Text(muted_by),
                match reason {
                    Some(t) => Param::Text(t),
                    None => Param::Null,
                },
                Param::Int(expires_at),
            ]
        }),
{
}

/// The values of a session go to the columns that they are for, and the hash of a
/// token to its user.
pub proof fn sessions_are_written_to_their_columns(
    username: Seq<char>,
    display_name: Seq<char>,
    token: Seq<char>,
    public_key: Seq<char>,
    password_hash: Seq<char>,
)
    ensures
        ({
            let s = statement_of(
                (Change::InsertSession {
                    username,
                    display_name,
                    token,
                    public_key,
                    password_hash,
                }),
            );
            &&& s.0
                == "INSERT INTO sessions (username, display_name, token, public_key, password_hash) VALUES (?1, ?2, ?3, ?4, ?5)"@
            &&& s.1 =~= seq![
                Param::Text(username),
                Param::Text(display_name),
                Param::Text(token),
                Param::Text(public_key),
                Param::Text(password_hash),
            ]
        }),
        ({
            let s = statement_of(
                (Change::UpdateSessionIdentity { display_name, public_key, username }),
            );
            &&& s.0
                == "UPDATE sessions SET display_name = ?1, public_key = ?2, last_seen = datetime('now') WHERE username = ?3"@
            &&& s.1 =~= seq![
                Param::Text(display_name),
                Param::Text(public_key),
                Param::Text(username),
            ]
        }),
        ({
            let s = statement_of(
                (Change::AddDeviceToken { username, token }),
            );
            &&& s.0
                == "INSERT OR IGNORE INTO device_tokens (username, token) VALUES (?1, ?2)"@
            &&& s.1 =~= seq![
                Param::Text(username),
                Param::Text(token),
            ]
        }),
{
}

/// The values of the group go to the columns that they are for.
pub proof fn the_group_is_written_to_its_columns(
    description: Seq<char>,
    motd: Seq<char>,
    max_members: i64,
    max_message_length: i64,
    max_messages_per_minute: i64,
    default_role_id: i64,
    data: Seq<u8>,
    mime_type: Seq<char>,
)
    ensures
        ({
            let s = statement_of(
                (Change::UpdateSettings {
                    description,
                    motd,
                    max_members,
                    max_message_length,
                    max_messages_per_minute,
                    default_role_id,
                }),
            );
            &&& s.0
                == "UPDATE group_info SET description = ?1, motd = ?2, max_members = ?3, max_message_length = ?4, max_messages_per_minute = ?5, default_role_id = ?6 WHERE id = 1"@
            &&& s.1 =~= seq![
                Param::Text(description),
                Param::Text(motd),
                Param::Int(max_members),
                Param::Int(max_message_length),
                Param::Int(max_messages_per_minute),
                Param::Int(default_role_id),
            ]
        }),
        ({
            let s = statement_of(
                (Change::ReplaceAvatar { data, mime_type }),
            );
            &&& s.0
                == "INSERT OR REPLACE INTO group_avatar (id, data, mime_type, updated_at) VALUES (1, ?1, ?2, datetime('now'))"@
            &&& s.1 =~= seq![
                Param::Blob(data),
                Param::Text(mime_type),
            ]
        }),
{
}

/// The values of a message go to the columns that they are for, and only the
/// sender's own is deleted or changed.
pub proof fn messages_are_written_to_their_columns(
    sender: Seq<char>,
    content: Seq<char>,
    reply_to_id: Option<i64>,
    reply_to_sender: Option<Seq<char>>,
    reply_to_content: Option<Seq<char>>,
    timestamp: Seq<char>,
    timestamp_ms: i64,
    message_id: i64,
    username: Seq<char>,
    emoji: Seq<char>,
)
    ensures
        ({
            let s = statement_of(
                (Change::InsertMessage {
                    sender,
                    content,
                    reply_to_id,
                    reply_to_sender,
                    reply_to_content,
                    timestamp,
                    timestamp_ms,
                }),
            );
            &&& s.0
                == "INSERT INTO messages (sender_username, content, reply_to_id, reply_to_sender, reply_to_content, timestamp, timestamp_ms) VALUES (?1, ?2, ?3, ?4, ?5, ?6, ?7)"@
            &&& s.1 =~= seq![
                Param::Text(sender),
                Param::Text(content),
                match reply_to_id {
                    Some(n) => Param::Int(n),
                    None => Param::Null,
                },
                match reply_to_sender {
                    Some(t) => Param::Text(t),
                    None => Param::Null,
                },
                match reply_to_content {
                    Some(t) => Param::Text(t),
                    None => Param::Null,
                },
                Param::Text(timestamp),
                Param::Int(timestamp_ms),
            ]
        }),
        ({
            let s = statement_of(
                (Change::DeleteOwnMessage { message_id, sender }),
            );
            &&& s.0
                == "DELETE FROM messages WHERE id = ?1 AND sender_username = ?2"@
            &&& s.1 =~= seq![
                Param::Int(message_id),
                Param::Text(sender),
            ]
        }),
        ({
            let s = statement_of(
                (Change::EditOwnMessage { content, message_id, sender }),
            );
            &&& s.0
                == "UPDATE messages SET content = ?1 WHERE id = ?2 AND sender_username = ?3"@
            &&& s.1 =~= seq![
                Param::Text(content),
                Param::Int(message_id),
                Param::Text(sender),
            ]
        }),
        ({
            let s = statement_of(
                (Change::AddReaction { message_id, username, emoji }),
            );
            &&& s.0
                == "INSERT OR IGNORE INTO message_reactions (message_id, reactor_username, emoji) VALUES (?1, ?2, ?3)"@
            &&& s.1 =~= seq![
                Param::Int(message_id),
                Param::Text(username),
                Param::Text(emoji),
            ]
        }),
        ({
            let s = statement_of(
                (Change::RemoveReaction { message_id, username, emoji }),
            );
            &&& s.0
                == "DELETE FROM message_reactions WHERE message_id = ?1 AND reactor_username = ?2 AND emoji = ?3"@
            &&& s.1 =~= seq![
                Param::Int(message_id),
                Param::Text(username),
                Param::Text(emoji),
            ]
        }),
{
}

/// The values of a comment go to the columns that they are for, and only the
/// sender's own is changed.
pub proof fn comments_are_written_to_their_columns(
    post_id: i64,
    sender: Seq<char>,
    content: Seq<char>,
    reply_to_id: Option<i64>,
    reply_to_sender: Option<Seq<char>>,
    reply_to_content: Option<Seq<char>>,
    timestamp: Seq<char>,
    timestamp_ms: i64,
    comment_id: i64,
    username: Seq<char>,
    emoji: Seq<char>,
)
    ensures
        ({
            let s = statement_of(
                (Change::InsertComment {
                    post_id,
                    sender,
                    content,
                    reply_to_id,
                    reply_to_sender,
                    reply_to_content,
                    timestamp,
                    timestamp_ms,
                }),
            );
            &&& s.0
                == "INSERT INTO comments (post_id, sender_username, content, reply_to_id, reply_to_sender, reply_to_content, timestamp, timestamp_ms) VALUES (?1, ?2, ?3, ?4, ?5, ?6, ?7, ?8)"@
            &&& s.1 =~= seq![
                Param::Int(post_id),
                Param::Text(sender),
                Param::Text(content),
                match reply_to_id {
                    Some(n) => Param::Int(n),
                    None => Param::Null,
                },
                match reply_to_sender {
                    Some(t) => Param::Text(t),
                    None => Param::Null,
                },
                match reply_to_content {
                    Some(t) => Param::Text(t),
                    None => Param::Null,
                },
                Param::Text(timestamp),
                Param::Int(timestamp_ms),
            ]
        }),
        ({
            let s = statement_of(
                (Change::EditOwnComment { content, comment_id, sender }),
            );
            &&& s.0
                == "UPDATE comments SET content = ?1 WHERE id = ?2 AND sender_username = ?3"@
            &&& s.1 =~= seq![
                Param::Text(content),
                Param::Int(comment_id),
                Param::Text(sender),
            ]
        }),
        ({
            let s = statement_of(
                (Change::DeleteOwnComment { comment_id, sender }),
            );
            &&& s.0
                == "DELETE FROM comments WHERE id = ?1 AND sender_username = ?2"@
            &&& s.1 =~= seq![
                Param::Int(comment_id),
                Param::Text(sender),
            ]
        }),
        ({
            let s = statement_of(
                (Change::AddCommentReaction { comment_id, username, emoji }),
            );
            &&& s.0
                == "INSERT OR IGNORE INTO comment_reactions (comment_id, reactor_username, emoji) VALUES (?1, ?2, ?3)"@
            &&& s.1 =~= seq![
                Param::Int(comment_id),
                Param::Text(username),
                Param::Text(emoji),
            ]
        }),
        ({
            let s = statement_of(
                (Change::RemoveCommentReaction { comment_id, username, emoji }),
            );
            &&& s.0
                == "DELETE FROM comment_reactions WHERE comment_id = ?1 AND reactor_username = ?2 AND emoji = ?3"@
            &&& s.1 =~= seq![
                Param::Int(comment_id),
                Param::Text(username),
                Param::Text(emoji),
            ]
        }),
{
}

/// The values of a poll, its options and the votes in it go to the columns that
/// they are for.
pub proof fn polls_are_written_to_their_columns(
    question: Seq<char>,
    multi_choice: bool,
    closes_at: Option<i64>,
    created_by: Seq<char>,
    poll_id: i64,
    text: Seq<char>,
    sort_order: i64,
    username: Seq<char>,
    option_id: i64,
)
    ensures
        ({
            let s = statement_of(
                (Change::InsertPoll { question, multi_choice, closes_at, created_by }),
            );
            &&& s.0
                == "INSERT INTO polls (question, multi_choice, closes_at, created_by) VALUES (?1, ?2, ?3, ?4)"@
            &&& s.1 =~= seq![
                Param::Text(question),
                Param::Int(
                    if multi_choice {
                        1
                    } else {
                        0
                    },
                ),
                match closes_at {
                    Some(n) => Param::Int(n),
                    None => Param::Null,
                },
                Param::Text(created_by),
            ]
        }),
        ({
            let s = statement_of(
                (Change::InsertPollOption { poll_id, text, sort_order }),
            );
            &&& s.0
                == "INSERT INTO poll_options (poll_id, text, sort_order) VALUES (?1, ?2, ?3)"@
            &&& s.1 =~= seq![
                Param::Int(poll_id),
                Param::Text(text),
                Param::Int(sort_order),
            ]
        }),
        ({
            let s = statement_of(
                (Change::ClearVotes { poll_id, username }),
            );
            &&& s.0
                == "DELETE FROM poll_votes WHERE poll_id = ?1 AND username = ?2"@
            &&& s.1 =~= seq![
                Param::Int(poll_id),
                Param::Text(username),
            ]
        }),
        ({
            let s = statement_of(
                (Change::AddVote { poll_id, option_id, username }),
            );
            &&& s.0
                == "INSERT OR IGNORE INTO poll_votes (poll_id, option_id, username) VALUES (?1, ?2, ?3)"@
            &&& s.1 =~= seq![
                Param::Int(poll_id),
                Param::Int(option_id),
                Param::Text(username),
            ]
        }),
{
}

/// The values of a role, a donation address and a file go to the columns that they
/// are for.
pub proof fn roles_donations_and_media_are_written_to_their_columns(
    label: Seq<char>,
    address: Seq<char>,
    sort_order: i64,
    name: Seq<char>,
    color: Seq<char>,
    permissions: i64,
    role_id: i64,
    id: Seq<char>,
    uploader: Seq<char>,
    original_filename: Seq<char>,
    mime_type: Seq<char>,
    size_bytes: i64,
    url: Seq<char>,
    provider: Seq<char>,
)
    ensures
        ({
            let s = statement_of(
                (Change::InsertDonation { label, address, sort_order }),
            );
            &&& s.0
                == "INSERT INTO donation_addresses (label, address, sort_order) VALUES (?1, ?2, ?3)"@
            &&& s.1 =~= seq![
                Param::Text(label),
                Param::Text(address),
                Param::Int(sort_order),
            ]
        }),
        ({
            let s = statement_of(
                (Change::InsertRole { name, color, permissions, sort_order }),
            );
            &&& s.0
                == "INSERT INTO roles (name, color, permissions, is_system, sort_order) VALUES (?1, ?2, ?3, 0, ?4)"@
            &&& s.1 =~= seq![
                Param::Text(name),
                Param::Text(color),
                Param::Int(permissions),
                Param::Int(sort_order),
            ]
        }),
        ({
            let s = statement_of(
                (Change::UpdateRole { name, color, permissions, role_id }),
            );
            &&& s.0
                == "UPDATE roles SET name = ?1, color = ?2, permissions = ?3 WHERE id = ?4"@
            &&& s.1 =~= seq![
                Param::Text(name),
                Param::Text(color),
                Param::Int(permissions),
                Param::Int(role_id),
            ]
        }),
        ({
            let s = statement_of(
                (Change::InsertMedia {
                    id,
                    uploader,
                    original_filename,
                    mime_type,
                    size_bytes,
                    url,
                    provider,
                }),
            );
            &&& s.0
                == "INSERT INTO media (id, uploader_username, original_filename, mime_type, size_bytes, storage_path, provider) VALUES (?1, ?2, ?3, ?4, ?5, ?6, ?7)"@
            &&& s.1 =~= seq![
                Param::Text(id),
                Param::Text(uploader),
                Param::Text(original_filename),
                Param::Text(mime_type),
                Param::Int(size_bytes),
                Param::Text(url),
                Param::Text(provider),
            ]
        }),
{
}

} // verus!
