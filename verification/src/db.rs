//! The database's tables, and how those of an earlier version are brought up
//! to date.

use crate::group::{may, number_of, role_id_of, GroupDb, RoleRow};
use crate::models::permission::{
    flag, Permission, ALL_BITS, BAN_MEMBERS, CREATE_POLLS, DELETE_MESSAGES, FLAG_COUNT, KICK_MEMBERS,
    MANAGE_DONATIONS, MANAGE_MEMBERS, MANAGE_ROLES, MANAGE_SETTINGS, MANAGE_SLOW_MODE, MUTE_MEMBERS, POST_IN_CHANNEL, VIEW_BAN_LIST, VIEW_INVITE_LINK, VIEW_MUTE_LIST,
};
use crate::text::{glue, glue3};
use vstd::prelude::*;

verus! {

/// The settings that a connection starts with.
pub fn pragmas() -> (res: &'static str)
    ensures
        res@ == "PRAGMA journal_mode=WAL; PRAGMA foreign_keys=ON;"@,
{
    "PRAGMA journal_mode=WAL; PRAGMA foreign_keys=ON;"
}

/// The statements that make the tables that are missing.
pub const TABLES: &'static str = "
        CREATE TABLE IF NOT EXISTS group_info (
            id INTEGER PRIMARY KEY CHECK (id = 1),
            name TEXT NOT NULL,
            description TEXT DEFAULT '',
            is_channel INTEGER NOT NULL DEFAULT 0,
            owner_username TEXT NOT NULL,
            invite_token TEXT NOT NULL UNIQUE,
            public_channel_token TEXT UNIQUE,
            avatar_version INTEGER NOT NULL DEFAULT 0,
            created_at TEXT NOT NULL DEFAULT (datetime('now'))
        );

        CREATE TABLE IF NOT EXISTS members (
            id INTEGER PRIMARY KEY AUTOINCREMENT,
            username TEXT NOT NULL UNIQUE,
            display_name TEXT NOT NULL,
            public_key TEXT NOT NULL DEFAULT '',
            role TEXT NOT NULL DEFAULT 'member',
            joined_at TEXT NOT NULL DEFAULT (datetime('now'))
        );

        CREATE TABLE IF NOT EXISTS sessions (
            id INTEGER PRIMARY KEY AUTOINCREMENT,
            username TEXT NOT NULL UNIQUE,
            display_name TEXT NOT NULL DEFAULT '',
            token TEXT NOT NULL UNIQUE,
            public_key TEXT NOT NULL,
            password_hash TEXT NOT NULL DEFAULT '',
            created_at TEXT NOT NULL DEFAULT (datetime('now')),
            last_seen TEXT NOT NULL DEFAULT (datetime('now'))
        );
        CREATE INDEX IF NOT EXISTS idx_sessions_token ON sessions(token);

        CREATE TABLE IF NOT EXISTS device_tokens (
            id INTEGER PRIMARY KEY AUTOINCREMENT,
            username TEXT NOT NULL,
            token TEXT NOT NULL UNIQUE,
            created_at TEXT NOT NULL DEFAULT (datetime('now')),
            last_seen TEXT NOT NULL DEFAULT (datetime('now'))
        );
        CREATE INDEX IF NOT EXISTS idx_device_tokens_token ON device_tokens(token);
        CREATE INDEX IF NOT EXISTS idx_device_tokens_username ON device_tokens(username);

        CREATE TABLE IF NOT EXISTS messages (
            id INTEGER PRIMARY KEY AUTOINCREMENT,
            sender_username TEXT NOT NULL,
            content TEXT NOT NULL,
            reply_to_id INTEGER,
            reply_to_sender TEXT,
            reply_to_content TEXT,
            timestamp TEXT NOT NULL DEFAULT (datetime('now')),
            timestamp_ms INTEGER NOT NULL DEFAULT 0
        );
        CREATE INDEX IF NOT EXISTS idx_messages_ts ON messages(timestamp_ms DESC);

        CREATE TABLE IF NOT EXISTS bans (
            id INTEGER PRIMARY KEY AUTOINCREMENT,
            username TEXT NOT NULL UNIQUE,
            banned_by TEXT NOT NULL,
            reason TEXT,
            banned_at TEXT NOT NULL DEFAULT (datetime('now'))
        );

        CREATE TABLE IF NOT EXISTS media (
            id TEXT PRIMARY KEY,
            uploader_username TEXT NOT NULL,
            original_filename TEXT NOT NULL,
            mime_type TEXT NOT NULL,
            size_bytes INTEGER NOT NULL,
            storage_path TEXT NOT NULL,
            provider TEXT NOT NULL,
            uploaded_at TEXT NOT NULL DEFAULT (datetime('now'))
        );

        CREATE TABLE IF NOT EXISTS group_avatar (
            id INTEGER PRIMARY KEY CHECK (id = 1),
            data BLOB NOT NULL,
            mime_type TEXT NOT NULL DEFAULT 'image/png',
            updated_at TEXT NOT NULL DEFAULT (datetime('now'))
        );

        CREATE TABLE IF NOT EXISTS post_views (
            id INTEGER PRIMARY KEY AUTOINCREMENT,
            message_id INTEGER NOT NULL,
            viewer_identifier TEXT NOT NULL,
            viewed_at TEXT NOT NULL DEFAULT (datetime('now')),
            UNIQUE(message_id, viewer_identifier)
        );
        CREATE INDEX IF NOT EXISTS idx_post_views_msg ON post_views(message_id);

        CREATE TABLE IF NOT EXISTS message_reactions (
            id INTEGER PRIMARY KEY AUTOINCREMENT,
            message_id INTEGER NOT NULL,
            reactor_username TEXT NOT NULL,
            emoji TEXT NOT NULL,
            created_at TEXT NOT NULL DEFAULT (datetime('now')),
            UNIQUE(message_id, reactor_username, emoji),
            FOREIGN KEY (message_id) REFERENCES messages(id) ON DELETE CASCADE
        );
        CREATE INDEX IF NOT EXISTS idx_reactions_msg ON message_reactions(message_id);

        CREATE TABLE IF NOT EXISTS mutes (
            username TEXT PRIMARY KEY,
            muted_by TEXT NOT NULL,
            reason TEXT,
            muted_at TEXT NOT NULL DEFAULT (datetime('now')),
            expires_at INTEGER NOT NULL
        );

        CREATE TABLE IF NOT EXISTS donation_addresses (
            id INTEGER PRIMARY KEY AUTOINCREMENT,
            label TEXT NOT NULL,
            address TEXT NOT NULL,
            sort_order INTEGER NOT NULL DEFAULT 0
        );

        CREATE TABLE IF NOT EXISTS polls (
            id INTEGER PRIMARY KEY AUTOINCREMENT,
            question TEXT NOT NULL,
            multi_choice INTEGER NOT NULL DEFAULT 0,
            closes_at INTEGER,
            created_by TEXT NOT NULL,
            created_at TEXT NOT NULL DEFAULT (datetime('now')),
            message_id INTEGER
        );

        CREATE TABLE IF NOT EXISTS poll_options (
            id INTEGER PRIMARY KEY AUTOINCREMENT,
            poll_id INTEGER NOT NULL,
            text TEXT NOT NULL,
            sort_order INTEGER NOT NULL DEFAULT 0,
            FOREIGN KEY (poll_id) REFERENCES polls(id) ON DELETE CASCADE
        );
        CREATE INDEX IF NOT EXISTS idx_poll_options_poll ON poll_options(poll_id);

        CREATE TABLE IF NOT EXISTS poll_votes (
            poll_id INTEGER NOT NULL,
            option_id INTEGER NOT NULL,
            username TEXT NOT NULL,
            voted_at TEXT NOT NULL DEFAULT (datetime('now')),
            PRIMARY KEY (poll_id, option_id, username),
            FOREIGN KEY (poll_id) REFERENCES polls(id) ON DELETE CASCADE,
            FOREIGN KEY (option_id) REFERENCES poll_options(id) ON DELETE CASCADE
        );
        CREATE INDEX IF NOT EXISTS idx_poll_votes_poll ON poll_votes(poll_id);

        CREATE TABLE IF NOT EXISTS roles (
            id INTEGER PRIMARY KEY AUTOINCREMENT,
            name TEXT NOT NULL,
            color TEXT NOT NULL DEFAULT '#99AAB5',
            permissions INTEGER NOT NULL DEFAULT 0,
            is_system INTEGER NOT NULL DEFAULT 0,
            sort_order INTEGER NOT NULL DEFAULT 0,
            created_at TEXT NOT NULL DEFAULT (datetime('now'))
        );
        CREATE UNIQUE INDEX IF NOT EXISTS idx_roles_name ON roles(name);

        CREATE TABLE IF NOT EXISTS join_requests (
            id INTEGER PRIMARY KEY AUTOINCREMENT,
            username TEXT NOT NULL UNIQUE,
            display_name TEXT NOT NULL,
            public_key TEXT NOT NULL DEFAULT '',
            requested_at TEXT NOT NULL DEFAULT (datetime('now'))
        );

        -- Telegram-style comment threads under a channel post. Kept
        -- separate from `messages` so channel history queries never need to
        -- filter comments out of the main feed.
        CREATE TABLE IF NOT EXISTS comments (
            id INTEGER PRIMARY KEY AUTOINCREMENT,
            post_id INTEGER NOT NULL,
            sender_username TEXT NOT NULL,
            content TEXT NOT NULL,
            reply_to_id INTEGER,
            reply_to_sender TEXT,
            reply_to_content TEXT,
            timestamp TEXT NOT NULL DEFAULT (datetime('now')),
            timestamp_ms INTEGER NOT NULL DEFAULT 0,
            FOREIGN KEY (post_id) REFERENCES messages(id) ON DELETE CASCADE
        );
        CREATE INDEX IF NOT EXISTS idx_comments_post ON comments(post_id, timestamp_ms);

        CREATE TABLE IF NOT EXISTS comment_reactions (
            id INTEGER PRIMARY KEY AUTOINCREMENT,
            comment_id INTEGER NOT NULL,
            reactor_username TEXT NOT NULL,
            emoji TEXT NOT NULL,
            created_at TEXT NOT NULL DEFAULT (datetime('now')),
            UNIQUE(comment_id, reactor_username, emoji),
            FOREIGN KEY (comment_id) REFERENCES comments(id) ON DELETE CASCADE
        );
        CREATE INDEX IF NOT EXISTS idx_comment_reactions_comment ON comment_reactions(comment_id);
";

/// The statements that make the tables that are missing.
pub fn tables() -> (res: &'static str)
    ensures
        res@ == TABLES@,
{
    TABLES
}

/// The message when the database cannot be opened.
pub fn open_failure(path: &str, error: &str) -> (res: String)
    ensures
        res@ == "Failed to open database '"@ + path@ + "': "@ + error@,
{
    glue(glue3("Failed to open database '", path, "': ").as_str(), error)
}

/// The message when a connection's settings cannot be made.
pub fn pragma_failure(error: &str) -> (res: String)
    ensures
        res@ == "Failed to set pragmas: "@ + error@,
{
    glue("Failed to set pragmas: ", error)
}

/// The message when the tables cannot be made.
pub fn table_failure(error: &str) -> (res: String)
    ensures
        res@ == "Failed to create tables: "@ + error@,
{
    glue("Failed to create tables: ", error)
}

/// A column that tables of an earlier version may lack.
#[derive(Clone, Copy, PartialEq, Eq, Structural)]
pub enum Column {
    PasswordHash,
    PublicChannelToken,
    MaxMessageLength,
    MediaProvider,
    MaxFileSize,
    AllowedFileTypes,
    RateLimit,
    SlowModeSeconds,
    RoleId,
    RequireApproval,
    DefaultRoleId,
    MaxMembers,
    Motd,
    MaxMessagesPerMinute,
}

/// The table that a column belongs to.
pub open spec fn table_of(c: Column) -> Seq<char> {
    match c {
        Column::PasswordHash => "sessions"@,
        Column::RoleId => "members"@,
        _ => "group_info"@,
    }
}

/// The name of a column.
pub open spec fn name_of(c: Column) -> Seq<char> {
    match c {
        Column::PasswordHash => "password_hash"@,
        Column::PublicChannelToken => "public_channel_token"@,
        Column::MaxMessageLength => "max_message_length"@,
        Column::MediaProvider => "media_provider"@,
        Column::MaxFileSize => "max_file_size"@,
        Column::AllowedFileTypes => "allowed_file_types"@,
        Column::RateLimit => "rate_limit"@,
        Column::SlowModeSeconds => "slow_mode_seconds"@,
        Column::RoleId => "role_id"@,
        Column::RequireApproval => "require_approval"@,
        Column::DefaultRoleId => "default_role_id"@,
        Column::MaxMembers => "max_members"@,
        Column::Motd => "motd"@,
        Column::MaxMessagesPerMinute => "max_messages_per_minute"@,
    }
}

/// Whether a column that could not be looked up is taken for a missing one.
pub open spec fn lenient(c: Column) -> bool {
    match c {
        Column::RoleId | Column::RequireApproval | Column::DefaultRoleId | Column::MaxMembers | Column::Motd | Column::MaxMessagesPerMinute => false,
        _ => true,
    }
}

/// The statements that add a column. SQLite adds no column that is unique: an index
/// makes it so.
pub open spec fn addition_of(c: Column) -> Seq<char> {
    match c {
        Column::PasswordHash => "ALTER TABLE sessions ADD COLUMN password_hash TEXT NOT NULL DEFAULT '';"@,
        Column::PublicChannelToken => "ALTER TABLE group_info ADD COLUMN public_channel_token TEXT; CREATE UNIQUE INDEX IF NOT EXISTS idx_group_info_public_channel_token ON group_info(public_channel_token);"@,
        Column::MaxMessageLength => "ALTER TABLE group_info ADD COLUMN max_message_length INTEGER DEFAULT 5000;"@,
        Column::MediaProvider => "ALTER TABLE group_info ADD COLUMN media_provider TEXT DEFAULT 'local';"@,
        Column::MaxFileSize => "ALTER TABLE group_info ADD COLUMN max_file_size INTEGER DEFAULT 10485760;"@,
        Column::AllowedFileTypes => "ALTER TABLE group_info ADD COLUMN allowed_file_types TEXT DEFAULT 'image/*,video/*,audio/*,application/pdf';"@,
        Column::RateLimit => "ALTER TABLE group_info ADD COLUMN rate_limit INTEGER DEFAULT 0;"@,
        Column::SlowModeSeconds => "ALTER TABLE group_info ADD COLUMN slow_mode_seconds INTEGER NOT NULL DEFAULT 0;"@,
        Column::RoleId => "ALTER TABLE members ADD COLUMN role_id INTEGER REFERENCES roles(id);"@,
        Column::RequireApproval => "ALTER TABLE group_info ADD COLUMN require_approval INTEGER NOT NULL DEFAULT 0;"@,
        Column::DefaultRoleId => "ALTER TABLE group_info ADD COLUMN default_role_id INTEGER REFERENCES roles(id);"@,
        Column::MaxMembers => "ALTER TABLE group_info ADD COLUMN max_members INTEGER NOT NULL DEFAULT 500;"@,
        Column::Motd => "ALTER TABLE group_info ADD COLUMN motd TEXT NOT NULL DEFAULT '';"@,
        Column::MaxMessagesPerMinute => "ALTER TABLE group_info ADD COLUMN max_messages_per_minute INTEGER NOT NULL DEFAULT 30;"@,
    }
}

impl Column {
    /// The table that the column belongs to.
    pub fn table(self) -> (res: &'static str)
        ensures
            res@ == table_of(self),
    {
        match self {
            Column::PasswordHash => "sessions",
            Column::RoleId => "members",
            _ => "group_info",
        }
    }

    /// The column's name.
    pub fn name(self) -> (res: &'static str)
        ensures
            res@ == name_of(self),
    {
        match self {
            Column::PasswordHash => "password_hash",
            Column::PublicChannelToken => "public_channel_token",
            Column::MaxMessageLength => "max_message_length",
            Column::MediaProvider => "media_provider",
            Column::MaxFileSize => "max_file_size",
            Column::AllowedFileTypes => "allowed_file_types",
            Column::RateLimit => "rate_limit",
            Column::SlowModeSeconds => "slow_mode_seconds",
            Column::RoleId => "role_id",
            Column::RequireApproval => "require_approval",
            Column::DefaultRoleId => "default_role_id",
            Column::MaxMembers => "max_members",
            Column::Motd => "motd",
            Column::MaxMessagesPerMinute => "max_messages_per_minute",
        }
    }

    /// Whether the column, if it could not be looked up, is taken for missing.
    pub fn is_lenient(self) -> (res: bool)
        ensures
            res == lenient(self),
    {
        match self {
            Column::RoleId | Column::RequireApproval | Column::DefaultRoleId | Column::MaxMembers | Column::Motd | Column::MaxMessagesPerMinute => false,
            _ => true,
        }
    }

    /// The statements that add the column.
    pub fn addition(self) -> (res: &'static str)
        ensures
            res@ == addition_of(self),
    {
        match self {
            Column::PasswordHash => "ALTER TABLE sessions ADD COLUMN password_hash TEXT NOT NULL DEFAULT '';",
            Column::PublicChannelToken => "ALTER TABLE group_info ADD COLUMN public_channel_token TEXT; CREATE UNIQUE INDEX IF NOT EXISTS idx_group_info_public_channel_token ON group_info(public_channel_token);",
            Column::MaxMessageLength => "ALTER TABLE group_info ADD COLUMN max_message_length INTEGER DEFAULT 5000;",
            Column::MediaProvider => "ALTER TABLE group_info ADD COLUMN media_provider TEXT DEFAULT 'local';",
            Column::MaxFileSize => "ALTER TABLE group_info ADD COLUMN max_file_size INTEGER DEFAULT 10485760;",
            Column::AllowedFileTypes => "ALTER TABLE group_info ADD COLUMN allowed_file_types TEXT DEFAULT 'image/*,video/*,audio/*,application/pdf';",
            Column::RateLimit => "ALTER TABLE group_info ADD COLUMN rate_limit INTEGER DEFAULT 0;",
            Column::SlowModeSeconds => "ALTER TABLE group_info ADD COLUMN slow_mode_seconds INTEGER NOT NULL DEFAULT 0;",
            Column::RoleId => "ALTER TABLE members ADD COLUMN role_id INTEGER REFERENCES roles(id);",
            Column::RequireApproval => "ALTER TABLE group_info ADD COLUMN require_approval INTEGER NOT NULL DEFAULT 0;",
            Column::DefaultRoleId => "ALTER TABLE group_info ADD COLUMN default_role_id INTEGER REFERENCES roles(id);",
            Column::MaxMembers => "ALTER TABLE group_info ADD COLUMN max_members INTEGER NOT NULL DEFAULT 500;",
            Column::Motd => "ALTER TABLE group_info ADD COLUMN motd TEXT NOT NULL DEFAULT '';",
            Column::MaxMessagesPerMinute => "ALTER TABLE group_info ADD COLUMN max_messages_per_minute INTEGER NOT NULL DEFAULT 30;",
        }
    }

    /// The query that counts the columns of that name in that table.
    pub fn query(self) -> (res: String)
        ensures
            res@ == "SELECT COUNT(*) FROM pragma_table_info('"@ + table_of(self) + "') WHERE name = '"@
                + name_of(self) + "'"@,
    {
        let head = glue3("SELECT COUNT(*) FROM pragma_table_info('", self.table(), "') WHERE name = '");
        glue3(head.as_str(), self.name(), "'")
    }
}

/// A failure or a value, with the message taken by its characters.
pub open spec fn with_text<T>(r: Result<T, String>) -> Result<T, Seq<char>> {
    match r {
        Ok(v) => Ok(v),
        Err(e) => Err(e@),
    }
}

/// Whether a table has a column, from how many it has of that name.
pub fn has_column(count: Result<i64, String>) -> (res: Result<bool, String>)
    ensures
        with_text(res) == match count {
            Ok(n) => Ok(n > 0),
            Err(e) => Err(e@),
        },
{
    match count {
        Ok(n) => Ok(n > 0),
        Err(e) => Err(e),
    }
}

/// What was found out about each column.
pub struct Columns {
    pub password_hash: Result<bool, String>,
    pub public_channel_token: Result<bool, String>,
    pub max_message_length: Result<bool, String>,
    pub media_provider: Result<bool, String>,
    pub max_file_size: Result<bool, String>,
    pub allowed_file_types: Result<bool, String>,
    pub rate_limit: Result<bool, String>,
    pub slow_mode_seconds: Result<bool, String>,
    pub role_id: Result<bool, String>,
    pub require_approval: Result<bool, String>,
    pub default_role_id: Result<bool, String>,
    pub max_members: Result<bool, String>,
    pub motd: Result<bool, String>,
    pub max_messages_per_minute: Result<bool, String>,
}

impl Columns {
    /// Whether a column is there.
    pub open spec fn has(&self, c: Column) -> Result<bool, Seq<char>> {
        match c {
            Column::PasswordHash => with_text(self.password_hash),
            Column::PublicChannelToken => with_text(self.public_channel_token),
            Column::MaxMessageLength => with_text(self.max_message_length),
            Column::MediaProvider => with_text(self.media_provider),
            Column::MaxFileSize => with_text(self.max_file_size),
            Column::AllowedFileTypes => with_text(self.allowed_file_types),
            Column::RateLimit => with_text(self.rate_limit),
            Column::SlowModeSeconds => with_text(self.slow_mode_seconds),
            Column::RoleId => with_text(self.role_id),
            Column::RequireApproval => with_text(self.require_approval),
            Column::DefaultRoleId => with_text(self.default_role_id),
            Column::MaxMembers => with_text(self.max_members),
            Column::Motd => with_text(self.motd),
            Column::MaxMessagesPerMinute => with_text(self.max_messages_per_minute),
        }
    }

    fn get(&self, c: Column) -> (res: &Result<bool, String>)
        ensures
            with_text(*res) == self.has(c),
    {
        match c {
            Column::PasswordHash => &self.password_hash,
            Column::PublicChannelToken => &self.public_channel_token,
            Column::MaxMessageLength => &self.max_message_length,
            Column::MediaProvider => &self.media_provider,
            Column::MaxFileSize => &self.max_file_size,
            Column::AllowedFileTypes => &self.allowed_file_types,
            Column::RateLimit => &self.rate_limit,
            Column::SlowModeSeconds => &self.slow_mode_seconds,
            Column::RoleId => &self.role_id,
            Column::RequireApproval => &self.require_approval,
            Column::DefaultRoleId => &self.default_role_id,
            Column::MaxMembers => &self.max_members,
            Column::Motd => &self.motd,
            Column::MaxMessagesPerMinute => &self.max_messages_per_minute,
        }
    }
}

/// A change that brings the tables up to date.
#[derive(Clone, Copy, PartialEq, Eq, Structural)]
pub enum Migration {
    /// A column is added.
    Add(Column),
    /// The system Owner role is made, unless there is a role in its place.
    SeedOwner,
    /// The system Moderator role is made, unless there is a role in its place.
    SeedModerator,
    /// The system Member role is made, unless there is a role in its place.
    SeedMember,
    /// Members without a role number get that of the role they are named after.
    FillRoleIds,
    /// A group without a default role gets the Member role.
    FillDefaultRole,
}

/// What a moderator may do.
pub open spec fn moderator_bits() -> i64 {
    KICK_MEMBERS | BAN_MEMBERS | MUTE_MEMBERS | CREATE_POLLS | POST_IN_CHANNEL | DELETE_MESSAGES
        | MANAGE_MEMBERS | MANAGE_SLOW_MODE | VIEW_BAN_LIST | VIEW_MUTE_LIST | VIEW_INVITE_LINK
}

/// What a moderator may do.
pub fn moderator_permissions() -> (res: Permission)
    ensures
        res.bits == moderator_bits(),
{
    Permission {
        bits: KICK_MEMBERS | BAN_MEMBERS | MUTE_MEMBERS | CREATE_POLLS | POST_IN_CHANNEL | DELETE_MESSAGES
            | MANAGE_MEMBERS | MANAGE_SLOW_MODE | VIEW_BAN_LIST | VIEW_MUTE_LIST | VIEW_INVITE_LINK,
    }
}

/// The statements of a migration.
pub open spec fn sql_of(m: Migration) -> Seq<char> {
    match m {
        Migration::Add(c) => addition_of(c),
        Migration::SeedOwner => "INSERT OR IGNORE INTO roles (id, name, color, permissions, is_system, sort_order) VALUES (1, 'Owner', '#e67e22', ?1, 1, 0)"@,
        Migration::SeedModerator => "INSERT OR IGNORE INTO roles (id, name, color, permissions, is_system, sort_order) VALUES (2, 'Moderator', '#3498db', ?1, 1, 1)"@,
        Migration::SeedMember => "INSERT OR IGNORE INTO roles (id, name, color, permissions, is_system, sort_order) VALUES (3, 'Member', '#99AAB5', 0, 1, 2)"@,
        Migration::FillRoleIds => "UPDATE members SET role_id = 1 WHERE role_id IS NULL AND role = 'owner';
         UPDATE members SET role_id = 2 WHERE role_id IS NULL AND role = 'moderator';
         UPDATE members SET role_id = 3 WHERE role_id IS NULL;"@,
        Migration::FillDefaultRole => "UPDATE group_info SET default_role_id = 3 WHERE default_role_id IS NULL;"@,
    }
}

/// The permission bits that a migration's statement is run with.
pub open spec fn bits_of(m: Migration) -> Option<i64> {
    match m {
        Migration::SeedOwner => Some(ALL_BITS),
        Migration::SeedModerator => Some(moderator_bits()),
        _ => None,
    }
}

/// What a migration is called in its failure.
pub open spec fn label_of(m: Migration) -> Seq<char> {
    match m {
        Migration::Add(c) => name_of(c),
        Migration::SeedOwner => "seed owner role"@,
        Migration::SeedModerator => "seed moderator role"@,
        Migration::SeedMember => "seed member role"@,
        Migration::FillRoleIds => "role_id backfill"@,
        Migration::FillDefaultRole => "default_role_id backfill"@,
    }
}

impl Migration {
    /// The migration's statements.
    pub fn sql(self) -> (res: &'static str)
        ensures
            res@ == sql_of(self),
    {
        match self {
            Migration::Add(c) => c.addition(),
            Migration::SeedOwner => "INSERT OR IGNORE INTO roles (id, name, color, permissions, is_system, sort_order) VALUES (1, 'Owner', '#e67e22', ?1, 1, 0)",
            Migration::SeedModerator => "INSERT OR IGNORE INTO roles (id, name, color, permissions, is_system, sort_order) VALUES (2, 'Moderator', '#3498db', ?1, 1, 1)",
            Migration::SeedMember => "INSERT OR IGNORE INTO roles (id, name, color, permissions, is_system, sort_order) VALUES (3, 'Member', '#99AAB5', 0, 1, 2)",
            Migration::FillRoleIds => "UPDATE members SET role_id = 1 WHERE role_id IS NULL AND role = 'owner';
         UPDATE members SET role_id = 2 WHERE role_id IS NULL AND role = 'moderator';
         UPDATE members SET role_id = 3 WHERE role_id IS NULL;",
            Migration::FillDefaultRole => "UPDATE group_info SET default_role_id = 3 WHERE default_role_id IS NULL;",
        }
    }

    /// The permission bits that the migration's statement is run with.
    pub fn bits(self) -> (res: Option<i64>)
        ensures
            res == bits_of(self),
    {
        match self {
            Migration::SeedOwner => Some(Permission::all().bits()),
            Migration::SeedModerator => Some(moderator_permissions().bits()),
            _ => None,
        }
    }

    /// The message when the migration fails.
    pub fn failure(self, error: &str) -> (res: String)
        ensures
            res@ == "Migration failed ("@ + label_of(self) + "): "@ + error@,
    {
        let label = match self {
            Migration::Add(c) => c.name(),
            Migration::SeedOwner => "seed owner role",
            Migration::SeedModerator => "seed moderator role",
            Migration::SeedMember => "seed member role",
            Migration::FillRoleIds => "role_id backfill",
            Migration::FillDefaultRole => "default_role_id backfill",
        };
        glue(glue3("Migration failed (", label, "): ").as_str(), error)
    }
}

/// Every migration, in the order in which they are considered.
pub open spec fn all_migrations() -> Seq<Migration> {
    seq![
        Migration::Add(Column::PasswordHash),
        Migration::Add(Column::PublicChannelToken),
        Migration::Add(Column::MaxMessageLength),
        Migration::Add(Column::MediaProvider),
        Migration::Add(Column::MaxFileSize),
        Migration::Add(Column::AllowedFileTypes),
        Migration::Add(Column::RateLimit),
        Migration::Add(Column::SlowModeSeconds),
        Migration::SeedOwner,
        Migration::SeedModerator,
        Migration::SeedMember,
        Migration::Add(Column::RoleId),
        Migration::FillRoleIds,
        Migration::Add(Column::RequireApproval),
        Migration::Add(Column::DefaultRoleId),
        Migration::FillDefaultRole,
        Migration::Add(Column::MaxMembers),
        Migration::Add(Column::Motd),
        Migration::Add(Column::MaxMessagesPerMinute),
    ]
}

fn migrations() -> (res: Vec<Migration>)
    ensures
        res@ == all_migrations(),
{
    let res = vec![
        Migration::Add(Column::PasswordHash),
        Migration::Add(Column::PublicChannelToken),
        Migration::Add(Column::MaxMessageLength),
        Migration::Add(Column::MediaProvider),
        Migration::Add(Column::MaxFileSize),
        Migration::Add(Column::AllowedFileTypes),
        Migration::Add(Column::RateLimit),
        Migration::Add(Column::SlowModeSeconds),
        Migration::SeedOwner,
        Migration::SeedModerator,
        Migration::SeedMember,
        Migration::Add(Column::RoleId),
        Migration::FillRoleIds,
        Migration::Add(Column::RequireApproval),
        Migration::Add(Column::DefaultRoleId),
        Migration::FillDefaultRole,
        Migration::Add(Column::MaxMembers),
        Migration::Add(Column::Motd),
        Migration::Add(Column::MaxMessagesPerMinute),
    ];
    assert(res@ =~= all_migrations());
    res
}

/// What is to be done: the migrations to run, one after the other, and the
/// message to end with where a look at the tables failed on the way.
pub struct Plan {
    pub run: Vec<Migration>,
    pub stop: Option<String>,
}

/// The model of a [`Plan`].
pub struct PlanModel {
    pub run: Seq<Migration>,
    pub stop: Option<Seq<char>>,
}

impl View for Plan {
    type V = PlanModel;

    open spec fn view(&self) -> PlanModel {
        PlanModel {
            run: self.run@,
            stop: match self.stop {
                Some(s) => Some(s@),
                None => None,
            },
        }
    }
}

/// Whether a migration is needed: a column is added where it is missing, and
/// the others are always run.
pub open spec fn needed(m: Migration, has: spec_fn(Column) -> Result<bool, Seq<char>>) -> Result<
    bool,
    Seq<char>,
> {
    match m {
        Migration::Add(c) => match has(c) {
            Ok(there) => Ok(!there),
            Err(e) => if lenient(c) { Ok(true) } else { Err(e) },
        },
        _ => Ok(true),
    }
}

/// The plan for the first `n` migrations: those that are needed, up to the first
/// of which that cannot be told.
pub open spec fn planned(has: spec_fn(Column) -> Result<bool, Seq<char>>, n: int) -> PlanModel
    decreases n,
{
    if n <= 0 {
        PlanModel { run: Seq::empty(), stop: None }
    } else {
        let before = planned(has, n - 1);
        let m = all_migrations()[n - 1];
        if before.stop is Some {
            before
        } else {
            match needed(m, has) {
                Ok(true) => PlanModel { run: before.run.push(m), stop: None },
                Ok(false) => before,
                Err(e) => PlanModel { run: before.run, stop: Some(e) },
            }
        }
    }
}

/// The plan that brings the tables up to date.
pub open spec fn migration_plan(has: spec_fn(Column) -> Result<bool, Seq<char>>) -> PlanModel {
    planned(has, all_migrations().len() as int)
}

proof fn stopped_plans_stay(has: spec_fn(Column) -> Result<bool, Seq<char>>, i: int, n: int)
    requires
        0 <= i <= n,
        planned(has, i).stop is Some,
    ensures
        planned(has, n) == planned(has, i),
    decreases n,
{
    if i < n {
        stopped_plans_stay(has, i, n - 1);
    }
}

/// What brings the tables up to date, from which columns they have.
pub fn run_migrations(columns: &Columns) -> (res: Plan)
    ensures
        res@ == migration_plan(|c: Column| columns.has(c)),
{
    let ghost has = |c: Column| columns.has(c);
    let tasks = migrations();
    let mut run: Vec<Migration> = Vec::new();
    let mut i: usize = 0;
    while i < tasks.len()
        invariant
            i <= tasks@.len(),
            tasks@ == all_migrations(),
            has == (|c: Column| columns.has(c)),
            planned(has, i as int) == (PlanModel { run: run@, stop: None }),
        decreases tasks@.len() - i,
    {
        let m = tasks[i];
        let wanted = match m {
            Migration::Add(c) => match columns.get(c) {
                Ok(there) => !*there,
                Err(e) => {
                    if !c.is_lenient() {
                        let res = Plan { run, stop: Some(e.clone()) };
                        proof {
                            assert(res@ == planned(has, i + 1));
                            stopped_plans_stay(has, i + 1, tasks@.len() as int);
                        }
                        return res;
                    }
                    true
                },
            },
            _ => true,
        };
        if wanted {
            run.push(m);
        }
        i += 1;
    }
    Plan { run, stop: None }
}

/// What the migrations work on: the columns that there are, the roles, no two of
/// which have the same name, the role name and number of each member, and the
/// group's default role.
pub struct Tables {
    pub columns: Set<Column>,
    pub roles: Map<i64, RoleRow>,
    pub members: Map<Seq<char>, (Seq<char>, Option<i64>)>,
    pub default_role: Option<i64>,
}

/// Whether there is a role of that name.
pub open spec fn is_named(roles: Map<i64, RoleRow>, name: Seq<char>) -> bool {
    exists|r: i64| #[trigger] roles.contains_key(r) && roles[r].name == name
}

/// The roles with one more, unless there is one in its place or of its name.
pub open spec fn seeded(roles: Map<i64, RoleRow>, id: i64, row: RoleRow) -> Map<i64, RoleRow> {
    if roles.contains_key(id) || is_named(roles, row.name) {
        roles
    } else {
        roles.insert(id, row)
    }
}

/// The system Owner role as it is made.
pub open spec fn owner_row() -> RoleRow {
    RoleRow { name: "Owner"@, color: "#e67e22"@, permissions: ALL_BITS, is_system: true, sort_order: 0 }
}

/// The system Moderator role as it is made.
pub open spec fn moderator_row() -> RoleRow {
    RoleRow {
        name: "Moderator"@,
        color: "#3498db"@,
        permissions: moderator_bits(),
        is_system: true,
        sort_order: 1,
    }
}

/// The system Member role as it is made.
pub open spec fn member_row() -> RoleRow {
    RoleRow { name: "Member"@, color: "#99AAB5"@, permissions: 0, is_system: true, sort_order: 2 }
}

/// The roles with the system roles.
pub open spec fn with_system_roles(roles: Map<i64, RoleRow>) -> Map<i64, RoleRow> {
    seeded(seeded(seeded(roles, 1, owner_row()), 2, moderator_row()), 3, member_row())
}

/// Each system role is there, or no other role has its name.
pub open spec fn system_names_free(roles: Map<i64, RoleRow>) -> bool {
    &&& roles.contains_key(1) || !is_named(roles, "Owner"@)
    &&& roles.contains_key(2) || !is_named(roles, "Moderator"@)
    &&& roles.contains_key(3) || !is_named(roles, "Member"@)
}

/// What a migration makes of the tables.
pub open spec fn migrated(t: Tables, m: Migration) -> Tables {
    match m {
        Migration::Add(c) => Tables { columns: t.columns.insert(c), ..t },
        Migration::SeedOwner => Tables { roles: seeded(t.roles, 1, owner_row()), ..t },
        Migration::SeedModerator => Tables { roles: seeded(t.roles, 2, moderator_row()), ..t },
        Migration::SeedMember => Tables { roles: seeded(t.roles, 3, member_row()), ..t },
        Migration::FillRoleIds => Tables {
            members: t.members.map_values(
                |row: (Seq<char>, Option<i64>)|
                    match row.1 {
                        Some(_) => row,
                        None => (row.0, Some(number_of(row.0))),
                    },
            ),
            ..t
        },
        Migration::FillDefaultRole => Tables {
            default_role: match t.default_role {
                Some(r) => Some(r),
                None => Some(3),
            },
            ..t
        },
    }
}

/// What some migrations make of the tables, one after the other.
pub open spec fn migrated_all(t: Tables, run: Seq<Migration>) -> Tables
    decreases run.len(),
{
    if run.len() == 0 {
        t
    } else {
        migrated(migrated_all(t, run.drop_last()), run.last())
    }
}

/// What a look at the tables finds.
pub open spec fn columns_of(t: Tables) -> spec_fn(Column) -> Result<bool, Seq<char>> {
    |c: Column| Ok(t.columns.contains(c))
}

/// The tables after they were brought up to date.
pub open spec fn up_to_date(t: Tables) -> Tables {
    migrated_all(t, migration_plan(columns_of(t)).run)
}

#[verifier::opaque]
spec fn reached(t: Tables, n: int) -> Tables {
    migrated_all(t, planned(columns_of(t), n).run)
}

proof fn one_more(t: Tables, n: int)
    requires
        0 < n <= all_migrations().len(),
    ensures
        planned(columns_of(t), n).stop is None,
        reached(t, n) == (match all_migrations()[n - 1] {
            Migration::Add(c) => if t.columns.contains(c) {
                reached(t, n - 1)
            } else {
                migrated(reached(t, n - 1), Migration::Add(c))
            },
            m => migrated(reached(t, n - 1), m),
        }),
    decreases n,
{
    reveal(reached);
    if n > 1 {
        one_more(t, n - 1);
    }
    let before = planned(columns_of(t), n - 1);
    let m = all_migrations()[n - 1];
    assert(before.run.push(m).drop_last() =~= before.run);
}

proof fn what_stands_where()
    ensures
        all_migrations().len() == 19,
        all_migrations()[8] == Migration::SeedOwner,
        all_migrations()[9] == Migration::SeedModerator,
        all_migrations()[10] == Migration::SeedMember,
        all_migrations()[12] == Migration::FillRoleIds,
        all_migrations()[15] == Migration::FillDefaultRole,
        forall|i: int|
            0 <= i < 19 && i != 8 && i != 9 && i != 10 && i != 12 && i != 15
                ==> #[trigger] all_migrations()[i] is Add,
{
}

proof fn stands_somewhere(c: Column) -> (i: int)
    ensures
        0 <= i < 19,
        all_migrations()[i] == Migration::Add(c),
{
    match c {
        Column::PasswordHash => 0,
        Column::PublicChannelToken => 1,
        Column::MaxMessageLength => 2,
        Column::MediaProvider => 3,
        Column::MaxFileSize => 4,
        Column::AllowedFileTypes => 5,
        Column::RateLimit => 6,
        Column::SlowModeSeconds => 7,
        Column::RoleId => 11,
        Column::RequireApproval => 13,
        Column::DefaultRoleId => 14,
        Column::MaxMembers => 16,
        Column::Motd => 17,
        Column::MaxMessagesPerMinute => 18,
    }
}

proof fn after_so_many(t: Tables, n: int)
    requires
        0 <= n <= 19,
    ensures
        planned(columns_of(t), n).stop is None,
        reached(t, n).roles == ({
            let first = seeded(t.roles, 1, owner_row());
            let second = seeded(first, 2, moderator_row());
            if n <= 8 {
                t.roles
            } else if n == 9 {
                first
            } else if n == 10 {
                second
            } else {
                seeded(second, 3, member_row())
            }
        }),
        reached(t, n).members == (if n <= 12 {
            t.members
        } else {
            migrated(t, Migration::FillRoleIds).members
        }),
        reached(t, n).default_role == (if n <= 15 {
            t.default_role
        } else {
            migrated(t, Migration::FillDefaultRole).default_role
        }),
        t.columns.subset_of(reached(t, n).columns),
        forall|i: int|
            0 <= i < n ==> (#[trigger] all_migrations()[i] matches Migration::Add(c) ==> reached(
                t,
                n,
            ).columns.contains(c)),
    decreases n,
{
    what_stands_where();
    if n == 0 {
        reveal(reached);
    } else {
        after_so_many(t, n - 1);
        one_more(t, n);
        let m = all_migrations()[n - 1];
        assert(m is Add || n == 9 || n == 10 || n == 11 || n == 13 || n == 16);
    }
}

proof fn reaches_all(t: Tables)
    ensures
        migration_plan(columns_of(t)).stop is None,
        up_to_date(t).columns == Set::<Column>::full(),
        up_to_date(t).roles == with_system_roles(t.roles),
        up_to_date(t).members == migrated(t, Migration::FillRoleIds).members,
        up_to_date(t).default_role == migrated(t, Migration::FillDefaultRole).default_role,
{
    what_stands_where();
    after_so_many(t, 19);
    reveal(reached);
    assert forall|c: Column| up_to_date(t).columns.contains(c) by {
        let i = stands_somewhere(c);
        assert(all_migrations()[i] == Migration::Add(c));
    }
    assert(up_to_date(t).columns =~= Set::<Column>::full());
}

proof fn system_roles_are_made(roles: Map<i64, RoleRow>)
    requires
        system_names_free(roles),
    ensures
        forall|r: i64| 1 <= r <= 3 ==> #[trigger] with_system_roles(roles).contains_key(r),
        !roles.contains_key(1) ==> with_system_roles(roles)[1] == owner_row(),
        !roles.contains_key(2) ==> with_system_roles(roles)[2] == moderator_row(),
        !roles.contains_key(3) ==> with_system_roles(roles)[3] == member_row(),
{
    reveal_strlit("Owner");
    reveal_strlit("Moderator");
    reveal_strlit("Member");
    assert("Owner"@.len() == 5 && "Moderator"@.len() == 9 && "Member"@.len() == 6);
    let first = seeded(roles, 1, owner_row());
    let second = seeded(first, 2, moderator_row());
    let third = seeded(second, 3, member_row());
    assert(first.contains_key(1));
    assert(!roles.contains_key(2) ==> !is_named(first, "Moderator"@)) by {
        if is_named(first, "Moderator"@) && !roles.contains_key(2) {
            let r = choose|r: i64| #[trigger] first.contains_key(r) && first[r].name == "Moderator"@;
            assert(roles.contains_key(r));
        }
    }
    assert(second.contains_key(2));
    assert(!roles.contains_key(3) ==> !is_named(second, "Member"@)) by {
        if is_named(second, "Member"@) && !roles.contains_key(3) {
            let r = choose|r: i64| #[trigger] second.contains_key(r) && second[r].name == "Member"@;
            assert(first.contains_key(r));
            assert(roles.contains_key(r));
        }
    }
    assert(third.contains_key(3));
}

/// Once the tables are up to date, they have every column, the three system
/// roles exist, unless another role has the name of one, every member has a role
/// number and the group a default role. What was there before is left as it was,
/// and a member without a number gets that of the role they are named after.
pub proof fn migrations_complete_the_tables(t: Tables, user: Seq<char>, c: Column)
    requires
        system_names_free(t.roles),
    ensures
        migration_plan(columns_of(t)).stop is None,
        up_to_date(t).columns.contains(c),
        forall|r: i64| 1 <= r <= 3 ==> #[trigger] up_to_date(t).roles.contains_key(r),
        !t.roles.contains_key(1) ==> up_to_date(t).roles[1] == owner_row(),
        !t.roles.contains_key(2) ==> up_to_date(t).roles[2] == moderator_row(),
        !t.roles.contains_key(3) ==> up_to_date(t).roles[3] == member_row(),
        forall|r: i64| #[trigger]
            t.roles.contains_key(r) ==> up_to_date(t).roles.contains_key(r) && up_to_date(t).roles[r]
                == t.roles[r],
        up_to_date(t).members.dom() == t.members.dom(),
        t.members.contains_key(user) ==> up_to_date(t).members[user] == (
            t.members[user].0,
            match t.members[user].1 {
                Some(r) => Some(r),
                None => Some(number_of(t.members[user].0)),
            },
        ),
        up_to_date(t).default_role == (match t.default_role {
            Some(r) => Some(r),
            None => Some(3i64),
        }),
{
    reaches_all(t);
    system_roles_are_made(t.roles);
    assert(up_to_date(t).members.dom() =~= t.members.dom());
}

/// Running the migrations again, on tables that have every column and the system
/// roles and that may have been edited since, adds no column and no role, leaves
/// every role as it was edited, and changes no role number of a member and no
/// default role but those that are missing.
pub proof fn migrations_keep_what_was_edited(t: Tables, user: Seq<char>)
    requires
        forall|c: Column| #[trigger] t.columns.contains(c),
        t.roles.contains_key(1),
        t.roles.contains_key(2),
        t.roles.contains_key(3),
    ensures
        migration_plan(columns_of(t)).stop is None,
        forall|c: Column|
            ! #[trigger] migration_plan(columns_of(t)).run.contains(Migration::Add(c)),
        up_to_date(t).columns == t.columns,
        up_to_date(t).roles == t.roles,
        up_to_date(t).members.dom() == t.members.dom(),
        t.members.contains_key(user) ==> up_to_date(t).members[user] == (
            t.members[user].0,
            match t.members[user].1 {
                Some(r) => Some(r),
                None => Some(number_of(t.members[user].0)),
            },
        ),
        up_to_date(t).default_role == (match t.default_role {
            Some(r) => Some(r),
            None => Some(3i64),
        }),
{
    reaches_all(t);
    assert(t.columns =~= Set::<Column>::full());
    assert(up_to_date(t).members.dom() =~= t.members.dom());
    assert forall|c: Column|
        ! #[trigger] migration_plan(columns_of(t)).run.contains(Migration::Add(c)) by {
        nothing_to_add(t, c, all_migrations().len() as int);
    }
}

/// Bringing tables up to date that are so already changes nothing.
pub proof fn migrations_are_idempotent(t: Tables)
    ensures
        up_to_date(up_to_date(t)) == up_to_date(t),
        forall|c: Column|
            ! #[trigger] migration_plan(columns_of(up_to_date(t))).run.contains(Migration::Add(c)),
{
    let u = up_to_date(t);
    reaches_all(t);
    reaches_all(u);
    seeding_twice(t.roles);
    assert(up_to_date(u).members =~= u.members);
    assert(up_to_date(u) == u);
    assert forall|c: Column|
        ! #[trigger] migration_plan(columns_of(u)).run.contains(Migration::Add(c)) by {
        nothing_to_add(u, c, all_migrations().len() as int);
    }
}

proof fn stays_taken(roles: Map<i64, RoleRow>, more: Map<i64, RoleRow>, id: i64, row: RoleRow)
    requires
        forall|r: i64| #[trigger]
            roles.contains_key(r) ==> more.contains_key(r) && more[r] == roles[r],
        roles.contains_key(id) || is_named(roles, row.name),
    ensures
        seeded(more, id, row) == more,
{
    if is_named(roles, row.name) {
        let r = choose|r: i64| #[trigger] roles.contains_key(r) && roles[r].name == row.name;
        assert(more.contains_key(r));
    }
}

proof fn seeding_twice(roles: Map<i64, RoleRow>)
    ensures
        with_system_roles(with_system_roles(roles)) == with_system_roles(roles),
{
    let first = seeded(roles, 1, owner_row());
    let second = seeded(first, 2, moderator_row());
    let third = with_system_roles(roles);
    stays_taken(first, third, 1, owner_row());
    stays_taken(second, third, 2, moderator_row());
    stays_taken(third, third, 3, member_row());
}

proof fn nothing_to_add(t: Tables, c: Column, n: int)
    requires
        t.columns == Set::<Column>::full(),
        0 <= n <= all_migrations().len(),
    ensures
        !planned(columns_of(t), n).run.contains(Migration::Add(c)),
    decreases n,
{
    if n > 0 {
        nothing_to_add(t, c, n - 1);
        let before = planned(columns_of(t), n - 1);
        let after = planned(columns_of(t), n);
        if after.run.contains(Migration::Add(c)) {
            let i = choose|i: int| 0 <= i < after.run.len() && after.run[i] == Migration::Add(c);
            if i < before.run.len() {
                assert(before.run[i] == Migration::Add(c));
            }
        }
    }
}

/// As the system roles are made, an owner may do everything, a moderator all but
/// manage roles, settings and donations, and a plain member nothing that takes a
/// permission.
pub proof fn system_roles_are_ranked(db: GroupDb, user: Seq<char>, i: int)
    requires
        db.roles == with_system_roles(Map::empty()),
        0 <= i < FLAG_COUNT,
    ensures
        role_id_of(db, user) == Some(1i64) ==> may(db, user, flag(i)),
        role_id_of(db, user) == Some(2i64) ==> (may(db, user, flag(i)) <==> flag(i) != MANAGE_ROLES && flag(i)
            != MANAGE_SETTINGS && flag(i) != MANAGE_DONATIONS),
        role_id_of(db, user) == Some(3i64) ==> !may(db, user, flag(i)),
        role_id_of(db, user) is None ==> !may(db, user, flag(i)),
{
    let f = flag(i);
    assert({
        &&& (0x7DFFi64 & 0x7DFF) & f == f
        &&& ((0x1i64 | 0x2 | 0x4 | 0x40 | 0x80 | 0x100 | 0x400 | 0x800 | 0x1000 | 0x2000 | 0x4000) & 0x7DFF)
            & f == f <==> f != 0x8 && f != 0x10 && f != 0x20
        &&& (0i64 & 0x7DFF) & f != f
    }) by (bit_vector)
        requires
            f == 0x1 || f == 0x2 || f == 0x4 || f == 0x8 || f == 0x10 || f == 0x20 || f == 0x40 || f == 0x80
                || f == 0x100 || f == 0x400 || f == 0x800 || f == 0x1000 || f == 0x2000 || f == 0x4000,
    ;
    reveal_strlit("Owner");
    reveal_strlit("Moderator");
    reveal_strlit("Member");
    assert("Owner"@.len() != "Moderator"@.len() && "Moderator"@.len() != "Member"@.len());
}

/// Whether a migration adds a column whose look must not fail, and it did.
pub open spec fn look_failed(m: Migration, has: spec_fn(Column) -> Result<bool, Seq<char>>) -> bool {
    m matches Migration::Add(c) && has(c) is Err && (c is RoleId || c is RequireApproval || c is DefaultRoleId
        || c is MaxMembers || c is Motd || c is MaxMessagesPerMinute)
}

/// The migrations stop, with the message of the failure, at the first column that
/// was added late and could not be looked up. Up to there those are run that are
/// not known to be done: a column of the first ones that could not be looked up is
/// added.
pub proof fn a_failed_look_stops_the_migrations(has: spec_fn(Column) -> Result<bool, Seq<char>>, n: int)
    requires
        0 <= n <= 19,
    ensures
        planned(has, n).stop is Some <==> exists|i: int|
            0 <= i < n && look_failed(#[trigger] all_migrations()[i], has),
        planned(has, n).stop matches Some(e) ==> exists|i: int|
            {
                &&& 0 <= i < n
                &&& look_failed(#[trigger] all_migrations()[i], has)
                &&& has(all_migrations()[i]->Add_0) == Err::<bool, Seq<char>>(e)
                &&& forall|j: int| 0 <= j < i ==> !look_failed(#[trigger] all_migrations()[j], has)
            },
        planned(has, n).stop is None ==> planned(has, n).run == all_migrations().take(n).filter(
            |m: Migration| !(m matches Migration::Add(c) && has(c) == Ok::<bool, Seq<char>>(true)),
        ),
    decreases n,
{
    reveal(Seq::filter);
    let all = all_migrations();
    if n > 0 {
        a_failed_look_stops_the_migrations(has, n - 1);
        let m = all[n - 1];
        assert(all.take(n).drop_last() =~= all.take(n - 1));
        assert(all.take(n).last() == m);
        if planned(has, n - 1).stop is None {
            assert forall|j: int| 0 <= j < n - 1 implies !look_failed(#[trigger] all[j], has) by {}
            if look_failed(m, has) {
                assert(look_failed(all[n - 1], has));
            }
        } else {
            let i = choose|i: int|
                {
                    &&& 0 <= i < n - 1
                    &&& look_failed(#[trigger] all[i], has)
                    &&& has(all[i]->Add_0) == Err::<bool, Seq<char>>(planned(has, n - 1).stop->Some_0)
                    &&& forall|j: int| 0 <= j < i ==> !look_failed(#[trigger] all[j], has)
                };
            assert(look_failed(all[i], has));
        }
    } else {
        assert(all.take(0) =~= Seq::<Migration>::empty());
    }
}

} // verus!
