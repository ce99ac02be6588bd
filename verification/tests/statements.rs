use onyx_server::auth::{hash_token, token_queries};
use onyx_server::db::{has_column, run_migrations, tables, Column, Columns};
use onyx_server::error::Lookup;
use onyx_server::handlers::auth_handlers::{key_query, register_decoded, register_queries, RegisterFacts};
use onyx_server::handlers::comments::{
    comment_queries, comment_reaction_queries, comment_reactions_query, previews_query, AddCommentReactionRequest,
    SendCommentRequest,
};
use onyx_server::handlers::members::{set_role_queries, SetRoleRequest};
use onyx_server::handlers::messages::{
    history_statement, join_queries, reaction_queries, reactions_query, send_queries, AddReactionRequest, HistoryQuery,
};
use onyx_server::handlers::polls::poll_queries;
use onyx_server::models::message::SendMessageRequest;
use onyx_server::models::session::RegisterRequest;
use onyx_server::permissions::is_owner_equivalent;
use onyx_server::query::Query;
use onyx_server::store::{SqlValue, Statement, Write};
use rusqlite::types::Value;

fn found(conn: &rusqlite::Connection, c: Column) -> Result<bool, String> {
    has_column(conn.query_row(&c.query(), [], |r| r.get(0)).map_err(|e| e.to_string()))
}

fn group_database() -> rusqlite::Connection {
    let conn = rusqlite::Connection::open_in_memory().unwrap();
    conn.execute_batch("PRAGMA foreign_keys=ON;").unwrap();
    conn.execute_batch(tables()).unwrap();
    conn.execute_batch(
        "INSERT INTO group_info (id, name, owner_username, invite_token) VALUES (1, 'Old', '', 'invite')",
    )
    .unwrap();
    let plan = run_migrations(&Columns {
        password_hash: found(&conn, Column::PasswordHash),
        public_channel_token: found(&conn, Column::PublicChannelToken),
        max_message_length: found(&conn, Column::MaxMessageLength),
        media_provider: found(&conn, Column::MediaProvider),
        max_file_size: found(&conn, Column::MaxFileSize),
        allowed_file_types: found(&conn, Column::AllowedFileTypes),
        rate_limit: found(&conn, Column::RateLimit),
        slow_mode_seconds: found(&conn, Column::SlowModeSeconds),
        role_id: found(&conn, Column::RoleId),
        require_approval: found(&conn, Column::RequireApproval),
        default_role_id: found(&conn, Column::DefaultRoleId),
        max_members: found(&conn, Column::MaxMembers),
        motd: found(&conn, Column::Motd),
        max_messages_per_minute: found(&conn, Column::MaxMessagesPerMinute),
    });
    for m in &plan.run {
        match m.bits() {
            Some(b) => {
                conn.execute(m.sql(), [b]).unwrap();
            }
            None => conn.execute_batch(m.sql()).unwrap(),
        }
    }
    conn
}

fn values(s: Statement) -> Vec<Value> {
    s.params
        .into_iter()
        .map(|p| match p {
            SqlValue::Null => Value::Null,
            SqlValue::Int(n) => Value::Integer(n),
            SqlValue::Text(t) => Value::Text(t),
            SqlValue::Blob(b) => Value::Blob(b),
        })
        .collect()
}

/// Make a write: how many rows it changed.
fn run(conn: &rusqlite::Connection, w: Write) -> usize {
    let statement = w.statement();
    let sql = statement.sql;
    conn.execute(sql, rusqlite::params_from_iter(values(statement))).unwrap()
}

fn number(conn: &rusqlite::Connection, sql: &str) -> i64 {
    conn.query_row(sql, [], |r| r.get(0)).unwrap()
}

fn word(conn: &rusqlite::Connection, sql: &str) -> String {
    conn.query_row(sql, [], |r| r.get(0)).unwrap()
}

fn s(t: &str) -> String {
    t.to_string()
}

fn member(conn: &rusqlite::Connection, name: &str, role: &str) {
    let w = Write::InsertMember {
        username: s(name),
        display_name: s("D"),
        public_key: s("K"),
        role: s(role),
    };
    assert_eq!(run(conn, w), 1);
}

fn message(conn: &rusqlite::Connection, sender: &str, content: &str, at: i64) -> i64 {
    let w = Write::InsertMessage {
        sender: s(sender),
        content: s(content),
        reply_to_id: None,
        reply_to_sender: None,
        reply_to_content: None,
        timestamp: s("t"),
        timestamp_ms: at,
    };
    assert_eq!(run(conn, w), 1);
    conn.last_insert_rowid()
}

#[test]
fn members_are_stored() {
    let conn = group_database();
    member(&conn, "ann", "owner");
    let absent = |name: &str| Write::InsertMemberIfAbsent {
        username: s(name),
        display_name: s("D"),
        public_key: s("K"),
        role: s("guest"),
    };
    assert_eq!(run(&conn, absent("ann")), 0);
    assert_eq!(run(&conn, absent("bob")), 1);
    assert_eq!(number(&conn, "SELECT COUNT(*) FROM members WHERE role_id IS NULL"), 2);
    let identity = Write::UpdateMemberIdentity {
        public_key: s("K2"),
        display_name: s("D2"),
        username: s("ann"),
    };
    assert_eq!(run(&conn, identity), 1);
    assert_eq!(word(&conn, "SELECT public_key || display_name || role FROM members WHERE username = 'ann'"), "K2D2owner");
    assert_eq!(run(&conn, Write::SetMemberRole { role_id: 2, role: s("moderator"), username: s("bob") }), 1);
    assert_eq!(run(&conn, Write::ReleaseRole { role_id: 2 }), 1);
    assert_eq!(word(&conn, "SELECT role || role_id FROM members WHERE username = 'bob'"), "member3");
    assert_eq!(run(&conn, Write::DeleteMember { username: s("bob") }), 1);
    assert_eq!(run(&conn, Write::DeleteMember { username: s("bob") }), 0);
    let back = Write::RestoreMember { username: s("bob"), display_name: s("B"), public_key: s("P") };
    assert_eq!(run(&conn, back), 1);
    assert_eq!(
        word(&conn, "SELECT display_name || public_key || role || role_id FROM members WHERE username = 'bob'"),
        "BPmember3"
    );
}

#[test]
fn bans_and_mutes_are_stored() {
    let conn = group_database();
    let ban = |reason: Option<String>| Write::ReplaceBan { username: s("eve"), banned_by: s("ann"), reason };
    run(&conn, ban(None));
    run(&conn, ban(Some(s("spam"))));
    assert_eq!(number(&conn, "SELECT COUNT(*) FROM bans"), 1);
    assert_eq!(word(&conn, "SELECT username || banned_by || reason FROM bans"), "eveannspam");
    assert_eq!(run(&conn, Write::DeleteBan { username: s("eve") }), 1);
    let mute = |until: i64| Write::ReplaceMute {
        username: s("eve"),
        muted_by: s("ann"),
        reason: Some(s("loud")),
        expires_at: until,
    };
    run(&conn, mute(5));
    run(&conn, mute(9));
    assert_eq!(word(&conn, "SELECT username || muted_by || reason || expires_at FROM mutes"), "eveannloud9");
    assert_eq!(run(&conn, Write::DeleteMute { username: s("eve") }), 1);
}

#[test]
fn sessions_are_stored() {
    let conn = group_database();
    let w = Write::InsertSession {
        username: s("ann"),
        display_name: s("A"),
        token: s("T"),
        public_key: s("K"),
        password_hash: s("P"),
    };
    assert_eq!(run(&conn, w), 1);
    let all = "SELECT username || display_name || token || public_key || password_hash FROM sessions";
    assert_eq!(word(&conn, all), "annATKP");
    let identity =
        Write::UpdateSessionIdentity { display_name: s("B"), public_key: s("L"), username: s("ann") };
    assert_eq!(run(&conn, identity), 1);
    assert_eq!(word(&conn, all), "annBTLP");
    assert_eq!(run(&conn, Write::TouchSession { username: s("ann") }), 1);
    let token = || Write::AddDeviceToken { username: s("ann"), token: s("H") };
    assert_eq!(run(&conn, token()), 1);
    assert_eq!(run(&conn, token()), 0);
    assert_eq!(word(&conn, "SELECT username || token FROM device_tokens"), "annH");
}

#[test]
fn the_group_is_stored() {
    let conn = group_database();
    run(&conn, Write::SetGroupOwner { username: s("ann") });
    run(&conn, Write::SetGroupName { name: s("New") });
    run(&conn, Write::SetAvatarVersion { version: 4 });
    run(&conn, Write::BumpAvatarVersion);
    run(&conn, Write::SetSlowMode { seconds: 30 });
    run(&conn, Write::UpdateSettings {
        description: s("desc"),
        motd: s("hi"),
        max_members: 11,
        max_message_length: 12,
        max_messages_per_minute: 13,
        default_role_id: 2,
    });
    assert_eq!(
        word(
            &conn,
            "SELECT owner_username || ' ' || name || ' ' || avatar_version || ' ' || slow_mode_seconds || ' ' ||
                    description || ' ' || motd || ' ' || max_members || ' ' || max_message_length || ' ' ||
                    max_messages_per_minute || ' ' || default_role_id FROM group_info",
        ),
        "ann New 5 30 desc hi 11 12 13 2"
    );
    run(&conn, Write::ReplaceAvatar { data: vec![1, 2], mime_type: s("image/png") });
    run(&conn, Write::ReplaceAvatar { data: vec![3], mime_type: s("image/gif") });
    let avatar: (Vec<u8>, String) = conn
        .query_row("SELECT data, mime_type FROM group_avatar", [], |r| Ok((r.get(0)?, r.get(1)?)))
        .unwrap();
    assert_eq!(avatar, (vec![3], s("image/gif")));
    assert_eq!(run(&conn, Write::DeleteAvatar), 1);
}

#[test]
fn messages_are_stored() {
    let conn = group_database();
    let first = message(&conn, "ann", "one", 1);
    let second = message(&conn, "bob", "two", 2);
    assert_eq!(run(&conn, Write::EditOwnMessage { content: s("x"), message_id: first, sender: s("bob") }), 0);
    assert_eq!(run(&conn, Write::EditOwnMessage { content: s("uno"), message_id: first, sender: s("ann") }), 1);
    let add = |user: &str, emoji: &str| Write::AddReaction { message_id: first, username: s(user), emoji: s(emoji) };
    assert_eq!(run(&conn, add("bob", "\u{1f600}")), 1);
    assert_eq!(run(&conn, add("bob", "\u{1f600}")), 0);
    assert_eq!(run(&conn, add("ann", "\u{1f600}")), 1);
    let mut statement = conn.prepare(&reactions_query(2)).unwrap();
    let reactors: Vec<(i64, String)> = statement
        .query_map([first, second], |r| Ok((r.get(0)?, r.get(2)?)))
        .unwrap()
        .map(|r| r.unwrap())
        .collect();
    assert_eq!(reactors.len(), 2);
    assert!(reactors.contains(&(first, s("bob"))));
    let remove = Write::RemoveReaction { message_id: first, username: s("bob"), emoji: s("\u{1f600}") };
    assert_eq!(run(&conn, remove), 1);
    let listed = |before_id: Option<i64>, limit: Option<i64>| -> Vec<String> {
        let query = history_statement(&HistoryQuery { before_id, limit });
        let mut statement = conn.prepare(query.sql).unwrap();
        let rows = statement.query_map(rusqlite::params_from_iter(values(query)), |r| r.get(2)).unwrap();
        rows.map(|r| r.unwrap()).collect()
    };
    assert_eq!(listed(None, None), vec![s("two"), s("uno")]);
    assert_eq!(listed(None, Some(1)), vec![s("two")]);
    assert_eq!(listed(Some(second), None), vec![s("uno")]);
    assert_eq!(run(&conn, Write::DeleteOwnMessage { message_id: first, sender: s("bob") }), 0);
    assert_eq!(run(&conn, Write::DeleteOwnMessage { message_id: first, sender: s("ann") }), 1);
    assert_eq!(number(&conn, "SELECT COUNT(*) FROM message_reactions"), 0);
}

#[test]
fn comments_are_stored() {
    let conn = group_database();
    let post = message(&conn, "News", "post", 1);
    let comment = |sender: &str, content: &str, reply_to_id: Option<i64>, at: i64| -> i64 {
        let w = Write::InsertComment {
            post_id: post,
            sender: s(sender),
            content: s(content),
            reply_to_id,
            reply_to_sender: None,
            reply_to_content: None,
            timestamp: s("t"),
            timestamp_ms: at,
        };
        assert_eq!(run(&conn, w), 1);
        conn.last_insert_rowid()
    };
    let a = comment("ann", "first", None, 10);
    let b = comment("bob", "second", Some(a), 20);
    let preview: (i64, i64, String, String) = conn
        .query_row(&previews_query(1), [post], |r| Ok((r.get(0)?, r.get(1)?, r.get(2)?, r.get(3)?)))
        .unwrap();
    assert_eq!(preview, (post, 2, s("bob"), s("second")));
    let add = || Write::AddCommentReaction { comment_id: a, username: s("bob"), emoji: s("\u{1f44d}") };
    assert_eq!(run(&conn, add()), 1);
    assert_eq!(run(&conn, add()), 0);
    let reaction: (i64, String, String) = conn
        .query_row(&comment_reactions_query(1), [a], |r| Ok((r.get(0)?, r.get(1)?, r.get(2)?)))
        .unwrap();
    assert_eq!(reaction, (a, s("\u{1f44d}"), s("bob")));
    let remove = Write::RemoveCommentReaction { comment_id: a, username: s("bob"), emoji: s("\u{1f44d}") };
    assert_eq!(run(&conn, remove), 1);
    assert_eq!(run(&conn, Write::EditOwnComment { content: s("x"), comment_id: a, sender: s("bob") }), 0);
    assert_eq!(run(&conn, Write::EditOwnComment { content: s("1st"), comment_id: a, sender: s("ann") }), 1);
    assert_eq!(run(&conn, Write::DeleteOwnComment { comment_id: b, sender: s("ann") }), 0);
    assert_eq!(run(&conn, Write::DeleteOwnComment { comment_id: b, sender: s("bob") }), 1);
    assert_eq!(run(&conn, Write::DeleteComment { comment_id: a }), 1);
}

#[test]
fn polls_are_stored() {
    let conn = group_database();
    let w = Write::InsertPoll { question: s("Q"), multi_choice: true, closes_at: Some(7), created_by: s("ann") };
    assert_eq!(run(&conn, w), 1);
    let poll_id = conn.last_insert_rowid();
    assert_eq!(word(&conn, "SELECT question || multi_choice || closes_at || created_by FROM polls"), "Q17ann");
    run(&conn, Write::InsertPollOption { poll_id, text: s("yes"), sort_order: 0 });
    let option_id = conn.last_insert_rowid();
    assert_eq!(word(&conn, "SELECT text || sort_order FROM poll_options"), "yes0");
    let vote = || Write::AddVote { poll_id, option_id, username: s("bob") };
    assert_eq!(run(&conn, vote()), 1);
    assert_eq!(run(&conn, vote()), 0);
    assert_eq!(run(&conn, Write::ClearVotes { poll_id, username: s("bob") }), 1);
}

#[test]
fn roles_donations_and_media_are_stored() {
    let conn = group_database();
    let w = Write::InsertRole { name: s("Helper"), color: s("#112233"), permissions: 5, sort_order: 3 };
    assert_eq!(run(&conn, w), 1);
    let role_id = conn.last_insert_rowid();
    let update =
        Write::UpdateRole { name: s("Aide"), color: s("#445566"), permissions: 6, role_id };
    assert_eq!(run(&conn, update), 1);
    assert_eq!(
        word(&conn, "SELECT name || color || permissions || is_system || sort_order FROM roles WHERE id > 3"),
        "Aide#445566603"
    );
    assert_eq!(run(&conn, Write::DeleteRole { role_id }), 1);
    run(&conn, Write::InsertDonation { label: s("BTC"), address: s("abc"), sort_order: 2 });
    assert_eq!(word(&conn, "SELECT label || address || sort_order FROM donation_addresses"), "BTCabc2");
    assert_eq!(run(&conn, Write::ClearDonations), 1);
    run(&conn, Write::InsertMedia {
        id: s("I"),
        uploader: s("ann"),
        original_filename: s("a.png"),
        mime_type: s("image/png"),
        size_bytes: 9,
        url: s("/u"),
        provider: s("local"),
    });
    assert_eq!(
        word(
            &conn,
            "SELECT id || uploader_username || original_filename || mime_type || size_bytes || storage_path || provider
             FROM media",
        ),
        "Ianna.pngimage/png9/ulocal"
    );
}

/// The first column of each row that a question finds.
fn answers(conn: &rusqlite::Connection, q: &Query) -> Vec<Value> {
    let statement = q.statement();
    let mut prepared = conn.prepare(statement.sql).unwrap();
    let rows = prepared.query_map(rusqlite::params_from_iter(values(statement)), |r| r.get(0)).unwrap();
    rows.map(|r| r.unwrap()).collect()
}

fn one(n: i64) -> Vec<Value> {
    vec![Value::Integer(n)]
}

fn one_text(t: &str) -> Vec<Value> {
    vec![Value::Text(t.to_string())]
}

fn nothing() -> Vec<Value> {
    Vec::new()
}

#[test]
fn questions_about_members_are_answered() {
    let conn = group_database();
    member(&conn, "ann", "owner");
    member(&conn, "bob", "guest");
    run(&conn, Write::SetMemberRole { role_id: 1, role: s("owner"), username: s("ann") });
    assert_eq!(answers(&conn, &Query::Members), one(2));
    assert_eq!(answers(&conn, &Query::Memberships { username: s("ann") }), one(1));
    assert_eq!(answers(&conn, &Query::Memberships { username: s("eve") }), one(0));
    assert_eq!(answers(&conn, &Query::MemberList).len(), 2);
    assert_eq!(answers(&conn, &Query::Permissions { username: s("ann") }), one(0x7dff));
    assert_eq!(answers(&conn, &Query::Permissions { username: s("bob") }), nothing());
    assert_eq!(answers(&conn, &Query::RoleId { username: s("ann") }), one(1));
    assert_eq!(answers(&conn, &Query::RoleId { username: s("bob") }), vec![Value::Null]);
    let stored = answers(&conn, &Query::RoleId { username: s("bob") });
    let looked_up = match &stored[0] {
        Value::Integer(n) => Lookup::Found(*n),
        _ => Lookup::Missing,
    };
    assert_eq!(is_owner_equivalent(&looked_up).ok(), Some(false));
    assert_eq!(answers(&conn, &Query::RankOf { username: s("bob") }), one(3));
    member(&conn, "cat", "owner");
    assert_eq!(answers(&conn, &Query::RankOf { username: s("cat") }), one(1));
    run(&conn, Write::SetMemberRole { role_id: 2, role: s("moderator"), username: s("cat") });
    assert_eq!(answers(&conn, &Query::RankOf { username: s("cat") }), one(2));
    assert_eq!(answers(&conn, &Query::RankOf { username: s("eve") }), nothing());
    run(&conn, Write::DeleteMember { username: s("cat") });
    assert_eq!(answers(&conn, &Query::RoleName { username: s("bob") }), one_text("guest"));
    assert_eq!(answers(&conn, &Query::Owners), one(1));
    assert_eq!(answers(&conn, &Query::NamedOwners), one(1));
    assert_eq!(answers(&conn, &Query::RoleHolders { role_id: 1 }), one_text("ann"));
    let set = set_role_queries("ann", "bob", &SetRoleRequest { role_id: 2 });
    assert_eq!(answers(&conn, &set.ranks.actor_bits), one(0x7dff));
    assert_eq!(answers(&conn, &set.ranks.actor_role), one(1));
    assert_eq!(answers(&conn, &set.ranks.memberships), one(1));
    assert_eq!(answers(&conn, &set.ranks.target_role), vec![Value::Null]);
    assert_eq!(answers(&conn, &set.role), one_text("Moderator"));
    assert_eq!(answers(&conn, &set.owners), one(1));
}

#[test]
fn questions_about_bans_and_mutes_are_answered() {
    let conn = group_database();
    run(&conn, Write::ReplaceBan { username: s("eve"), banned_by: s("ann"), reason: None });
    assert_eq!(answers(&conn, &Query::Bans { username: s("eve") }), one(1));
    assert_eq!(answers(&conn, &Query::BanOf { username: s("eve") }), one(1));
    assert_eq!(answers(&conn, &Query::BanOf { username: s("bob") }), nothing());
    assert_eq!(answers(&conn, &Query::BanList).len(), 1);
    let mute = |name: &str, until: i64| {
        run(&conn, Write::ReplaceMute { username: s(name), muted_by: s("ann"), reason: None, expires_at: until });
    };
    mute("x", 10);
    mute("y", 30);
    mute("z", 20);
    assert_eq!(answers(&conn, &Query::MuteOf { username: s("x") }), one(10));
    assert_eq!(
        answers(&conn, &Query::MuteList { now: 10 }),
        vec![Value::Text(s("y")), Value::Text(s("z"))]
    );
}

#[test]
fn questions_about_sessions_are_answered() {
    let conn = group_database();
    run(&conn, Write::InsertSession {
        username: s("ann"),
        display_name: s("A"),
        token: hash_token("first"),
        public_key: s("K"),
        password_hash: s("P"),
    });
    run(&conn, Write::AddDeviceToken { username: s("ann"), token: hash_token("second") });
    let (device, session) = token_queries("first");
    assert_eq!((answers(&conn, &device), answers(&conn, &session)), (nothing(), one_text("ann")));
    let (device, session) = token_queries("second");
    assert_eq!((answers(&conn, &device), answers(&conn, &session)), (one_text("ann"), nothing()));
    assert_eq!(answers(&conn, &key_query(" ann ")), one_text("K"));
    assert_eq!(answers(&conn, &Query::Identity { username: s("ann") }), one_text("A"));
    let ask = register_queries(&RegisterRequest {
        username: s("  ann"),
        display_name: s(""),
        public_key: s(""),
        password_hash: s(""),
    });
    assert_eq!(answers(&conn, &ask.session), one_text("K"));
    assert_eq!(answers(&conn, &ask.bans), one(0));
    assert_eq!(answers(&conn, &ask.memberships), one(0));
    assert_eq!(answers(&conn, &ask.groups), one(1));
    assert_eq!(answers(&conn, &ask.members), one(0));
    let join = join_queries("ann", "invite");
    assert_eq!(answers(&conn, &join.invites), one(1));
    assert_eq!(answers(&conn, &join_queries("ann", "other").invites), one(0));
    assert_eq!(answers(&conn, &join.bans), one(0));
    assert_eq!(answers(&conn, &join.memberships), one(0));
    assert_eq!(answers(&conn, &join.session), one_text("A"));
    assert_eq!(answers(&conn, &join.group_name), one_text("Old"));
}

fn owners(conn: &rusqlite::Connection, token: &str) -> (Vec<Value>, Vec<Value>) {
    let (device, session) = token_queries(token);
    (answers(conn, &device), answers(conn, &session))
}

fn registers(conn: &rusqlite::Connection, name: &str, token: &str, session: Lookup<(String, String)>, members: i64) {
    let req = RegisterRequest {
        username: s(name),
        display_name: s(name),
        public_key: s("K"),
        password_hash: s("P"),
    };
    let facts = RegisterFacts {
        bans: Lookup::Found(0),
        session,
        memberships: Lookup::Found(members),
        groups: Lookup::Found(1),
        members: Lookup::Found(1),
    };
    let out =
        register_decoded(&req, &Some(vec![0; 32]), true, &facts, "member", token, &hash_token(token)).unwrap();
    for w in out.writes {
        run(conn, w);
    }
}

#[test]
fn registering_keeps_the_tokens_of_others() {
    let conn = group_database();
    registers(&conn, "ann", "first", Lookup::Missing, 0);
    assert_eq!(owners(&conn, "first"), (one_text("ann"), one_text("ann")));
    registers(&conn, "ann", "second", Lookup::Found((s("K"), s("P"))), 1);
    assert_eq!(owners(&conn, "second"), (one_text("ann"), nothing()));
    registers(&conn, "bob", "third", Lookup::Missing, 0);
    assert_eq!(owners(&conn, "third").0, one_text("bob"));
    assert_eq!(owners(&conn, "first").0, one_text("ann"));
    assert_eq!(owners(&conn, "second").0, one_text("ann"));
    assert_eq!(number(&conn, "SELECT COUNT(*) FROM device_tokens WHERE token IN ('first', 'second', 'third')"), 0);
}

#[test]
fn questions_about_the_group_are_answered() {
    let conn = group_database();
    conn.execute_batch("UPDATE group_info SET public_channel_token = 'pub', owner_username = 'ann'").unwrap();
    assert_eq!(answers(&conn, &Query::GroupOwner), one_text("ann"));
    assert_eq!(answers(&conn, &Query::IsChannel), one(0));
    assert_eq!(answers(&conn, &Query::PublicChannels { token: s("pub") }), one(0));
    conn.execute_batch("UPDATE group_info SET is_channel = 1").unwrap();
    assert_eq!(answers(&conn, &Query::PublicChannels { token: s("pub") }), one(1));
    assert_eq!(answers(&conn, &Query::ChannelName), one(1));
    assert_eq!(answers(&conn, &Query::Settings), one_text(""));
    assert_eq!(answers(&conn, &Query::AvatarVersion), one(0));
    assert_eq!(answers(&conn, &Query::Avatar), nothing());
    assert_eq!(answers(&conn, &Query::Roles { role_id: 3 }), one(1));
    assert_eq!(answers(&conn, &Query::RoleOf { role_id: 9 }), nothing());
    assert_eq!(answers(&conn, &Query::RoleIsSystem { role_id: 3 }), one(1));
    assert_eq!(answers(&conn, &Query::RoleList).len(), 3);
    assert_eq!(answers(&conn, &Query::NextRoleOrder), one(3));
    run(&conn, Write::InsertDonation { label: s("b"), address: s("x"), sort_order: 1 });
    run(&conn, Write::InsertDonation { label: s("a"), address: s("y"), sort_order: 0 });
    assert_eq!(answers(&conn, &Query::DonationList), vec![Value::Integer(2), Value::Integer(1)]);
}

#[test]
fn questions_about_posts_are_answered() {
    let conn = group_database();
    let post = message(&conn, "News", "post", 1);
    let other = message(&conn, "News", "more", 2);
    let req = |id: Option<i64>| SendMessageRequest {
        content: s("c"),
        reply_to_id: id,
        reply_to_sender: None,
        reply_to_content: None,
    };
    let ask = send_queries("bob", &req(Some(post)));
    assert_eq!(answers(&conn, &ask.memberships), one(0));
    assert_eq!(answers(&conn, &ask.mute), nothing());
    assert_eq!(answers(&conn, &ask.role), nothing());
    assert_eq!(answers(&conn, &ask.channel), one(0));
    assert_eq!(answers(&conn, &ask.slow_mode), one(0));
    assert_eq!(answers(&conn, &ask.quoted.unwrap()), one_text("News"));
    run(&conn, Write::SetSlowMode { seconds: 15 });
    assert_eq!(answers(&conn, &Query::SlowMode), one(15));
    for emoji in ["\u{1f44d}", "\u{1f600}"] {
        run(&conn, Write::AddReaction { message_id: post, username: s("bob"), emoji: s(emoji) });
    }
    let ask = reaction_queries("bob", post, &AddReactionRequest { emoji: s(" \u{1f44d} ") });
    assert_eq!(answers(&conn, &ask.memberships), one(0));
    assert_eq!(answers(&conn, &ask.messages), one(1));
    assert_eq!(answers(&conn, &ask.same), one(1));
    assert_eq!(answers(&conn, &ask.different), one(2));
    let ask = reaction_queries("ann", post, &AddReactionRequest { emoji: s("\u{1f44d}") });
    assert_eq!(answers(&conn, &ask.same), one(0));
    assert_eq!(answers(&conn, &ask.different), one(0));
    assert!(send_queries("bob", &req(None)).quoted.is_none());
    assert_eq!(answers(&conn, &Query::Messages { message_id: post }), one(1));
    run(&conn, Write::InsertComment {
        post_id: post,
        sender: s("bob"),
        content: s("hi"),
        reply_to_id: None,
        reply_to_sender: None,
        reply_to_content: None,
        timestamp: s("t"),
        timestamp_ms: 3,
    });
    let comment = conn.last_insert_rowid();
    assert_eq!(answers(&conn, &Query::CommentList { post_id: post }), one(comment));
    let reply = |post_id: i64| {
        comment_queries("bob", post_id, &SendCommentRequest { content: s("x"), reply_to_id: Some(comment) })
    };
    assert_eq!(answers(&conn, &reply(post).quoted.unwrap()), one_text("bob"));
    assert_eq!(answers(&conn, &reply(other).quoted.unwrap()), nothing());
    assert_eq!(answers(&conn, &reply(other).posts), one(1));
    assert_eq!(answers(&conn, &reply(other).mute), nothing());
    assert_eq!(answers(&conn, &reply(other).channel), one(0));
    assert_eq!(answers(&conn, &reply(other).memberships), one(0));
    for emoji in ["\u{1f44d}", "\u{1f600}"] {
        run(&conn, Write::AddCommentReaction { comment_id: comment, username: s("bob"), emoji: s(emoji) });
    }
    let ask =
        comment_reaction_queries("bob", comment, &AddCommentReactionRequest { emoji: s(" \u{1f44d} ") });
    assert_eq!(answers(&conn, &ask.memberships), one(0));
    assert_eq!(answers(&conn, &ask.post), one(post));
    assert_eq!(answers(&conn, &ask.same), one(1));
    assert_eq!(answers(&conn, &ask.different), one(2));
}

#[test]
fn questions_about_polls_are_answered() {
    let conn = group_database();
    for i in 0..60 {
        run(&conn, Write::InsertPoll {
            question: s("Q"),
            multi_choice: i % 2 == 0,
            closes_at: None,
            created_by: s("ann"),
        });
    }
    let listed = answers(&conn, &Query::PollList);
    assert_eq!(listed.len(), 50);
    assert_eq!(listed[0], Value::Integer(60));
    run(&conn, Write::InsertPollOption { poll_id: 60, text: s("no"), sort_order: 1 });
    run(&conn, Write::InsertPollOption { poll_id: 60, text: s("yes"), sort_order: 0 });
    run(&conn, Write::AddVote { poll_id: 60, option_id: 1, username: s("bob") });
    let ask = poll_queries(60, "bob");
    assert_eq!(answers(&conn, &ask.poll), one_text("Q"));
    assert_eq!(answers(&conn, &ask.options), vec![Value::Integer(2), Value::Integer(1)]);
    assert_eq!(answers(&conn, &ask.mine), one(1));
    assert_eq!(answers(&conn, &Query::OptionVotes { poll_id: 60, option_id: 1 }), one(1));
    assert_eq!(answers(&conn, &Query::OptionVotes { poll_id: 60, option_id: 2 }), one(0));
    assert_eq!(answers(&conn, &Query::PollRules { poll_id: 60 }), one(0));
    assert_eq!(answers(&conn, &Query::OwnOptions { option_id: 2, poll_id: 60 }), one(1));
    assert_eq!(answers(&conn, &Query::OwnOptions { option_id: 2, poll_id: 59 }), one(0));
}
