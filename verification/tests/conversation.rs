use onyx_server::error::{AppError, Lookup};
use onyx_server::handlers::comments::{
    add_comment_reaction, comment_made, comment_reaction_changed, comment_reactions_query, create_comment,
    create_comment_inner, delete_comment, edit_comment, list_comments, load_comment_previews,
    load_comment_reactions_map, previews_query, remove_comment_reaction, AddCommentReactionRequest,
    CommentFacts, CommentPreview, CommentReactionFacts, EditCommentRequest, PreviewRow, SendCommentRequest,
};
use onyx_server::handlers::messages::{
    add_reaction, delete_message, edit_message, get_group_history, get_history, get_my_role,
    get_public_channel_history, history_limit, history_statement, is_valid_emoji, join_group,
    join_group_inner, leave_group, load_reactions_map, message_sent, reaction_changed, reactions_query,
    remove_reaction, send_group_message, send_message, send_message_inner, AddReactionRequest, Draft,
    EditMessageRequest, HistoryQuery, JoinFacts, ReactionFacts, ReactionRow, SendDecision, SendFacts,
    SendLimits,
};
use onyx_server::json::JsonValue;
use onyx_server::models::message::{Message, SendMessageRequest};
use onyx_server::models::permission::{DELETE_MESSAGES, KICK_MEMBERS};
use onyx_server::outcome::{Notice, Outcome};
use onyx_server::rate_limit::{RateLimiter, SlowModeTracker};
use onyx_server::store::{SqlValue, Write};

fn render(v: &JsonValue) -> String {
    match v {
        JsonValue::Null => "null".to_string(),
        JsonValue::Bool(b) => format!("{}", b),
        JsonValue::Int(n) => format!("{}", n),
        JsonValue::OtherNumber => "number".to_string(),
        JsonValue::Text(s) => format!("{:?}", s),
        JsonValue::Array(items) => {
            let parts: Vec<String> = items.iter().map(render).collect();
            format!("[{}]", parts.join(","))
        }
        JsonValue::Object(fields) => {
            let parts: Vec<String> =
                fields.iter().map(|f| format!("{:?}:{}", f.key, render(&f.value))).collect();
            format!("{{{}}}", parts.join(","))
        }
    }
}

fn broadcast(out: &Outcome, i: usize) -> String {
    match &out.notices[i] {
        Notice::Broadcast(v) => render(v),
        Notice::ToUser(..) => panic!("not a broadcast"),
    }
}

fn member() -> Lookup<i64> {
    Lookup::Found(1)
}

fn row(id: i64, emoji: &str, user: &str) -> ReactionRow {
    ReactionRow { message_id: id, emoji: emoji.to_string(), username: user.to_string() }
}

fn message(id: i64, sender: &str) -> Message {
    Message {
        id,
        sender_username: sender.to_string(),
        content: "hi".to_string(),
        reply_to_id: None,
        reply_to_sender: None,
        reply_to_content: None,
        timestamp: "t".to_string(),
        timestamp_ms: 5,
    }
}

fn limits() -> SendLimits {
    SendLimits { max_messages_per_minute: 2, max_message_length: 5 }
}

fn say(content: &str) -> SendMessageRequest {
    SendMessageRequest {
        content: content.to_string(),
        reply_to_id: None,
        reply_to_sender: Some("said".to_string()),
        reply_to_content: Some("it".to_string()),
    }
}

fn send_facts() -> SendFacts {
    SendFacts {
        memberships: member(),
        mute: Lookup::Missing,
        role: Lookup::Found(3),
        channel: Lookup::Found((false, "News".to_string())),
        slow_mode: Lookup::Found(0),
        quoted: Lookup::Missing,
    }
}

const SECOND: u64 = 1_000_000_000;

fn decide(allowed: bool, req: &SendMessageRequest, facts: &SendFacts, now: i64) -> SendDecision {
    let mut slow = SlowModeTracker::new();
    send_message_inner(allowed, &mut slow, 0, &limits(), "ann", req, facts, now, "now", 12)
}

fn send(req: &SendMessageRequest, facts: &SendFacts) -> Result<Draft, AppError> {
    decide(true, req, facts, 100).message
}

#[test]
fn history_asks_for_at_most_two_hundred() {
    assert_eq!(history_limit(&HistoryQuery { before_id: None, limit: None }), 50);
    assert_eq!(history_limit(&HistoryQuery { before_id: None, limit: Some(7) }), 7);
    assert_eq!(history_limit(&HistoryQuery { before_id: None, limit: Some(1000) }), 200);
    let s = history_statement(&HistoryQuery { before_id: Some(9), limit: Some(3) });
    assert!(s.sql.contains("WHERE id < ?1 ORDER BY id DESC LIMIT ?2"));
    assert!(matches!(s.params[0], SqlValue::Int(9)));
    assert!(matches!(s.params[1], SqlValue::Int(3)));
    let all = history_statement(&HistoryQuery { before_id: None, limit: None });
    assert!(all.sql.ends_with("ORDER BY id DESC LIMIT ?1"));
    assert!(reactions_query(3).contains("IN (?1, ?2, ?3) ORDER BY"));
    assert!(comment_reactions_query(1).contains("IN (?1) ORDER BY"));
    assert!(previews_query(2).ends_with("IN (?1, ?2) GROUP BY c.post_id"));
}

#[test]
fn history_comes_oldest_first_with_reactions() {
    let rows = Ok(vec![message(2, "bob"), message(1, "ann")]);
    let reactions = vec![row(1, "🎉", "bob"), row(1, "👍", "ann"), row(1, "🎉", "cat"), row(3, "👍", "x")];
    let out = get_history(&member(), &rows, &reactions).unwrap();
    assert_eq!(
        render(&out.reply),
        "[{\"id\":1,\"sender\":\"ann\",\"content\":\"hi\",\"reply_to_id\":null,\"reply_to_sender\":null,\
         \"reply_to_content\":null,\"timestamp\":\"t\",\"timestamp_ms\":5,\
         \"reactions\":{\"🎉\":[\"bob\",\"cat\"],\"👍\":[\"ann\"]}},\
         {\"id\":2,\"sender\":\"bob\",\"content\":\"hi\",\"reply_to_id\":null,\"reply_to_sender\":null,\
         \"reply_to_content\":null,\"timestamp\":\"t\",\"timestamp_ms\":5,\"reactions\":{}}]"
    );
    assert!(matches!(get_group_history(7, &Lookup::Found(0), &rows, &reactions),
        Err(AppError::Forbidden(m)) if m == "Not a member of this group"));
    assert!(get_public_channel_history(&member(), &rows, &reactions).is_ok());
    assert!(matches!(get_public_channel_history(&Lookup::Failed("x".to_string()), &rows, &reactions),
        Err(AppError::NotFound(m)) if m == "Public channel not found"));
    let failed: Result<Vec<Message>, String> = Err("gone".to_string());
    assert!(matches!(get_history(&member(), &failed, &reactions), Err(AppError::Internal(m)) if m == "gone"));
    let map = load_reactions_map(&reactions, &vec![3, 4]);
    assert_eq!(map.len(), 1);
    assert_eq!(render(&map[&3]), "{\"👍\":[\"x\"]}");
    assert!(load_reactions_map(&reactions, &Vec::new()).is_empty());
}

#[test]
fn a_message_is_stored_and_broadcast() {
    let draft = send(&say(" hey "), &send_facts()).ok().unwrap();
    assert!(matches!(draft.write(), Write::InsertMessage { sender, content, reply_to_id: None, .. }
        if sender == "ann" && content == "hey"));
    let out = message_sent(&draft, 42);
    assert_eq!(
        broadcast(&out, 0),
        "{\"type\":\"group_msg\",\"group_id\":1,\"message_id\":42,\"from\":\"ann\",\"sender\":\"ann\",\
         \"content\":\"hey\",\"timestamp\":\"now\",\"timestamp_ms\":12,\"reply_to_id\":null,\
         \"reply_to_sender\":null,\"reply_to_content\":null}"
    );
    assert_eq!(render(&out.reply), "{\"ok\":true,\"message_id\":42,\"timestamp\":\"now\",\"timestamp_ms\":12}");
}

#[test]
fn a_channel_speaks_with_its_own_name() {
    let mut facts = send_facts();
    facts.channel = Lookup::Found((true, "News".to_string()));
    facts.role = Lookup::Found(1);
    let draft = send(&say("hey"), &facts).ok().unwrap();
    assert_eq!(draft.sender, "News");
    facts.channel = Lookup::Missing;
    let draft = send(&say("hey"), &facts).ok().unwrap();
    assert_eq!(draft.sender, "ann");
}

#[test]
fn only_the_owner_posts_in_a_channel() {
    let mut facts = send_facts();
    facts.channel = Lookup::Found((true, "News".to_string()));
    for role in [Lookup::Found(2), Lookup::Found(3), Lookup::Found(9), Lookup::Missing] {
        facts.role = role;
        assert!(matches!(send(&say("hey"), &facts),
            Err(AppError::Forbidden(m)) if m == "Only the owner can post in a channel"));
    }
    facts.role = Lookup::Failed("r".to_string());
    assert!(matches!(send(&say("hey"), &facts), Err(AppError::Internal(m)) if m == "r"));
    facts.role = Lookup::Found(1);
    assert!(send(&say("hey"), &facts).is_ok());
    facts.channel = Lookup::Found((false, "News".to_string()));
    facts.role = Lookup::Found(3);
    assert!(send(&say("hey"), &facts).is_ok());
}

#[test]
fn the_muted_cannot_send() {
    let mut facts = send_facts();
    facts.mute = Lookup::Found(101);
    let silent = decide(true, &say("hey"), &facts, 100);
    assert!(!silent.clear_mute);
    assert!(matches!(silent.message, Err(AppError::Forbidden(m)) if m == "You are muted until 101"));
    let over = decide(true, &say("hey"), &facts, 101);
    assert!(over.clear_mute && over.message.is_ok());
    facts.channel = Lookup::Found((true, "News".to_string()));
    let refused = decide(true, &say("hey"), &facts, 101);
    assert!(refused.clear_mute && refused.message.is_err());
}

#[test]
fn slow_mode_holds_regular_members_back() {
    let mut slow = SlowModeTracker::new();
    let mut facts = send_facts();
    facts.slow_mode = Lookup::Found(10);
    let mut sent = |facts: &SendFacts, content: &str, since: u64| {
        send_message_inner(true, &mut slow, since, &limits(), "ann", &say(content), facts, 100, "now", 12).message
    };
    assert!(sent(&facts, "", 0).is_err());
    assert!(sent(&facts, "a", SECOND).is_ok());
    assert!(matches!(sent(&facts, "b", 4 * SECOND),
        Err(AppError::BadRequest(m)) if m == "Slow mode: wait 7 seconds"));
    assert!(sent(&facts, "c", 11 * SECOND).is_ok());
    facts.role = Lookup::Found(2);
    assert!(sent(&facts, "d", 12 * SECOND).is_ok());
    facts.role = Lookup::Found(1);
    assert!(sent(&facts, "e", 13 * SECOND).is_ok());
    facts.role = Lookup::Missing;
    assert!(matches!(sent(&facts, "f", 14 * SECOND),
        Err(AppError::BadRequest(m)) if m == "Slow mode: wait 9 seconds"));
    facts.slow_mode = Lookup::Missing;
    assert!(sent(&facts, "g", 14 * SECOND).is_ok());
    facts.slow_mode = Lookup::Failed("s".to_string());
    assert!(matches!(sent(&facts, "h", 99 * SECOND), Err(AppError::Internal(m)) if m == "s"));
}

#[test]
fn replies_quote_what_is_stored() {
    let mut req = say("hey");
    req.reply_to_id = Some(4);
    let mut facts = send_facts();
    let draft = send(&req, &facts).ok().unwrap();
    assert_eq!(draft.reply_to_id, Some(4));
    assert_eq!(draft.reply_to_sender, Some("said".to_string()));
    facts.quoted = Lookup::Found(("bob".to_string(), "yo".to_string()));
    let draft = send(&req, &facts).ok().unwrap();
    assert_eq!(draft.reply_to_sender, Some("bob".to_string()));
    assert_eq!(draft.reply_to_content, Some("yo".to_string()));
    facts.quoted = Lookup::Failed("q".to_string());
    assert!(send(&req, &facts).is_err());
    req.reply_to_id = None;
    assert!(send(&req, &facts).is_ok());
}

#[test]
fn messages_are_refused() {
    let refused = |allowed: bool, content: &str, facts: &SendFacts| {
        decide(allowed, &say(content), facts, 100).message.err().unwrap()
    };
    assert!(matches!(refused(false, "x", &send_facts()),
        AppError::BadRequest(m) if m == "Rate limit exceeded: max 2 messages per minute"));
    assert!(matches!(refused(true, " \n", &send_facts()),
        AppError::BadRequest(m) if m == "Message content required"));
    assert!(send(&say("éée"), &send_facts()).is_ok());
    assert!(matches!(refused(true, "ééé", &send_facts()),
        AppError::BadRequest(m) if m == "Message too long (max 5 chars)"));
    let mut out = send_facts();
    out.memberships = Lookup::Found(0);
    assert!(matches!(refused(true, "x", &out), AppError::Forbidden(m) if m == "Not a member of this group"));
    let mut broken = send_facts();
    broken.channel = Lookup::Failed("c".to_string());
    assert!(matches!(refused(true, "x", &broken), AppError::Internal(m) if m == "c"));
}

#[test]
fn senders_are_limited() {
    let mut limiter = RateLimiter::new(2);
    let mut slow = SlowModeTracker::new();
    let mut sent = |username: &str, content: &str, facts: &SendFacts| {
        send_message(&mut limiter, &mut slow, &limits(), username, &say(content), facts, 1, "n", 1).message
    };
    assert!(sent("ann", "a", &send_facts()).is_ok());
    assert!(sent("ann", "", &send_facts()).is_err());
    assert!(matches!(sent("ann", "a", &send_facts()),
        Err(AppError::BadRequest(m)) if m.starts_with("Rate limit exceeded")));
    assert!(sent("bob", "a", &send_facts()).is_ok());
    let mut facts = send_facts();
    facts.slow_mode = Lookup::Found(60);
    assert!(matches!(sent("bob", "b", &facts),
        Err(AppError::BadRequest(m)) if m.starts_with("Slow mode: wait ")));
    let other =
        send_group_message(1, &mut limiter, &mut slow, &limits(), "cat", &say("a"), &facts, 1, "n", 1).message;
    assert!(other.is_ok());
}

fn join_facts() -> JoinFacts {
    JoinFacts {
        invites: Lookup::Found(1),
        bans: Lookup::Found(0),
        memberships: Lookup::Found(0),
        session: Lookup::Found(("Ann".to_string(), "key".to_string())),
        group_name: Lookup::Found("Chess".to_string()),
    }
}

#[test]
fn joining_with_an_invitation() {
    let mut limiter = RateLimiter::new(1);
    let out = join_group(&mut limiter, 1, "ann", &join_facts(), "member").unwrap();
    assert!(matches!(&out.writes[0], Write::InsertMember { username, display_name, role, .. }
        if username == "ann" && display_name == "Ann" && role == "member"));
    assert_eq!(render(&out.reply), "{\"ok\":true,\"group_id\":1,\"group_name\":\"Chess\"}");
    assert_eq!(
        broadcast(&out, 0),
        "{\"type\":\"group_joined\",\"group_id\":1,\"username\":\"ann\",\"display_name\":\"Ann\"}"
    );
    assert!(matches!(join_group(&mut limiter, 1, "ann", &join_facts(), "member"),
        Err(AppError::BadRequest(m)) if m == "Rate limit exceeded: max 1 join attempts per minute"));
    let refused = |change: &dyn Fn(&mut JoinFacts)| {
        let mut f = join_facts();
        change(&mut f);
        join_group_inner(true, 1, "ann", &f, "member").err().unwrap()
    };
    assert!(matches!(refused(&|f| f.invites = Lookup::Found(0)),
        AppError::NotFound(m) if m == "Invalid invite token"));
    assert!(matches!(refused(&|f| f.bans = Lookup::Found(1)),
        AppError::Forbidden(m) if m == "You are banned from this group"));
    assert!(matches!(refused(&|f| f.memberships = Lookup::Found(1)),
        AppError::Conflict(m) if m == "Already a member of this group"));
    assert!(matches!(refused(&|f| f.session = Lookup::Missing),
        AppError::Internal(m) if m == "Session not found"));
    let mut nameless = join_facts();
    nameless.group_name = Lookup::Missing;
    let out = join_group_inner(true, 1, "ann", &nameless, "member").unwrap();
    assert!(render(&out.reply).contains("Unknown"));
}

#[test]
fn the_last_owner_cannot_leave() {
    let owner = Lookup::Found("owner".to_string());
    assert!(matches!(leave_group("ann", &owner, &Lookup::Found(1)),
        Err(AppError::BadRequest(m)) if m == "Last owner cannot leave the group"));
    assert!(leave_group("ann", &owner, &Lookup::Missing).is_err());
    let out = leave_group("ann", &owner, &Lookup::Found(2)).unwrap();
    assert!(matches!(&out.writes[0], Write::DeleteMember { username } if username == "ann"));
    let out = leave_group("bob", &Lookup::Missing, &Lookup::Found(1)).unwrap();
    assert!(matches!(out.settled(0), Err(AppError::NotFound(m)) if m == "Not a member of this group"));
    let out = leave_group("bob", &Lookup::Found("member".to_string()), &Lookup::Found(1)).unwrap();
    assert!(out.settled(1).is_ok());
}

#[test]
fn roles_of_ones_own() {
    assert_eq!(render(&get_my_role(&Lookup::Missing).unwrap().reply), "{\"ok\":true,\"role\":\"member\"}");
    let owner = get_my_role(&Lookup::Found("owner".to_string())).unwrap();
    assert_eq!(render(&owner.reply), "{\"ok\":true,\"role\":\"owner\"}");
    assert!(get_my_role(&Lookup::Failed("x".to_string())).is_err());
}

#[test]
fn own_messages_are_deleted_and_edited() {
    let out = delete_message("ann", 3, &member()).unwrap();
    assert!(matches!(&out.writes[0], Write::DeleteOwnMessage { message_id: 3, sender } if sender == "ann"));
    assert_eq!(broadcast(&out, 0), "{\"type\":\"group_msg_deleted\",\"group_id\":1,\"message_id\":3}");
    assert!(matches!(out.settled(0), Err(AppError::NotFound(m)) if m == "Message not found or not yours"));
    assert!(matches!(delete_message("ann", 3, &Lookup::Found(0)),
        Err(AppError::Forbidden(m)) if m == "Not a member"));
    let req = EditMessageRequest { content: " new ".to_string() };
    let out = edit_message("ann", 3, &req, &member()).unwrap();
    assert!(matches!(&out.writes[0], Write::EditOwnMessage { content, .. } if content == "new"));
    assert_eq!(
        broadcast(&out, 0),
        "{\"type\":\"group_msg_edited\",\"group_id\":1,\"message_id\":3,\"new_content\":\"new\",\"edited_by\":\"ann\"}"
    );
    let empty = EditMessageRequest { content: " ".to_string() };
    assert!(matches!(edit_message("ann", 3, &empty, &member()),
        Err(AppError::BadRequest(m)) if m == "Content cannot be empty"));
}

#[test]
fn emojis_are_short_and_not_ascii() {
    assert!(is_valid_emoji(" 👍 "));
    assert!(!is_valid_emoji("ok"));
    assert!(!is_valid_emoji(""));
    assert!(!is_valid_emoji(&"👍".repeat(9)));
    assert!(is_valid_emoji(&"👍".repeat(8)));
}

fn reaction_facts(same: i64, different: i64) -> ReactionFacts {
    ReactionFacts {
        memberships: member(),
        messages: Lookup::Found(1),
        same: Lookup::Found(same),
        different: Lookup::Found(different),
    }
}

#[test]
fn two_emojis_a_message() {
    let req = AddReactionRequest { emoji: "👍".to_string() };
    assert!(add_reaction("ann", 4, &req, &reaction_facts(0, 1)).is_ok());
    assert!(add_reaction("ann", 4, &req, &reaction_facts(1, 2)).is_ok());
    assert!(matches!(add_reaction("ann", 4, &req, &reaction_facts(0, 2)),
        Err(AppError::BadRequest(m)) if m == "You can react with at most 2 different emojis per message"));
}

#[test]
fn reacting_and_taking_it_back() {
    let req = AddReactionRequest { emoji: " 👍 ".to_string() };
    let write = add_reaction("ann", 4, &req, &reaction_facts(0, 0)).unwrap();
    assert!(matches!(&write, Write::AddReaction { message_id: 4, emoji, .. } if emoji == "👍"));
    let back = remove_reaction("ann", 4, "👍", &member()).unwrap();
    assert!(matches!(&back, Write::RemoveReaction { message_id: 4, .. }));
    let rows = vec![row(4, "👍", "ann")];
    let out = reaction_changed("ann", 4, " 👍", true, &rows);
    assert_eq!(
        broadcast(&out, 0),
        "{\"type\":\"reaction_update\",\"group_id\":1,\"message_id\":4,\"reactions\":{\"👍\":[\"ann\"]},\
         \"actor\":\"ann\",\"emoji\":\"👍\",\"action\":\"add\"}"
    );
    assert_eq!(render(&out.reply), "{\"ok\":true,\"reactions\":{\"👍\":[\"ann\"]}}");
    let gone = reaction_changed("ann", 4, "👍", false, &Vec::new());
    assert!(broadcast(&gone, 0).ends_with("\"action\":\"remove\"}"));
    let bad = AddReactionRequest { emoji: "ok".to_string() };
    assert!(matches!(add_reaction("ann", 4, &bad, &reaction_facts(0, 0)),
        Err(AppError::BadRequest(m)) if m == "Invalid emoji"));
    let mut none = reaction_facts(0, 0);
    none.messages = Lookup::Found(0);
    assert!(matches!(add_reaction("ann", 4, &req, &none),
        Err(AppError::NotFound(m)) if m == "Message not found"));
    assert!(matches!(remove_reaction("ann", 4, "👍", &Lookup::Found(0)), Err(AppError::Forbidden(_))));
}

fn comment_facts() -> CommentFacts {
    CommentFacts {
        memberships: member(),
        mute: Lookup::Missing,
        channel: Lookup::Found(true),
        posts: Lookup::Found(1),
        quoted: Lookup::Missing,
    }
}

fn comment(content: &str) -> SendCommentRequest {
    SendCommentRequest { content: content.to_string(), reply_to_id: Some(8) }
}

#[test]
fn comments_are_made_on_channel_posts() {
    let made = create_comment_inner(true, &limits(), "ann", 6, &comment(" hey "), &comment_facts(), 100, "t", 101);
    assert!(!made.clear_mute);
    let draft = made.comment.ok().unwrap();
    assert!(matches!(draft.write(), Write::InsertComment { post_id: 6, sender, content, reply_to_id: Some(8),
        reply_to_sender: None, .. } if sender == "ann" && content == "hey"));
    let out = comment_made(&draft, 6, 77);
    let json = "{\"id\":77,\"post_id\":6,\"sender\":\"ann\",\"content\":\"hey\",\"reply_to_id\":8,\
        \"reply_to_sender\":null,\"reply_to_content\":null,\"timestamp\":\"t\",\"timestamp_ms\":101}";
    assert_eq!(render(&out.reply), json);
    assert_eq!(
        broadcast(&out, 0),
        format!("{{\"type\":\"comment_added\",\"group_id\":1,\"post_id\":6,\"comment\":{}}}", json)
    );
}

#[test]
fn the_muted_cannot_comment() {
    let mut facts = comment_facts();
    facts.mute = Lookup::Found(101);
    let made = create_comment_inner(true, &limits(), "ann", 6, &comment("hey"), &facts, 100, "t", 101);
    assert!(!made.clear_mute);
    assert!(matches!(made.comment, Err(AppError::Forbidden(m)) if m == "You are muted until 101"));
    let made = create_comment_inner(true, &limits(), "ann", 6, &comment("hey"), &facts, 101, "t", 101);
    assert!(made.clear_mute && made.comment.is_ok());
    facts.channel = Lookup::Found(false);
    let made = create_comment_inner(true, &limits(), "ann", 6, &comment("hey"), &facts, 101, "t", 101);
    assert!(made.clear_mute);
    assert!(matches!(made.comment,
        Err(AppError::Forbidden(m)) if m == "Comments are only available on channel posts"));
}

#[test]
fn comments_are_refused() {
    let refused = |allowed: bool, content: &str, change: &dyn Fn(&mut CommentFacts)| {
        let mut f = comment_facts();
        change(&mut f);
        create_comment_inner(allowed, &limits(), "ann", 6, &comment(content), &f, 100, "t", 101).comment.err().unwrap()
    };
    assert!(matches!(refused(false, "x", &|_| {}),
        AppError::BadRequest(m) if m == "Rate limit exceeded: max 2 messages per minute"));
    assert!(matches!(refused(true, " ", &|_| {}), AppError::BadRequest(m) if m == "Comment content required"));
    assert!(matches!(refused(true, "abcdef", &|_| {}),
        AppError::BadRequest(m) if m == "Comment too long (max 5 chars)"));
    assert!(matches!(refused(true, "x", &|f| f.memberships = Lookup::Missing),
        AppError::Forbidden(m) if m == "Not a member of this group"));
    assert!(matches!(refused(true, "x", &|f| f.posts = Lookup::Found(0)),
        AppError::NotFound(m) if m == "Post not found"));
    assert!(matches!(refused(true, "x", &|f| f.quoted = Lookup::Failed("q".to_string())),
        AppError::Internal(m) if m == "q"));
    let mut limiter = RateLimiter::new(1);
    let first = create_comment(&mut limiter, &limits(), "ann", 6, &comment("x"), &comment_facts(), 1, "t", 1);
    assert!(first.comment.is_ok());
    let second = create_comment(&mut limiter, &limits(), "ann", 6, &comment("x"), &comment_facts(), 1, "t", 1);
    assert!(second.comment.is_err());
}

#[test]
fn comment_reactions_are_counted_not_named() {
    let rows = vec![row(4, "👍", "ann"), row(4, "👍", "bob"), row(4, "🎉", "bob")];
    let mine = load_comment_reactions_map(&rows, &vec![4, 5], &Some("ann".to_string()));
    assert_eq!(
        render(&mine[&4]),
        "{\"👍\":{\"count\":2,\"reactedByMe\":true},\"🎉\":{\"count\":1,\"reactedByMe\":false}}"
    );
    assert!(!mine.contains_key(&5));
    let out = comment_reaction_changed("ann", 6, 4, " 👍 ", true, &rows);
    assert_eq!(
        broadcast(&out, 0),
        "{\"type\":\"comment_reaction_update\",\"group_id\":1,\"post_id\":6,\"comment_id\":4,\
         \"reactions\":{\"👍\":{\"count\":2,\"reactedByMe\":false},\"🎉\":{\"count\":1,\"reactedByMe\":false}},\
         \"emoji\":\"👍\",\"action\":\"add\"}"
    );
    assert!(render(&out.reply).contains("\"reactedByMe\":true"));
    let other = vec![row(4, "👍", "x"), row(4, "👍", "y"), row(4, "🎉", "z")];
    assert_eq!(broadcast(&comment_reaction_changed("ann", 6, 4, "👍", true, &other), 0), broadcast(&out, 0));
    let others = vec![row(4, "👍", "ann"), row(4, "👍", "x"), row(4, "🎉", "y")];
    let seen = load_comment_reactions_map(&others, &vec![4], &Some("ann".to_string()));
    assert_eq!(render(&seen[&4]), render(&mine[&4]));
}

#[test]
fn two_emojis_a_comment() {
    let facts = |same: i64, different: i64| CommentReactionFacts {
        memberships: member(),
        post: Lookup::Found(6),
        same: Lookup::Found(same),
        different: Lookup::Found(different),
    };
    let req = AddCommentReactionRequest { emoji: "👍".to_string() };
    let (post, write) = add_comment_reaction("ann", 4, &req, &facts(0, 1)).unwrap();
    assert_eq!(post, 6);
    assert!(matches!(write, Write::AddCommentReaction { comment_id: 4, .. }));
    assert!(add_comment_reaction("ann", 4, &req, &facts(1, 2)).is_ok());
    assert!(matches!(add_comment_reaction("ann", 4, &req, &facts(0, 2)),
        Err(AppError::BadRequest(m)) if m == "You can react with at most 2 different emojis per comment"));
    let mut gone = facts(0, 0);
    gone.post = Lookup::Missing;
    assert!(matches!(add_comment_reaction("ann", 4, &req, &gone),
        Err(AppError::NotFound(m)) if m == "Comment not found"));
    let (_, back) = remove_comment_reaction("ann", 4, "👍", &member(), &Lookup::Found(6)).unwrap();
    assert!(matches!(back, Write::RemoveCommentReaction { comment_id: 4, .. }));
    assert!(remove_comment_reaction("ann", 4, "x", &member(), &Lookup::Found(6)).is_err());
}

#[test]
fn comments_are_listed_with_previews() {
    let rows = Ok(vec![message(4, "ann")]);
    let reactions = vec![row(4, "👍", "ann")];
    let out = list_comments("ann", 6, &member(), &Lookup::Found(1), &rows, &reactions).unwrap();
    assert_eq!(
        render(&out.reply),
        "[{\"id\":4,\"post_id\":6,\"sender\":\"ann\",\"content\":\"hi\",\"reply_to_id\":null,\
         \"reply_to_sender\":null,\"reply_to_content\":null,\"timestamp\":\"t\",\"timestamp_ms\":5,\
         \"reactions\":{\"👍\":{\"count\":1,\"reactedByMe\":true}}}]"
    );
    assert!(matches!(list_comments("ann", 6, &member(), &Lookup::Found(0), &rows, &reactions),
        Err(AppError::NotFound(m)) if m == "Post not found"));
    let previews = vec![PreviewRow {
        post_id: 6,
        preview: CommentPreview { count: 3, last_sender: Some("bob".to_string()), last_content: None },
    }];
    let found = load_comment_previews(&previews, &vec![6, 7]);
    assert_eq!(found[&6].count, 3);
    assert_eq!(found[&6].last_sender, Some("bob".to_string()));
    assert!(!found.contains_key(&7));
}

#[test]
fn own_comments_are_edited_and_any_deleted_with_permission() {
    let req = EditCommentRequest { content: " new ".to_string() };
    let out = edit_comment("ann", 4, &req, 5, &member(), &Lookup::Found(6)).unwrap();
    assert_eq!(
        broadcast(&out, 0),
        "{\"type\":\"comment_edited\",\"group_id\":1,\"post_id\":6,\"comment_id\":4,\"new_content\":\"new\",\
         \"edited_by\":\"ann\"}"
    );
    assert!(matches!(out.settled(0), Err(AppError::NotFound(m)) if m == "Comment not found or not yours"));
    assert!(matches!(edit_comment("ann", 4, &req, 2, &member(), &Lookup::Found(6)),
        Err(AppError::BadRequest(m)) if m == "Comment too long (max 2 chars)"));
    let out = delete_comment("ann", 4, &member(), &Lookup::Found(6), &Lookup::Found(KICK_MEMBERS)).unwrap();
    assert!(matches!(&out.writes[0], Write::DeleteOwnComment { comment_id: 4, sender } if sender == "ann"));
    let out = delete_comment("ann", 4, &member(), &Lookup::Found(6), &Lookup::Found(DELETE_MESSAGES)).unwrap();
    assert!(matches!(&out.writes[0], Write::DeleteComment { comment_id: 4 }));
    assert_eq!(
        broadcast(&out, 0),
        "{\"type\":\"comment_deleted\",\"group_id\":1,\"post_id\":6,\"comment_id\":4}"
    );
    assert!(delete_comment("ann", 4, &member(), &Lookup::Missing, &Lookup::Missing).is_err());
}
