//! Messages and reactions to them, and joining and leaving the group.

use crate::error::{
    any_counted, bad_request, conflict, counted, forbidden, none_found, not_found, shown, some_found,
    AppError, Lookup, Refusal,
};
use crate::group::{
    applied, finds_rank, finds_role_name, rank_of, without_message, GroupDb, MemberRow, PostRow,
};
use crate::handlers::checks::{
    is_surely_counted, members_only, require_member, rows_found, surely_counted, GROUP,
};
use crate::handlers::moderation_handlers::{active_mute_expiry, mute_in_force, mute_is_over};
use crate::json::{
    array, int_or_none, int_or_null, jsons, lookup_of_field, lookup_of_nothing, lookup_of_push, member_of,
    obj, opt_text, text_array, text_or_none, text_or_null, texts_json, Fields, Json, JsonValue,
};
use crate::models::message::{Message, SendMessageRequest};
use crate::outcome::{ok_json, ok_reply, replying, told, Effect, Outcome, Packet};
use crate::permissions::{MODERATOR_ROLE, OWNER_ROLE};
use crate::rate_limit::{
    allowed, last_of, recorded, stamps_of, wait_left, RateLimiter, SlowModeTracker,
};
use crate::query::{asks, Query};
use crate::store::{Change, Param, Statement, Write};
use crate::text::{
    byte_count, byte_len, chars_of, decimal, glue, glue3, is_among, same, show_i64, show_u64, signed_decimal,
    texts, trim, trimmed, trimming_is_idempotent,
};
use std::collections::HashMap;
use vstd::prelude::*;
use vstd::string::*;

verus! {

/// A request to change a message.
pub struct EditMessageRequest {
    pub content: String,
}

/// Which part of the history is asked for.
pub struct HistoryQuery {
    pub before_id: Option<i64>,
    pub limit: Option<i64>,
}

/// A request to react to a message.
pub struct AddReactionRequest {
    pub emoji: String,
}

/// A reaction.
pub struct ReactionRow {
    pub message_id: i64,
    pub emoji: String,
    pub username: String,
}

/// How many messages are asked for: 50 if nothing else is said, 200 at most.
pub open spec fn limit_of(limit: Option<i64>) -> i64 {
    match limit {
        Some(n) => if n < 200 {
            n
        } else {
            200
        },
        None => 50,
    }
}

/// How many messages are asked for.
pub fn history_limit(query: &HistoryQuery) -> (res: i64)
    ensures
        res == limit_of(query.limit),
        res <= 200,
{
    match query.limit {
        Some(n) => if n < 200 {
            n
        } else {
            200
        },
        None => 50,
    }
}

/// The query for a part of the history, newest first.
pub fn history_statement(query: &HistoryQuery) -> (res: Statement)
    ensures
        res@ == (match query.before_id {
            Some(before) => (
                "SELECT id, sender_username, content, reply_to_id, reply_to_sender, reply_to_content, timestamp, timestamp_ms FROM messages WHERE id < ?1 ORDER BY id DESC LIMIT ?2"@,
                Seq::empty().push(Param::Int(before)).push(Param::Int(limit_of(query.limit))),
            ),
            None => (
                "SELECT id, sender_username, content, reply_to_id, reply_to_sender, reply_to_content, timestamp, timestamp_ms FROM messages ORDER BY id DESC LIMIT ?1"@,
                Seq::empty().push(Param::Int(limit_of(query.limit))),
            ),
        }),
{
    let limit: i64 = history_limit(query);
    match query.before_id {
        Some(before) => Statement::new(
            "SELECT id, sender_username, content, reply_to_id, reply_to_sender, reply_to_content, timestamp, timestamp_ms FROM messages WHERE id < ?1 ORDER BY id DESC LIMIT ?2",
        ).number(before).number(limit),
        None => Statement::new(
            "SELECT id, sender_username, content, reply_to_id, reply_to_sender, reply_to_content, timestamp, timestamp_ms FROM messages ORDER BY id DESC LIMIT ?1",
        ).number(limit),
    }
}

/// The placeholders of so many parameters: `?1, ?2, ?3`.
pub open spec fn placeholders(n: nat) -> Seq<char>
    decreases n,
{
    if n == 0 {
        Seq::empty()
    } else if n == 1 {
        "?"@ + decimal(1)
    } else {
        placeholders((n - 1) as nat) + ", ?"@ + decimal(n)
    }
}

/// The query for the reactions to so many messages.
pub fn reactions_query(count: u64) -> (res: String)
    ensures
        res@
            == "SELECT message_id, emoji, reactor_username FROM message_reactions WHERE message_id IN ("@
            + placeholders(count as nat) + ") ORDER BY message_id, emoji, created_at"@,
{
    let list = placeholder_list(count);
    glue3(
        "SELECT message_id, emoji, reactor_username FROM message_reactions WHERE message_id IN (",
        list.as_str(),
        ") ORDER BY message_id, emoji, created_at",
    )
}

/// The placeholders of so many parameters.
pub fn placeholder_list(count: u64) -> (res: String)
    ensures
        res@ == placeholders(count as nat),
{
    let mut list = String::new();
    let mut i: u64 = 0;
    while i < count
        invariant
            i <= count,
            list@ == placeholders(i as nat),
        decreases count - i,
    {
        let number = show_u64(i + 1);
        if i == 0 {
            list = glue("?", number.as_str());
        } else {
            list = glue3(list.as_str(), ", ?", number.as_str());
        }
        i += 1;
    }
    list
}

/// The different emojis that someone reacted to a message with, in the order in
/// which they come up.
pub open spec fn emojis_of(rows: Seq<ReactionRow>, id: i64) -> Seq<Seq<char>>
    decreases rows.len(),
{
    if rows.len() == 0 {
        Seq::empty()
    } else {
        let rest = emojis_of(rows.drop_last(), id);
        let row = rows.last();
        if row.message_id == id && !rest.contains(row.emoji@) {
            rest.push(row.emoji@)
        } else {
            rest
        }
    }
}

/// Who reacted to a message with an emoji, in the order of the rows.
pub open spec fn reactors_of(rows: Seq<ReactionRow>, id: i64, emoji: Seq<char>) -> Seq<Seq<char>>
    decreases rows.len(),
{
    if rows.len() == 0 {
        Seq::empty()
    } else {
        let rest = reactors_of(rows.drop_last(), id, emoji);
        let row = rows.last();
        if row.message_id == id && row.emoji@ == emoji {
            rest.push(row.username@)
        } else {
            rest
        }
    }
}

/// The field with an emoji and who reacted with it.
pub open spec fn reactors_field(rows: Seq<ReactionRow>, id: i64, emoji: Seq<char>) -> (Seq<char>, Json) {
    (emoji, texts_json(reactors_of(rows, id, emoji)))
}

/// The reactions to a message: who reacted, by emoji.
pub open spec fn reactions_json(rows: Seq<ReactionRow>, id: i64) -> Json {
    Json::Object(emojis_of(rows, id).map_values(|e: Seq<char>| reactors_field(rows, id, e)))
}

/// The different emojis that someone reacted to a message with.
pub fn emojis(rows: &Vec<ReactionRow>, id: i64) -> (res: Vec<String>)
    ensures
        texts(res@) == emojis_of(rows@, id),
{
    let mut out: Vec<String> = Vec::new();
    let mut i: usize = 0;
    assert(texts(out@) =~= emojis_of(rows@.take(0), id));
    while i < rows.len()
        invariant
            i <= rows@.len(),
            texts(out@) == emojis_of(rows@.take(i as int), id),
        decreases rows@.len() - i,
    {
        assert(rows@.take(i + 1).drop_last() =~= rows@.take(i as int));
        if rows[i].message_id == id && !is_among(&out, rows[i].emoji.as_str()) {
            let ghost before = texts(out@);
            out.push(rows[i].emoji.clone());
            assert(texts(out@) =~= before.push(rows@[i as int].emoji@));
        }
        i += 1;
    }
    assert(rows@.take(rows@.len() as int) =~= rows@);
    out
}

fn reactors(rows: &Vec<ReactionRow>, id: i64, emoji: &str) -> (res: JsonValue)
    ensures
        (emoji@, res@) == reactors_field(rows@, id, emoji@),
{
    let mut out: Vec<String> = Vec::new();
    let mut i: usize = 0;
    assert(texts(out@) =~= reactors_of(rows@.take(0), id, emoji@));
    while i < rows.len()
        invariant
            i <= rows@.len(),
            texts(out@) == reactors_of(rows@.take(i as int), id, emoji@),
        decreases rows@.len() - i,
    {
        assert(rows@.take(i + 1).drop_last() =~= rows@.take(i as int));
        if rows[i].message_id == id && same(rows[i].emoji.as_str(), emoji) {
            let ghost before = texts(out@);
            out.push(rows[i].username.clone());
            assert(texts(out@) =~= before.push(rows@[i as int].username@));
        }
        i += 1;
    }
    assert(rows@.take(rows@.len() as int) =~= rows@);
    text_array(&out)
}

/// The reactions to a message, from the rows that list them.
pub fn reactions_to(rows: &Vec<ReactionRow>, id: i64) -> (res: JsonValue)
    ensures
        res@ == reactions_json(rows@, id),
{
    let list = emojis(rows, id);
    let mut fields = Fields::new();
    let mut i: usize = 0;
    let ghost names = emojis_of(rows@, id);
    while i < list.len()
        invariant
            i <= list@.len(),
            names == emojis_of(rows@, id),
            texts(list@) == names,
            fields@ == names.take(i as int).map_values(|e: Seq<char>| reactors_field(rows@, id, e)),
        decreases list@.len() - i,
    {
        let ghost before = fields@;
        let who = reactors(rows, id, list[i].as_str());
        fields = fields.put(list[i].as_str(), who);
        proof {
            assert(texts(list@)[i as int] == list@[i as int]@);
            assert(names.take(i + 1).map_values(|e: Seq<char>| reactors_field(rows@, id, e)) =~= before.push(
                reactors_field(rows@, id, names[i as int]),
            ));
        }
        i += 1;
    }
    assert(names.take(names.len() as int) =~= names);
    fields.done()
}

/// The reactions to each of some messages, by the number of the message. A message
/// without any has no entry.
pub fn load_reactions_map(rows: &Vec<ReactionRow>, message_ids: &Vec<i64>) -> (res: HashMap<
    i64,
    JsonValue,
>)
    ensures
        forall|id: i64| #[trigger]
            res@.contains_key(id) <==> message_ids@.contains(id) && emojis_of(rows@, id).len() > 0,
        forall|id: i64| #[trigger] res@.contains_key(id) ==> res@[id]@ == reactions_json(rows@, id),
{
    broadcast use vstd::std_specs::hash::group_hash_axioms;

    let mut out: HashMap<i64, JsonValue> = HashMap::new();
    let mut i: usize = 0;
    while i < message_ids.len()
        invariant
            i <= message_ids@.len(),
            forall|id: i64| #[trigger]
                out@.contains_key(id) <==> message_ids@.take(i as int).contains(id) && emojis_of(
                    rows@,
                    id,
                ).len() > 0,
            forall|id: i64| #[trigger] out@.contains_key(id) ==> out@[id]@ == reactions_json(rows@, id),
        decreases message_ids@.len() - i,
    {
        let id: i64 = message_ids[i];
        let listed = emojis(rows, id);
        assert(texts(listed@).len() == listed@.len());
        if listed.len() > 0 {
            out.insert(id, reactions_to(rows, id));
        }
        proof {
            taking_one_more(message_ids@, i as int);
        }
        i += 1;
    }
    assert(message_ids@.take(message_ids@.len() as int) =~= message_ids@);
    out
}

/// The members of a list up to a place and the one there.
pub(crate) proof fn taking_one_more(list: Seq<i64>, i: int)
    requires
        0 <= i < list.len(),
    ensures
        forall|id: i64| #[trigger]
            list.take(i + 1).contains(id) <==> list.take(i).contains(id) || id == list[i],
{
    assert(list.take(i + 1) =~= list.take(i).push(list[i]));
    assert forall|id: i64| #[trigger]
        list.take(i + 1).contains(id) <==> list.take(i).contains(id) || id == list[i] by {
        let longer = list.take(i + 1);
        let shorter = list.take(i);
        if longer.contains(id) {
            let k = choose|k: int| 0 <= k < longer.len() && longer[k] == id;
            if k < i {
                assert(shorter[k] == id);
            }
        }
        if shorter.contains(id) {
            let k = choose|k: int| 0 <= k < shorter.len() && shorter[k] == id;
            assert(longer[k] == id);
        }
        if id == list[i] {
            assert(longer[i] == id);
        }
    }
}

/// Each reaction to a message is listed under its emoji, and each that is listed
/// is one of the rows. No emoji is listed twice.
pub proof fn reactions_are_grouped(rows: Seq<ReactionRow>, id: i64)
    ensures
        emojis_of(rows, id).no_duplicates(),
        forall|i: int|
            0 <= i < rows.len() && #[trigger] rows[i].message_id == id ==> emojis_of(rows, id).contains(
                rows[i].emoji@,
            ) && reactors_of(rows, id, rows[i].emoji@).contains(rows[i].username@),
        forall|e: Seq<char>, u: Seq<char>| #[trigger]
            reactors_of(rows, id, e).contains(u) ==> exists|i: int|
                0 <= i < rows.len() && #[trigger] rows[i].message_id == id && rows[i].emoji@ == e
                    && rows[i].username@ == u,
        forall|e: Seq<char>| #[trigger]
            emojis_of(rows, id).contains(e) ==> reactors_of(rows, id, e).len() > 0,
    decreases rows.len(),
{
    if rows.len() > 0 {
        let rest = rows.drop_last();
        let row = rows.last();
        reactions_are_grouped(rest, id);
        assert forall|i: int| 0 <= i < rows.len() && #[trigger] rows[i].message_id == id implies emojis_of(
            rows,
            id,
        ).contains(rows[i].emoji@) && reactors_of(rows, id, rows[i].emoji@).contains(
            rows[i].username@,
        ) by {
            let e = rows[i].emoji@;
            let before = emojis_of(rest, id);
            let users = reactors_of(rest, id, e);
            if i < rest.len() {
                assert(rest[i].message_id == id);
                let k = choose|k: int| 0 <= k < before.len() && before[k] == e;
                assert(emojis_of(rows, id)[k] == e);
                let j = choose|j: int| 0 <= j < users.len() && users[j] == rows[i].username@;
                assert(reactors_of(rows, id, e)[j] == rows[i].username@);
            } else {
                assert(reactors_of(rows, id, e).last() == row.username@);
                if before.contains(e) {
                    assert(emojis_of(rows, id) == before);
                } else {
                    assert(emojis_of(rows, id).last() == e);
                }
            }
        }
        assert forall|e: Seq<char>, u: Seq<char>| #[trigger]
            reactors_of(rows, id, e).contains(u) implies exists|i: int|
            0 <= i < rows.len() && #[trigger] rows[i].message_id == id && rows[i].emoji@ == e
                && rows[i].username@ == u by {
            let users = reactors_of(rows, id, e);
            let before = reactors_of(rest, id, e);
            let j = choose|j: int| 0 <= j < users.len() && users[j] == u;
            if j < before.len() {
                assert(before[j] == u);
                assert(reactors_of(rest, id, e).contains(u));
                let i = choose|i: int|
                    0 <= i < rest.len() && #[trigger] rest[i].message_id == id && rest[i].emoji@ == e
                        && rest[i].username@ == u;
                assert(rows[i].message_id == id);
            } else {
                assert(rows[rows.len() - 1].message_id == id);
            }
        }
        assert forall|e: Seq<char>| #[trigger] emojis_of(rows, id).contains(e) implies reactors_of(
            rows,
            id,
            e,
        ).len() > 0 by {
            let now = emojis_of(rows, id);
            let before = emojis_of(rest, id);
            let k = choose|k: int| 0 <= k < now.len() && now[k] == e;
            if k < before.len() {
                assert(before[k] == e);
                assert(before.contains(e));
            }
        }
    }
}

/// A message of the history with the reactions to it.
pub open spec fn message_json(m: Message, reactions: Seq<ReactionRow>) -> Json {
    obj().with("id"@, Json::Int(m.id as int)).with("sender"@, Json::Text(m.sender_username@)).with(
        "content"@,
        Json::Text(m.content@),
    ).with("reply_to_id"@, int_or_null(m.reply_to_id)).with(
        "reply_to_sender"@,
        text_or_null(opt_text(m.reply_to_sender)),
    ).with("reply_to_content"@, text_or_null(opt_text(m.reply_to_content))).with(
        "timestamp"@,
        Json::Text(m.timestamp@),
    ).with("timestamp_ms"@, Json::Int(m.timestamp_ms as int)).with(
        "reactions"@,
        reactions_json(reactions, m.id),
    ).json()
}

fn message_value(m: &Message, reactions: &Vec<ReactionRow>) -> (res: JsonValue)
    ensures
        res@ == message_json(*m, reactions@),
{
    Fields::new().put_int("id", m.id).put_text("sender", m.sender_username.as_str()).put_text(
        "content",
        m.content.as_str(),
    ).put("reply_to_id", int_or_none(m.reply_to_id)).put(
        "reply_to_sender",
        text_or_none(&m.reply_to_sender),
    ).put("reply_to_content", text_or_none(&m.reply_to_content)).put_text(
        "timestamp",
        m.timestamp.as_str(),
    ).put_int("timestamp_ms", m.timestamp_ms).put("reactions", reactions_to(reactions, m.id)).done()
}

/// The history, oldest first, from rows that come newest first.
pub open spec fn history_json(rows: Seq<Message>, reactions: Seq<ReactionRow>) -> Json {
    Json::Array(rows.reverse().map_values(|m: Message| message_json(m, reactions)))
}

fn history_value(rows: &Vec<Message>, reactions: &Vec<ReactionRow>) -> (res: JsonValue)
    ensures
        res@ == history_json(rows@, reactions@),
{
    let mut out: Vec<JsonValue> = Vec::new();
    let mut i: usize = rows.len();
    while i > 0
        invariant
            i <= rows@.len(),
            jsons(out@) == rows@.skip(i as int).reverse().map_values(
                |m: Message| message_json(m, reactions@),
            ),
        decreases i,
    {
        let ghost before = out@;
        i -= 1;
        out.push(message_value(&rows[i], reactions));
        proof {
            let j = message_json(rows@[i as int], reactions@);
            assert(jsons(out@) =~= jsons(before).push(j));
            assert(rows@.skip(i as int).reverse() =~= rows@.skip(i + 1).reverse().push(rows@[i as int]));
            assert(rows@.skip(i as int).reverse().map_values(|m: Message| message_json(m, reactions@))
                =~= rows@.skip(i + 1).reverse().map_values(|m: Message| message_json(m, reactions@)).push(j));
        }
    }
    assert(rows@.skip(0) =~= rows@);
    array(out)
}

/// What asking for the history leads to.
pub open spec fn history(
    memberships: Lookup<i64>,
    rows: Result<Seq<Message>, Refusal>,
    reactions: Seq<ReactionRow>,
) -> Result<Effect, Refusal> {
    match members_only(memberships, "Not a member of this group"@) {
        Err(e) => Err(e),
        Ok(_) => match rows {
            Err(e) => Err(e),
            Ok(r) => Ok(replying(history_json(r, reactions))),
        },
    }
}

/// The history, for a member. The rows come newest first.
pub fn get_history_inner(
    memberships: &Lookup<i64>,
    rows: &Result<Vec<Message>, String>,
    reactions: &Vec<ReactionRow>,
) -> (res: Result<Outcome, AppError>)
    ensures
        told(res) == history(*memberships, rows_found(*rows), reactions@),
{
    require_member(memberships, "Not a member of this group")?;
    match rows {
        Err(e) => Err(AppError::Internal(e.clone())),
        Ok(r) => Ok(Outcome::replying(history_value(r, reactions))),
    }
}

/// The history of a group.
pub fn get_group_history(
    _group_id: i64,
    memberships: &Lookup<i64>,
    rows: &Result<Vec<Message>, String>,
    reactions: &Vec<ReactionRow>,
) -> (res: Result<Outcome, AppError>)
    ensures
        told(res) == history(*memberships, rows_found(*rows), reactions@),
{
    get_history_inner(memberships, rows, reactions)
}

/// The history of the group.
pub fn get_history(
    memberships: &Lookup<i64>,
    rows: &Result<Vec<Message>, String>,
    reactions: &Vec<ReactionRow>,
) -> (res: Result<Outcome, AppError>)
    ensures
        told(res) == history(*memberships, rows_found(*rows), reactions@),
{
    get_history_inner(memberships, rows, reactions)
}

/// What asking for the history of a public channel leads to.
pub open spec fn public_history(
    channels: Lookup<i64>,
    rows: Result<Seq<Message>, Refusal>,
    reactions: Seq<ReactionRow>,
) -> Result<Effect, Refusal> {
    if surely_counted(channels) {
        match rows {
            Err(e) => Err(e),
            Ok(r) => Ok(replying(history_json(r, reactions))),
        }
    } else {
        Err(Refusal::NotFound("Public channel not found"@))
    }
}

/// The history of a public channel, for anyone who knows its token.
pub fn get_public_channel_history(
    channels: &Lookup<i64>,
    rows: &Result<Vec<Message>, String>,
    reactions: &Vec<ReactionRow>,
) -> (res: Result<Outcome, AppError>)
    ensures
        told(res) == public_history(*channels, rows_found(*rows), reactions@),
{
    if !is_surely_counted(channels) {
        return Err(not_found("Public channel not found"));
    }
    match rows {
        Err(e) => Err(AppError::Internal(e.clone())),
        Ok(r) => Ok(Outcome::replying(history_value(r, reactions))),
    }
}

/// A message, or with a post it belongs to a comment, that is to be stored.
pub struct Draft {
    pub post_id: Option<i64>,
    pub sender: String,
    pub content: String,
    pub reply_to_id: Option<i64>,
    pub reply_to_sender: Option<String>,
    pub reply_to_content: Option<String>,
    pub timestamp: String,
    pub timestamp_ms: i64,
}

impl View for Draft {
    type V = PostRow;

    open spec fn view(&self) -> PostRow {
        PostRow {
            post_id: self.post_id,
            sender: self.sender@,
            content: self.content@,
            reply_to_id: self.reply_to_id,
            reply_to_sender: opt_text(self.reply_to_sender),
            reply_to_content: opt_text(self.reply_to_content),
            timestamp: self.timestamp@,
            timestamp_ms: self.timestamp_ms,
        }
    }
}

/// The change that stores a message or a comment.
pub open spec fn posting(p: PostRow) -> Change {
    match p.post_id {
        None => Change::InsertMessage {
            sender: p.sender,
            content: p.content,
            reply_to_id: p.reply_to_id,
            reply_to_sender: p.reply_to_sender,
            reply_to_content: p.reply_to_content,
            timestamp: p.timestamp,
            timestamp_ms: p.timestamp_ms,
        },
        Some(post_id) => Change::InsertComment {
            post_id,
            sender: p.sender,
            content: p.content,
            reply_to_id: p.reply_to_id,
            reply_to_sender: p.reply_to_sender,
            reply_to_content: p.reply_to_content,
            timestamp: p.timestamp,
            timestamp_ms: p.timestamp_ms,
        },
    }
}

/// The same text again, or none.
pub fn same_option(s: &Option<String>) -> (res: Option<String>)
    ensures
        opt_text(res) == opt_text(*s),
{
    match s {
        Some(t) => Some(t.clone()),
        None => None,
    }
}

impl Draft {
    /// The write that stores it.
    pub fn write(&self) -> (res: Write)
        ensures
            res@ == posting(self@),
    {
        match self.post_id {
            None => Write::InsertMessage {
                sender: self.sender.clone(),
                content: self.content.clone(),
                reply_to_id: self.reply_to_id,
                reply_to_sender: same_option(&self.reply_to_sender),
                reply_to_content: same_option(&self.reply_to_content),
                timestamp: self.timestamp.clone(),
                timestamp_ms: self.timestamp_ms,
            },
            Some(post_id) => Write::InsertComment {
                post_id,
                sender: self.sender.clone(),
                content: self.content.clone(),
                reply_to_id: self.reply_to_id,
                reply_to_sender: same_option(&self.reply_to_sender),
                reply_to_content: same_option(&self.reply_to_content),
                timestamp: self.timestamp.clone(),
                timestamp_ms: self.timestamp_ms,
            },
        }
    }
}

/// The model of a result with a draft.
pub open spec fn drafted(r: Result<Draft, AppError>) -> Result<PostRow, Refusal> {
    match r {
        Ok(d) => Ok(d@),
        Err(e) => Err(e@),
    }
}

/// What a message may be like, and how many may be sent.
pub struct SendLimits {
    pub max_messages_per_minute: u32,
    pub max_message_length: u64,
}

/// What the database holds about a message to send.
pub struct SendFacts {
    /// How many members have the sender's name.
    pub memberships: Lookup<i64>,
    /// When the sender's mute ends.
    pub mute: Lookup<i64>,
    /// The number of the sender's role.
    pub role: Lookup<i64>,
    /// Whether the group is a channel, and its name.
    pub channel: Lookup<(bool, String)>,
    /// How many seconds lie between the messages of a regular member.
    pub slow_mode: Lookup<i64>,
    /// The sender and the content of the message that is replied to.
    pub quoted: Lookup<(String, String)>,
}

/// The questions behind the [`SendFacts`].
pub struct SendQueries {
    pub memberships: Query,
    pub mute: Query,
    pub role: Query,
    pub channel: Query,
    pub slow_mode: Query,
    /// Asked only of a reply.
    pub quoted: Option<Query>,
}

/// What to ask about a message to send. A member without a role number has that
/// of the role they are named after.
pub fn send_queries(username: &str, req: &SendMessageRequest) -> (res: SendQueries)
    ensures
        res.memberships matches Query::Memberships { username: u } && u@ == username@,
        res.mute matches Query::MuteOf { username: u } && u@ == username@,
        res.role matches Query::RankOf { username: u } && u@ == username@,
        res.channel == Query::ChannelName,
        res.slow_mode == Query::SlowMode,
        res.quoted == match req.reply_to_id {
            Some(message_id) => Some(Query::QuotedMessage { message_id }),
            None => None,
        },
{
    SendQueries {
        memberships: Query::Memberships { username: username.to_owned() },
        mute: Query::MuteOf { username: username.to_owned() },
        role: Query::RankOf { username: username.to_owned() },
        channel: Query::ChannelName,
        slow_mode: Query::SlowMode,
        quoted: match req.reply_to_id {
            Some(message_id) => Some(Query::QuotedMessage { message_id }),
            None => None,
        },
    }
}

/// Who a message is from: in a channel only an owner posts, and the channel
/// speaks with its own name.
pub open spec fn sender_of(
    channel: Lookup<(bool, String)>,
    role: Lookup<i64>,
    username: Seq<char>,
) -> Result<Seq<char>, Refusal> {
    match channel {
        Lookup::Found(c) => if !c.0 {
            Ok(username)
        } else {
            match role {
                Lookup::Failed(e) => Err(Refusal::Internal(e@)),
                Lookup::Found(r) if r == OWNER_ROLE => Ok(c.1@),
                _ => Err(Refusal::Forbidden("Only the owner can post in a channel"@)),
            }
        },
        Lookup::Missing => Ok(username),
        Lookup::Failed(e) => Err(Refusal::Internal(e@)),
    }
}

fn find_sender(channel: &Lookup<(bool, String)>, role: &Lookup<i64>, username: &str) -> (res: Result<
    String,
    AppError,
>)
    ensures
        shown_text(res) == sender_of(*channel, *role, username@),
{
    match channel {
        Lookup::Found(c) => {
            if !c.0 {
                return Ok(username.to_owned());
            }
            match role {
                Lookup::Failed(e) => Err(AppError::Internal(e.clone())),
                Lookup::Found(r) if *r == OWNER_ROLE => Ok(c.1.clone()),
                _ => Err(forbidden("Only the owner can post in a channel")),
            }
        },
        Lookup::Missing => Ok(username.to_owned()),
        Lookup::Failed(e) => Err(AppError::Internal(e.clone())),
    }
}

/// A result with its text and its refusal taken by their models.
pub open spec fn shown_text(r: Result<String, AppError>) -> Result<Seq<char>, Refusal> {
    match r {
        Ok(s) => Ok(s@),
        Err(e) => Err(e@),
    }
}

/// How many seconds must lie between the messages of someone: slow mode is for
/// regular members, not for owners and moderators.
pub open spec fn delay_of(slow_mode: Lookup<i64>, role: Lookup<i64>) -> Result<i64, Refusal> {
    match role {
        Lookup::Failed(e) => Err(Refusal::Internal(e@)),
        Lookup::Found(r) if r == OWNER_ROLE || r == MODERATOR_ROLE => Ok(0),
        _ => match slow_mode {
            Lookup::Failed(e) => Err(Refusal::Internal(e@)),
            Lookup::Missing => Ok(0),
            Lookup::Found(seconds) => Ok(seconds),
        },
    }
}

fn find_delay(slow_mode: &Lookup<i64>, role: &Lookup<i64>) -> (res: Result<i64, AppError>)
    ensures
        shown(res) == delay_of(*slow_mode, *role),
{
    match role {
        Lookup::Failed(e) => Err(AppError::Internal(e.clone())),
        Lookup::Found(r) if *r == OWNER_ROLE || *r == MODERATOR_ROLE => Ok(0),
        _ => match slow_mode {
            Lookup::Failed(e) => Err(AppError::Internal(e.clone())),
            Lookup::Missing => Ok(0),
            Lookup::Found(seconds) => Ok(*seconds),
        },
    }
}

/// A post with what it replies to: the sender and the content of the post as it
/// is stored or, where it is gone, what the request says about it.
pub open spec fn replying_to(
    p: PostRow,
    reply_to_id: Option<i64>,
    said_sender: Option<Seq<char>>,
    said_content: Option<Seq<char>>,
    quoted: Lookup<(String, String)>,
) -> Result<PostRow, Refusal> {
    match reply_to_id {
        None => Ok(
            PostRow { reply_to_id: None, reply_to_sender: None, reply_to_content: None, ..p },
        ),
        Some(id) => match quoted {
            Lookup::Found(q) => Ok(
                PostRow {
                    reply_to_id: Some(id),
                    reply_to_sender: Some(q.0@),
                    reply_to_content: Some(q.1@),
                    ..p
                },
            ),
            Lookup::Missing => Ok(
                PostRow {
                    reply_to_id: Some(id),
                    reply_to_sender: said_sender,
                    reply_to_content: said_content,
                    ..p
                },
            ),
            Lookup::Failed(e) => Err(Refusal::Internal(e@)),
        },
    }
}

/// A draft with what it replies to.
pub fn with_reply(
    d: Draft,
    reply_to_id: Option<i64>,
    said_sender: &Option<String>,
    said_content: &Option<String>,
    quoted: &Lookup<(String, String)>,
) -> (res: Result<Draft, AppError>)
    ensures
        drafted(res) == replying_to(
            d@,
            reply_to_id,
            opt_text(*said_sender),
            opt_text(*said_content),
            *quoted,
        ),
{
    let Draft { post_id, sender, content, timestamp, timestamp_ms, .. } = d;
    let (reply_to_sender, reply_to_content) = match reply_to_id {
        None => (None, None),
        Some(_) => match quoted {
            Lookup::Found(q) => (Some(q.0.clone()), Some(q.1.clone())),
            Lookup::Missing => (same_option(said_sender), same_option(said_content)),
            Lookup::Failed(e) => return Err(AppError::Internal(e.clone())),
        },
    };
    Ok(
        Draft {
            post_id,
            sender,
            content,
            reply_to_id,
            reply_to_sender,
            reply_to_content,
            timestamp,
            timestamp_ms,
        },
    )
}

/// Whether a message's text and the pace of its sender are fine.
pub open spec fn message_text(allowed: bool, limits: SendLimits, content: Seq<char>) -> Result<
    Seq<char>,
    Refusal,
> {
    let t = trimmed(content);
    if !allowed {
        Err(
            Refusal::BadRequest(
                "Rate limit exceeded: max "@ + decimal(limits.max_messages_per_minute as nat)
                    + " messages per minute"@,
            ),
        )
    } else if t.len() == 0 {
        Err(Refusal::BadRequest("Message content required"@))
    } else if byte_count(t) > limits.max_message_length {
        Err(
            Refusal::BadRequest(
                "Message too long (max "@ + decimal(limits.max_message_length as nat) + " chars)"@,
            ),
        )
    } else {
        Ok(t)
    }
}

/// The message that a request to send one composes, where the limiter has been
/// asked and slow mode has not.
pub open spec fn composed(
    allowed: bool,
    limits: SendLimits,
    username: Seq<char>,
    req: SendMessageRequest,
    facts: SendFacts,
    now: i64,
    timestamp: Seq<char>,
    timestamp_ms: i64,
) -> Result<PostRow, Refusal> {
    match message_text(allowed, limits, req.content@) {
        Err(e) => Err(e),
        Ok(content) => match members_only(facts.memberships, "Not a member of this group"@) {
            Err(e) => Err(e),
            Ok(_) => match mute_in_force(facts.mute, now) {
                Some(end) => Err(Refusal::Forbidden("You are muted until "@ + signed_decimal(end as int))),
                None => match sender_of(facts.channel, facts.role, username) {
                    Err(e) => Err(e),
                    Ok(sender) => replying_to(
                        PostRow {
                            post_id: None,
                            sender,
                            content,
                            reply_to_id: None,
                            reply_to_sender: None,
                            reply_to_content: None,
                            timestamp,
                            timestamp_ms,
                        },
                        req.reply_to_id,
                        opt_text(req.reply_to_sender),
                        opt_text(req.reply_to_content),
                        facts.quoted,
                    ),
                },
            },
        },
    }
}

/// What a request to send a message leads to, where the limiter has been asked:
/// `posts` are the last posts that slow mode knows of, and `since` is the moment
/// by its clock.
pub open spec fn message_of(
    allowed: bool,
    posts: Map<Seq<char>, u64>,
    since: u64,
    limits: SendLimits,
    username: Seq<char>,
    req: SendMessageRequest,
    facts: SendFacts,
    now: i64,
    timestamp: Seq<char>,
    timestamp_ms: i64,
) -> Result<PostRow, Refusal> {
    match composed(allowed, limits, username, req, facts, now, timestamp, timestamp_ms) {
        Err(e) => Err(e),
        Ok(p) => match delay_of(facts.slow_mode, facts.role) {
            Err(e) => Err(e),
            Ok(seconds) => match wait_left(last_of(posts, username), seconds, since) {
                Ok(_) => Ok(p),
                Err(left) => Err(
                    Refusal::BadRequest("Slow mode: wait "@ + signed_decimal(left as int) + " seconds"@),
                ),
            },
        },
    }
}

/// The last posts that slow mode knows of after a request to send a message: one
/// that is sent is recorded.
pub open spec fn posts_after(
    message: Result<PostRow, Refusal>,
    posts: Map<Seq<char>, u64>,
    username: Seq<char>,
    since: u64,
) -> Map<Seq<char>, u64> {
    if message is Ok {
        posts.insert(username, since)
    } else {
        posts
    }
}

/// Whether a request to send a message finds a mute that is over, whose row then
/// goes, whatever becomes of the message.
pub open spec fn send_clears_mute(
    allowed: bool,
    limits: SendLimits,
    req: SendMessageRequest,
    facts: SendFacts,
    now: i64,
) -> bool {
    &&& message_text(allowed, limits, req.content@) is Ok
    &&& members_only(facts.memberships, "Not a member of this group"@) is Ok
    &&& mute_is_over(facts.mute, now)
}

/// What a request to send a message leads to: whether the sender's mute is over
/// and can be deleted, and the message to store.
pub struct SendDecision {
    pub clear_mute: bool,
    pub message: Result<Draft, AppError>,
}

fn compose(
    is_allowed: bool,
    limits: &SendLimits,
    username: &str,
    req: &SendMessageRequest,
    facts: &SendFacts,
    now: i64,
    timestamp: &str,
    timestamp_ms: i64,
) -> (res: SendDecision)
    ensures
        drafted(res.message) == composed(
            is_allowed,
            *limits,
            username@,
            *req,
            *facts,
            now,
            timestamp@,
            timestamp_ms,
        ),
        res.clear_mute == send_clears_mute(is_allowed, *limits, *req, *facts, now),
{
    if !is_allowed {
        let max = show_u64(limits.max_messages_per_minute as u64);
        let e = AppError::BadRequest(
            glue3("Rate limit exceeded: max ", max.as_str(), " messages per minute"),
        );
        return SendDecision { clear_mute: false, message: Err(e) };
    }
    let content = trim(req.content.as_str());
    if content.as_str().unicode_len() == 0 {
        return SendDecision { clear_mute: false, message: Err(bad_request("Message content required")) };
    }
    if byte_len(content.as_str()) as u64 > limits.max_message_length {
        let max = show_u64(limits.max_message_length);
        let e = AppError::BadRequest(glue3("Message too long (max ", max.as_str(), " chars)"));
        return SendDecision { clear_mute: false, message: Err(e) };
    }
    match require_member(&facts.memberships, "Not a member of this group") {
        Err(e) => return SendDecision { clear_mute: false, message: Err(e) },
        Ok(_) => {},
    }
    let (muted_until, clear_mute) = active_mute_expiry(&facts.mute, now);
    if let Some(end) = muted_until {
        let shown_end = show_i64(end);
        let e = AppError::Forbidden(glue("You are muted until ", shown_end.as_str()));
        return SendDecision { clear_mute, message: Err(e) };
    }
    let sender = match find_sender(&facts.channel, &facts.role, username) {
        Err(e) => return SendDecision { clear_mute, message: Err(e) },
        Ok(s) => s,
    };
    let draft = Draft {
        post_id: None,
        sender,
        content,
        reply_to_id: None,
        reply_to_sender: None,
        reply_to_content: None,
        timestamp: timestamp.to_owned(),
        timestamp_ms,
    };
    let message = with_reply(
        draft,
        req.reply_to_id,
        &req.reply_to_sender,
        &req.reply_to_content,
        &facts.quoted,
    );
    SendDecision { clear_mute, message }
}

/// The message that a request to send one asks to store, where the limiter has
/// been asked. `since` is the moment by the tracker's clock; `now` and
/// `timestamp_ms` are in milliseconds.
pub fn send_message_inner(
    is_allowed: bool,
    tracker: &mut SlowModeTracker,
    since: u64,
    limits: &SendLimits,
    username: &str,
    req: &SendMessageRequest,
    facts: &SendFacts,
    now: i64,
    timestamp: &str,
    timestamp_ms: i64,
) -> (res: SendDecision)
    ensures
        drafted(res.message) == message_of(
            is_allowed,
            old(tracker)@,
            since,
            *limits,
            username@,
            *req,
            *facts,
            now,
            timestamp@,
            timestamp_ms,
        ),
        res.clear_mute == send_clears_mute(is_allowed, *limits, *req, *facts, now),
        final(tracker)@ == posts_after(drafted(res.message), old(tracker)@, username@, since),
{
    let SendDecision { clear_mute, message } = compose(
        is_allowed,
        limits,
        username,
        req,
        facts,
        now,
        timestamp,
        timestamp_ms,
    );
    let draft = match message {
        Err(e) => return SendDecision { clear_mute, message: Err(e) },
        Ok(d) => d,
    };
    let seconds: i64 = match find_delay(&facts.slow_mode, &facts.role) {
        Err(e) => return SendDecision { clear_mute, message: Err(e) },
        Ok(s) => s,
    };
    match tracker.check_and_record_at(username, seconds, since) {
        Err(left) => {
            let wait = show_i64(left);
            let e = AppError::BadRequest(glue3("Slow mode: wait ", wait.as_str(), " seconds"));
            SendDecision { clear_mute, message: Err(e) }
        },
        Ok(_) => SendDecision { clear_mute, message: Ok(draft) },
    }
}

/// What sending a message comes to at a moment by the limiter's clock and one by
/// the clock of slow mode.
pub open spec fn sent_at(
    message: Result<PostRow, Refusal>,
    clears: bool,
    windows: Map<Seq<char>, Seq<u64>>,
    max: u32,
    posts: Map<Seq<char>, u64>,
    at: u64,
    since: u64,
    limits: SendLimits,
    username: Seq<char>,
    req: SendMessageRequest,
    facts: SendFacts,
    now: i64,
    timestamp: Seq<char>,
    timestamp_ms: i64,
) -> bool {
    let is_allowed = allowed(stamps_of(windows, username), max, at);
    &&& message == message_of(
        is_allowed,
        posts,
        since,
        limits,
        username,
        req,
        facts,
        now,
        timestamp,
        timestamp_ms,
    )
    &&& clears == send_clears_mute(is_allowed, limits, req, facts, now)
}

/// Send a message, unless the sender has sent too many lately, is muted, must
/// still wait or may not post in the channel.
pub fn send_message(
    limiter: &mut RateLimiter,
    tracker: &mut SlowModeTracker,
    limits: &SendLimits,
    username: &str,
    req: &SendMessageRequest,
    facts: &SendFacts,
    now: i64,
    timestamp: &str,
    timestamp_ms: i64,
) -> (res: SendDecision)
    ensures
        final(limiter).max() == old(limiter).max(),
        exists|at: u64, since: u64|
            {
                &&& #[trigger] sent_at(
                    drafted(res.message),
                    res.clear_mute,
                    old(limiter)@,
                    old(limiter).max(),
                    old(tracker)@,
                    at,
                    since,
                    *limits,
                    username@,
                    *req,
                    *facts,
                    now,
                    timestamp@,
                    timestamp_ms,
                )
                &&& final(limiter)@ == old(limiter)@.insert(
                    username@,
                    recorded(stamps_of(old(limiter)@, username@), old(limiter).max(), at),
                )
                &&& final(tracker)@ == posts_after(drafted(res.message), old(tracker)@, username@, since)
            },
{
    let ghost windows = limiter@;
    let ghost max = limiter.max();
    let ghost posts = tracker@;
    let is_allowed = limiter.check_and_record(username);
    let ghost at = choose|at: u64|
        is_allowed == #[trigger] allowed(stamps_of(windows, username@), max, at) && limiter@ == windows.insert(
            username@,
            recorded(stamps_of(windows, username@), max, at),
        );
    let since: u64 = tracker.now();
    let res = send_message_inner(
        is_allowed,
        tracker,
        since,
        limits,
        username,
        req,
        facts,
        now,
        timestamp,
        timestamp_ms,
    );
    proof {
        assert(sent_at(
            drafted(res.message),
            res.clear_mute,
            windows,
            max,
            posts,
            at,
            since,
            *limits,
            username@,
            *req,
            *facts,
            now,
            timestamp@,
            timestamp_ms,
        ));
    }
    res
}

/// Send a message to a group.
pub fn send_group_message(
    _group_id: i64,
    limiter: &mut RateLimiter,
    tracker: &mut SlowModeTracker,
    limits: &SendLimits,
    username: &str,
    req: &SendMessageRequest,
    facts: &SendFacts,
    now: i64,
    timestamp: &str,
    timestamp_ms: i64,
) -> (res: SendDecision)
    ensures
        final(limiter).max() == old(limiter).max(),
        exists|at: u64, since: u64|
            {
                &&& #[trigger] sent_at(
                    drafted(res.message),
                    res.clear_mute,
                    old(limiter)@,
                    old(limiter).max(),
                    old(tracker)@,
                    at,
                    since,
                    *limits,
                    username@,
                    *req,
                    *facts,
                    now,
                    timestamp@,
                    timestamp_ms,
                )
                &&& final(limiter)@ == old(limiter)@.insert(
                    username@,
                    recorded(stamps_of(old(limiter)@, username@), old(limiter).max(), at),
                )
                &&& final(tracker)@ == posts_after(drafted(res.message), old(tracker)@, username@, since)
            },
{
    send_message(limiter, tracker, limits, username, req, facts, now, timestamp, timestamp_ms)
}

/// What everyone is told about a message that was sent.
pub open spec fn message_packet(p: PostRow, message_id: i64) -> Json {
    obj().with("type"@, Json::Text("group_msg"@)).with("group_id"@, Json::Int(1)).with(
        "message_id"@,
        Json::Int(message_id as int),
    ).with("from"@, Json::Text(p.sender)).with("sender"@, Json::Text(p.sender)).with(
        "content"@,
        Json::Text(p.content),
    ).with("timestamp"@, Json::Text(p.timestamp)).with(
        "timestamp_ms"@,
        Json::Int(p.timestamp_ms as int),
    ).with("reply_to_id"@, int_or_null(p.reply_to_id)).with(
        "reply_to_sender"@,
        text_or_null(p.reply_to_sender),
    ).with("reply_to_content"@, text_or_null(p.reply_to_content)).json()
}

/// The reply to whoever sent a message.
pub open spec fn message_reply(p: PostRow, message_id: i64) -> Json {
    obj().with("ok"@, Json::Bool(true)).with("message_id"@, Json::Int(message_id as int)).with(
        "timestamp"@,
        Json::Text(p.timestamp),
    ).with("timestamp_ms"@, Json::Int(p.timestamp_ms as int)).json()
}

/// What follows once a message is stored under a number.
pub open spec fn announced(p: PostRow, message_id: i64) -> Effect {
    replying(message_reply(p, message_id)).and_broadcast(message_packet(p, message_id))
}

/// What follows once a message is stored under a number.
pub fn message_sent(draft: &Draft, message_id: i64) -> (res: Outcome)
    ensures
        res@ == announced(draft@, message_id),
{
    let packet = Fields::new().put_text("type", "group_msg").put_int("group_id", GROUP).put_int(
        "message_id",
        message_id,
    ).put_text("from", draft.sender.as_str()).put_text("sender", draft.sender.as_str()).put_text(
        "content",
        draft.content.as_str(),
    ).put_text("timestamp", draft.timestamp.as_str()).put_int("timestamp_ms", draft.timestamp_ms).put(
        "reply_to_id",
        int_or_none(draft.reply_to_id),
    ).put("reply_to_sender", text_or_none(&draft.reply_to_sender)).put(
        "reply_to_content",
        text_or_none(&draft.reply_to_content),
    ).done();
    let reply = Fields::new().put_bool("ok", true).put_int("message_id", message_id).put_text(
        "timestamp",
        draft.timestamp.as_str(),
    ).put_int("timestamp_ms", draft.timestamp_ms).done();
    Outcome::replying(reply).and_broadcast(packet)
}

/// A message that is accepted is stored as it is broadcast: trimmed, not empty
/// and not too long, from the sender or, in a channel, from the channel itself.
/// Every other message stays.
pub proof fn an_accepted_message_is_stored(
    posts: Map<Seq<char>, u64>,
    since: u64,
    limits: SendLimits,
    username: Seq<char>,
    req: SendMessageRequest,
    facts: SendFacts,
    now: i64,
    timestamp: Seq<char>,
    timestamp_ms: i64,
    db: GroupDb,
    id: i64,
)
    requires
        message_of(true, posts, since, limits, username, req, facts, now, timestamp, timestamp_ms) is Ok,
        !db.messages.contains_key(id),
    ensures
        ({
            let p = message_of(true, posts, since, limits, username, req, facts, now, timestamp, timestamp_ms)->Ok_0;
            let after = applied(db, posting(p), id);
            &&& p.content == trimmed(req.content@)
            &&& 0 < p.content.len()
            &&& byte_count(p.content) <= limits.max_message_length
            &&& surely_counted(facts.memberships)
            &&& facts.channel matches Lookup::Found(c) ==> p.sender == (if c.0 {
                c.1@
            } else {
                username
            })
            &&& facts.channel is Missing ==> p.sender == username
            &&& p.reply_to_id == req.reply_to_id
            &&& after.messages[id] == p
            &&& after.messages == db.messages.insert(id, p)
            &&& after == (GroupDb { messages: after.messages, ..db })
            &&& p.post_id is None
            &&& p.timestamp == timestamp
            &&& p.timestamp_ms == timestamp_ms
            &&& forall|m: i64| #[trigger]
                db.messages.contains_key(m) ==> after.messages.contains_key(m) && after.messages[m]
                    == db.messages[m]
        }),
{
}

/// In a channel only an owner posts; in a group every member may.
pub proof fn only_owners_post_in_a_channel(
    allowed: bool,
    posts: Map<Seq<char>, u64>,
    since: u64,
    limits: SendLimits,
    username: Seq<char>,
    req: SendMessageRequest,
    facts: SendFacts,
    now: i64,
    timestamp: Seq<char>,
    timestamp_ms: i64,
    db: GroupDb,
)
    requires
        finds_rank(facts.role, db, username),
        message_of(allowed, posts, since, limits, username, req, facts, now, timestamp, timestamp_ms) is Ok,
    ensures
        facts.channel matches Lookup::Found(c) && c.0 ==> rank_of(db, username) == Some(OWNER_ROLE),
{
}

/// Nobody sends a message while a mute of theirs is in force.
pub proof fn the_muted_are_silent(
    allowed: bool,
    posts: Map<Seq<char>, u64>,
    since: u64,
    limits: SendLimits,
    username: Seq<char>,
    req: SendMessageRequest,
    facts: SendFacts,
    now: i64,
    timestamp: Seq<char>,
    timestamp_ms: i64,
)
    requires
        facts.mute matches Lookup::Found(end) && end > now,
    ensures
        message_of(allowed, posts, since, limits, username, req, facts, now, timestamp, timestamp_ms) is Err,
{
}

/// In slow mode two messages of a regular member are at least its delay apart.
pub proof fn slow_mode_keeps_messages_apart(
    posts: Map<Seq<char>, u64>,
    first: u64,
    second: u64,
    limits: SendLimits,
    username: Seq<char>,
    req: SendMessageRequest,
    facts: SendFacts,
    next: SendMessageRequest,
    next_facts: SendFacts,
    now: i64,
    later: i64,
    timestamp: Seq<char>,
    timestamp_ms: i64,
    seconds: i64,
)
    requires
        first <= second,
        seconds > 0,
        message_of(true, posts, first, limits, username, req, facts, now, timestamp, timestamp_ms) is Ok,
        next_facts.slow_mode == Lookup::Found(seconds),
        next_facts.role != Lookup::Found(OWNER_ROLE),
        next_facts.role != Lookup::Found(MODERATOR_ROLE),
        ({
            let message = message_of(true, posts, first, limits, username, req, facts, now, timestamp, timestamp_ms);
            message_of(
                true,
                posts_after(message, posts, username, first),
                second,
                limits,
                username,
                next,
                next_facts,
                later,
                timestamp,
                timestamp_ms,
            ) is Ok
        }),
    ensures
        second - first >= seconds * 1_000_000_000,
{
}

/// What the database holds about someone who joins.
pub struct JoinFacts {
    /// How many groups have the invite token.
    pub invites: Lookup<i64>,
    /// How many bans there are of the user.
    pub bans: Lookup<i64>,
    /// How many members have the user's name.
    pub memberships: Lookup<i64>,
    /// The display name and the public key of the user's session.
    pub session: Lookup<(String, String)>,
    /// The group's name.
    pub group_name: Lookup<String>,
}

/// The questions behind the [`JoinFacts`].
pub struct JoinQueries {
    pub invites: Query,
    pub bans: Query,
    pub memberships: Query,
    pub session: Query,
    pub group_name: Query,
}

/// What to ask about someone who joins with an invite token.
pub fn join_queries(username: &str, invite_token: &str) -> (res: JoinQueries)
    ensures
        res.invites matches Query::Invites { token: t } && t@ == invite_token@,
        res.bans matches Query::Bans { username: u } && u@ == username@,
        res.memberships matches Query::Memberships { username: u } && u@ == username@,
        res.session matches Query::Identity { username: u } && u@ == username@,
        res.group_name == Query::GroupName,
{
    JoinQueries {
        invites: Query::Invites { token: invite_token.to_owned() },
        bans: Query::Bans { username: username.to_owned() },
        memberships: Query::Memberships { username: username.to_owned() },
        session: Query::Identity { username: username.to_owned() },
        group_name: Query::GroupName,
    }
}

/// The name of the group that someone joins.
pub open spec fn name_or_unknown(name: Lookup<String>) -> Seq<char> {
    match name {
        Lookup::Found(n) => n@,
        _ => "Unknown"@,
    }
}

/// What joining the group leads to, where the limiter has been asked.
pub open spec fn joined(
    allowed: bool,
    max_joins_per_minute: u32,
    username: Seq<char>,
    facts: JoinFacts,
    default_role: Seq<char>,
) -> Result<Effect, Refusal> {
    if !allowed {
        Err(
            Refusal::BadRequest(
                "Rate limit exceeded: max "@ + decimal(max_joins_per_minute as nat)
                    + " join attempts per minute"@,
            ),
        )
    } else {
        match counted(facts.invites) {
            Err(e) => Err(e),
            Ok(false) => Err(Refusal::NotFound("Invalid invite token"@)),
            Ok(true) => match counted(facts.bans) {
                Err(e) => Err(e),
                Ok(true) => Err(Refusal::Forbidden("You are banned from this group"@)),
                Ok(false) => match counted(facts.memberships) {
                    Err(e) => Err(e),
                    Ok(true) => Err(Refusal::Conflict("Already a member of this group"@)),
                    Ok(false) => match facts.session {
                        Lookup::Failed(e) => Err(Refusal::Internal(e@)),
                        Lookup::Missing => Err(Refusal::Internal("Session not found"@)),
                        Lookup::Found(s) => Ok(
                            replying(
                                obj().with("ok"@, Json::Bool(true)).with("group_id"@, Json::Int(1)).with(
                                    "group_name"@,
                                    Json::Text(name_or_unknown(facts.group_name)),
                                ).json(),
                            ).and_change(
                                Change::InsertMember {
                                    username,
                                    display_name: s.0@,
                                    public_key: s.1@,
                                    role: default_role,
                                },
                            ).and_broadcast(
                                obj().with("type"@, Json::Text("group_joined"@)).with(
                                    "group_id"@,
                                    Json::Int(1),
                                ).with("username"@, Json::Text(username)).with(
                                    "display_name"@,
                                    Json::Text(s.0@),
                                ).json(),
                            ),
                        ),
                    },
                },
            },
        }
    }
}

/// What joining the group leads to, where the limiter has been asked.
pub fn join_group_inner(
    is_allowed: bool,
    max_joins_per_minute: u32,
    username: &str,
    facts: &JoinFacts,
    default_role: &str,
) -> (res: Result<Outcome, AppError>)
    ensures
        told(res) == joined(is_allowed, max_joins_per_minute, username@, *facts, default_role@),
{
    if !is_allowed {
        let max = show_u64(max_joins_per_minute as u64);
        return Err(
            AppError::BadRequest(
                glue3("Rate limit exceeded: max ", max.as_str(), " join attempts per minute"),
            ),
        );
    }
    if !any_counted(&facts.invites)? {
        return Err(not_found("Invalid invite token"));
    }
    if any_counted(&facts.bans)? {
        return Err(forbidden("You are banned from this group"));
    }
    if any_counted(&facts.memberships)? {
        return Err(conflict("Already a member of this group"));
    }
    let session = match &facts.session {
        Lookup::Failed(e) => return Err(AppError::Internal(e.clone())),
        Lookup::Missing => return Err(AppError::Internal("Session not found".to_owned())),
        Lookup::Found(s) => s,
    };
    let group_name = match &facts.group_name {
        Lookup::Found(n) => n.clone(),
        _ => "Unknown".to_owned(),
    };
    let packet = Fields::new().put_text("type", "group_joined").put_int("group_id", GROUP).put_text(
        "username",
        username,
    ).put_text("display_name", session.0.as_str()).done();
    let reply = Fields::new().put_bool("ok", true).put_int("group_id", GROUP).put_text(
        "group_name",
        group_name.as_str(),
    ).done();
    Ok(
        Outcome::replying(reply).and_write(
            Write::InsertMember {
                username: username.to_owned(),
                display_name: session.0.clone(),
                public_key: session.1.clone(),
                role: default_role.to_owned(),
            },
        ).and_broadcast(packet),
    )
}

/// Join the group with an invite token, unless the user tried too often lately.
pub fn join_group(
    limiter: &mut RateLimiter,
    max_joins_per_minute: u32,
    username: &str,
    facts: &JoinFacts,
    default_role: &str,
) -> (res: Result<Outcome, AppError>)
    ensures
        final(limiter).max() == old(limiter).max(),
        exists|now: u64|
            told(res) == joined(
                #[trigger] allowed(stamps_of(old(limiter)@, username@), old(limiter).max(), now),
                max_joins_per_minute,
                username@,
                *facts,
                default_role@,
            ) && final(limiter)@ == old(limiter)@.insert(
                username@,
                recorded(stamps_of(old(limiter)@, username@), old(limiter).max(), now),
            ),
{
    let is_allowed = limiter.check_and_record(username);
    join_group_inner(is_allowed, max_joins_per_minute, username, facts, default_role)
}

/// Whoever joins knows the invite token, is not banned and was no member, and is
/// one afterwards; the other members stay.
pub proof fn joining_needs_an_invitation(
    allowed: bool,
    max_joins_per_minute: u32,
    username: Seq<char>,
    facts: JoinFacts,
    default_role: Seq<char>,
    db: GroupDb,
)
    requires
        joined(allowed, max_joins_per_minute, username, facts, default_role) is Ok,
    ensures
        ({
            let effect = joined(allowed, max_joins_per_minute, username, facts, default_role)->Ok_0;
            &&& allowed
            &&& surely_counted(facts.invites)
            &&& !surely_counted(facts.bans)
            &&& !surely_counted(facts.memberships)
            &&& effect.changes.len() == 1
            &&& applied(db, effect.changes[0], 0).members.contains_key(username)
            &&& applied(db, effect.changes[0], 0).members[username].role == default_role
            &&& applied(db, effect.changes[0], 0).members.remove(username) == db.members.remove(username)
        }),
{
    let effect = joined(allowed, max_joins_per_minute, username, facts, default_role)->Ok_0;
    assert(applied(db, effect.changes[0], 0).members.remove(username) =~= db.members.remove(username));
}

/// What leaving the group leads to.
pub open spec fn left(username: Seq<char>, role: Lookup<String>, owners: Lookup<i64>) -> Result<
    Effect,
    Refusal,
> {
    let gone = replying(ok_json()).and_change(Change::DeleteMember { username }).and_broadcast(
        obj().with("type"@, Json::Text("group_member_left"@)).with("group_id"@, Json::Int(1)).with(
            "username"@,
            Json::Text(username),
        ).json(),
    ).or_refused(Refusal::NotFound("Not a member of this group"@));
    match role {
        Lookup::Failed(e) => Err(Refusal::Internal(e@)),
        Lookup::Found(r) if r@ == "owner"@ => match owners {
            Lookup::Failed(e) => Err(Refusal::Internal(e@)),
            Lookup::Found(n) if n > 1 => Ok(gone),
            _ => Err(Refusal::BadRequest("Last owner cannot leave the group"@)),
        },
        _ => Ok(gone),
    }
}

/// Leave the group, which the last owner cannot do. `role` is the user's role,
/// and `owners` the number of owners.
pub fn leave_group(username: &str, role: &Lookup<String>, owners: &Lookup<i64>) -> (res: Result<
    Outcome,
    AppError,
>)
    ensures
        told(res) == left(username@, *role, *owners),
{
    let is_owner = match role {
        Lookup::Failed(e) => return Err(AppError::Internal(e.clone())),
        Lookup::Missing => false,
        Lookup::Found(r) => same(r.as_str(), "owner"),
    };
    if is_owner {
        let count: i64 = match owners {
            Lookup::Failed(e) => return Err(AppError::Internal(e.clone())),
            Lookup::Missing => 0,
            Lookup::Found(n) => *n,
        };
        if count <= 1 {
            return Err(bad_request("Last owner cannot leave the group"));
        }
    }
    let packet = Fields::new().put_text("type", "group_member_left").put_int("group_id", GROUP).put_text(
        "username",
        username,
    ).done();
    Ok(
        Outcome::replying(ok_reply()).and_write(
            Write::DeleteMember { username: username.to_owned() },
        ).and_broadcast(packet).or_refused(not_found("Not a member of this group")),
    )
}

/// The members who are owners by name.
pub open spec fn named_owners(db: GroupDb) -> Set<Seq<char>> {
    db.members.dom().filter(|u: Seq<char>| db.members[u].role == "owner"@)
}

/// A group that has an owner by name still has one after someone left.
pub proof fn the_last_owner_stays(username: Seq<char>, role: Lookup<String>, owners: Lookup<i64>, db: GroupDb)
    requires
        db.members.dom().finite(),
        named_owners(db).len() > 0,
        finds_role_name(role, db, username),
        owners matches Lookup::Found(n) && n == named_owners(db).len(),
        left(username, role, owners) is Ok,
    ensures
        left(username, role, owners)->Ok_0.changes.len() == 1,
        named_owners(applied(db, left(username, role, owners)->Ok_0.changes[0], 0)).len() > 0,
        applied(db, left(username, role, owners)->Ok_0.changes[0], 0).members == db.members.remove(
            username,
        ),
{
    let after = applied(db, left(username, role, owners)->Ok_0.changes[0], 0);
    assert(named_owners(after) =~= named_owners(db).remove(username));
}

/// What a user's own role is: `member`, where nothing is known.
pub open spec fn own_role(role: Lookup<String>) -> Result<Effect, Refusal> {
    match role {
        Lookup::Failed(e) => Err(Refusal::Internal(e@)),
        Lookup::Missing => Ok(replying(role_json("member"@))),
        Lookup::Found(r) => Ok(replying(role_json(r@))),
    }
}

/// What a user's own role is: `member`, where nothing is known.
pub fn get_my_role(role: &Lookup<String>) -> (res: Result<Outcome, AppError>)
    ensures
        told(res) == own_role(*role),
{
    let name = match role {
        Lookup::Failed(e) => return Err(AppError::Internal(e.clone())),
        Lookup::Missing => "member".to_owned(),
        Lookup::Found(r) => r.clone(),
    };
    Ok(Outcome::replying(Fields::new().put_bool("ok", true).put_text("role", name.as_str()).done()))
}

/// The reply that tells a role.
pub open spec fn role_json(role: Seq<char>) -> Json {
    obj().with("ok"@, Json::Bool(true)).with("role"@, Json::Text(role)).json()
}

/// What deleting a message leads to.
pub open spec fn deleted(username: Seq<char>, message_id: i64, memberships: Lookup<i64>) -> Result<
    Effect,
    Refusal,
> {
    match members_only(memberships, "Not a member"@) {
        Err(e) => Err(e),
        Ok(_) => Ok(
            replying(ok_json()).and_change(
                Change::DeleteOwnMessage { message_id, sender: username },
            ).and_broadcast(
                obj().with("type"@, Json::Text("group_msg_deleted"@)).with("group_id"@, Json::Int(1)).with(
                    "message_id"@,
                    Json::Int(message_id as int),
                ).json(),
            ).or_refused(Refusal::NotFound("Message not found or not yours"@)),
        ),
    }
}

/// Delete one's own message.
pub fn delete_message(username: &str, message_id: i64, memberships: &Lookup<i64>) -> (res: Result<
    Outcome,
    AppError,
>)
    ensures
        told(res) == deleted(username@, message_id, *memberships),
{
    require_member(memberships, "Not a member")?;
    let packet = Fields::new().put_text("type", "group_msg_deleted").put_int("group_id", GROUP).put_int(
        "message_id",
        message_id,
    ).done();
    Ok(
        Outcome::replying(ok_reply()).and_write(
            Write::DeleteOwnMessage { message_id, sender: username.to_owned() },
        ).and_broadcast(packet).or_refused(not_found("Message not found or not yours")),
    )
}

/// What changing a message leads to.
pub open spec fn edited(
    username: Seq<char>,
    message_id: i64,
    content: Seq<char>,
    memberships: Lookup<i64>,
) -> Result<Effect, Refusal> {
    let new_content = trimmed(content);
    if new_content.len() == 0 {
        Err(Refusal::BadRequest("Content cannot be empty"@))
    } else {
        match members_only(memberships, "Not a member"@) {
            Err(e) => Err(e),
            Ok(_) => Ok(
                replying(ok_json()).and_change(
                    Change::EditOwnMessage { content: new_content, message_id, sender: username },
                ).and_broadcast(
                    obj().with("type"@, Json::Text("group_msg_edited"@)).with(
                        "group_id"@,
                        Json::Int(1),
                    ).with("message_id"@, Json::Int(message_id as int)).with(
                        "new_content"@,
                        Json::Text(new_content),
                    ).with("edited_by"@, Json::Text(username)).json(),
                ).or_refused(Refusal::NotFound("Message not found or not yours"@)),
            ),
        }
    }
}

/// Change one's own message.
pub fn edit_message(
    username: &str,
    message_id: i64,
    req: &EditMessageRequest,
    memberships: &Lookup<i64>,
) -> (res: Result<Outcome, AppError>)
    ensures
        told(res) == edited(username@, message_id, req.content@, *memberships),
{
    let content = trim(req.content.as_str());
    if content.as_str().unicode_len() == 0 {
        return Err(bad_request("Content cannot be empty"));
    }
    require_member(memberships, "Not a member")?;
    let packet = Fields::new().put_text("type", "group_msg_edited").put_int("group_id", GROUP).put_int(
        "message_id",
        message_id,
    ).put_text("new_content", content.as_str()).put_text("edited_by", username).done();
    Ok(
        Outcome::replying(ok_reply()).and_write(
            Write::EditOwnMessage { content, message_id, sender: username.to_owned() },
        ).and_broadcast(packet).or_refused(not_found("Message not found or not yours")),
    )
}

/// Nobody deletes or changes a message of someone else, and one's own message
/// keeps all but its content when it is changed.
pub proof fn a_message_is_its_senders(
    username: Seq<char>,
    message_id: i64,
    content: Seq<char>,
    memberships: Lookup<i64>,
    db: GroupDb,
)
    ensures
        deleted(username, message_id, memberships) matches Ok(effect) ==> effect.changes.len() == 1
            && applied(db, effect.changes[0], 0) == (if db.messages.contains_key(message_id)
            && db.messages[message_id].sender == username {
            without_message(db, message_id)
        } else {
            db
        }),
        edited(username, message_id, content, memberships) matches Ok(effect) ==> effect.changes.len()
            == 1 && applied(db, effect.changes[0], 0) == (if db.messages.contains_key(message_id)
            && db.messages[message_id].sender == username {
            GroupDb {
                messages: db.messages.insert(
                    message_id,
                    PostRow { content: trimmed(content), ..db.messages[message_id] },
                ),
                ..db
            }
        } else {
            db
        }),
{
}

/// Whether a text can be reacted with: short, and not plain ASCII.
pub open spec fn emoji_like(s: Seq<char>) -> bool {
    let t = trimmed(s);
    0 < t.len() && byte_count(t) <= 32 && exists|i: int| 0 <= i < t.len() && #[trigger] t[i] as u32 > 127
}

/// Whether a text can be reacted with.
pub fn is_valid_emoji(s: &str) -> (res: bool)
    ensures
        res == emoji_like(s@),
{
    let t = trim(s);
    if t.as_str().unicode_len() == 0 || byte_len(t.as_str()) > 32 {
        return false;
    }
    let chars = chars_of(t.as_str());
    let mut i: usize = 0;
    while i < chars.len()
        invariant
            i <= chars@.len(),
            chars@ == t@,
            t@ == trimmed(s@),
            0 < t@.len() && byte_count(t@) <= 32,
            forall|j: int| 0 <= j < i ==> #[trigger] t@[j] as u32 <= 127,
        decreases chars@.len() - i,
    {
        if chars[i] as u32 > 127 {
            assert(t@[i as int] as u32 > 127);
            return true;
        }
        i += 1;
    }
    false
}

/// How many different emojis a user may react with.
pub const MAX_EMOJIS: i64 = 2;

/// Whether a user has room for an emoji: one that they reacted with already, or
/// fewer than two others.
pub open spec fn room_for_emoji(same: Lookup<i64>, different: Lookup<i64>, message: Seq<char>) -> Result<
    (),
    Refusal,
> {
    match counted(same) {
        Err(e) => Err(e),
        Ok(true) => Ok(()),
        Ok(false) => match different {
            Lookup::Failed(e) => Err(Refusal::Internal(e@)),
            Lookup::Found(n) if n >= MAX_EMOJIS => Err(Refusal::BadRequest(message)),
            _ => Ok(()),
        },
    }
}

/// Refuse an emoji that a user has no room for.
pub fn require_room(same: &Lookup<i64>, different: &Lookup<i64>, message: &str) -> (res: Result<(), AppError>)
    ensures
        shown(res) == room_for_emoji(*same, *different, message@),
{
    if !any_counted(same)? {
        let count: i64 = match different {
            Lookup::Failed(e) => return Err(AppError::Internal(e.clone())),
            Lookup::Missing => 0,
            Lookup::Found(n) => *n,
        };
        if count >= MAX_EMOJIS {
            return Err(bad_request(message));
        }
    }
    Ok(())
}

/// What the database holds about a reaction to a message.
pub struct ReactionFacts {
    /// How many members have the user's name.
    pub memberships: Lookup<i64>,
    /// How many messages have the number.
    pub messages: Lookup<i64>,
    /// How often the user reacted with the same emoji.
    pub same: Lookup<i64>,
    /// How many different emojis the user reacted with.
    pub different: Lookup<i64>,
}

/// The questions behind the [`ReactionFacts`].
pub struct ReactionQueries {
    pub memberships: Query,
    pub messages: Query,
    pub same: Query,
    pub different: Query,
}

/// What to ask about a reaction to a message: the emoji is asked for without
/// white space at its ends.
pub fn reaction_queries(username: &str, message_id: i64, req: &AddReactionRequest) -> (res: ReactionQueries)
    ensures
        res.memberships matches Query::Memberships { username: u } && u@ == username@,
        res.messages == (Query::Messages { message_id }),
        res.same matches Query::SameMessageReactions { message_id: m, username: u, emoji: e } && m == message_id
            && u@ == username@ && e@ == trimmed(req.emoji@),
        res.different matches Query::DifferentMessageReactions { message_id: m, username: u } && m == message_id
            && u@ == username@,
{
    ReactionQueries {
        memberships: Query::Memberships { username: username.to_owned() },
        messages: Query::Messages { message_id },
        same: Query::SameMessageReactions {
            message_id,
            username: username.to_owned(),
            emoji: trim(req.emoji.as_str()),
        },
        different: Query::DifferentMessageReactions { message_id, username: username.to_owned() },
    }
}

/// The change that a reaction to a message asks for.
pub open spec fn reacted(
    username: Seq<char>,
    message_id: i64,
    emoji: Seq<char>,
    facts: ReactionFacts,
) -> Result<Change, Refusal> {
    if !emoji_like(trimmed(emoji)) {
        Err(Refusal::BadRequest("Invalid emoji"@))
    } else {
        match members_only(facts.memberships, "Not a member"@) {
            Err(e) => Err(e),
            Ok(_) => match counted(facts.messages) {
                Err(e) => Err(e),
                Ok(false) => Err(Refusal::NotFound("Message not found"@)),
                Ok(true) => match room_for_emoji(
                    facts.same,
                    facts.different,
                    "You can react with at most 2 different emojis per message"@,
                ) {
                    Err(e) => Err(e),
                    Ok(_) => Ok(Change::AddReaction { message_id, username, emoji: trimmed(emoji) }),
                },
            },
        }
    }
}

/// The model of a result with a write.
pub open spec fn write_of(r: Result<Write, AppError>) -> Result<Change, Refusal> {
    match r {
        Ok(w) => Ok(w@),
        Err(e) => Err(e@),
    }
}

/// React to a message, with at most two different emojis.
pub fn add_reaction(
    username: &str,
    message_id: i64,
    req: &AddReactionRequest,
    facts: &ReactionFacts,
) -> (res: Result<Write, AppError>)
    ensures
        write_of(res) == reacted(username@, message_id, req.emoji@, *facts),
{
    let emoji = trim(req.emoji.as_str());
    if !is_valid_emoji(emoji.as_str()) {
        return Err(bad_request("Invalid emoji"));
    }
    require_member(&facts.memberships, "Not a member")?;
    if !any_counted(&facts.messages)? {
        return Err(not_found("Message not found"));
    }
    require_room(
        &facts.same,
        &facts.different,
        "You can react with at most 2 different emojis per message",
    )?;
    Ok(Write::AddReaction { message_id, username: username.to_owned(), emoji })
}

/// The change that taking a reaction to a message back asks for.
pub open spec fn unreacted(
    username: Seq<char>,
    message_id: i64,
    emoji: Seq<char>,
    memberships: Lookup<i64>,
) -> Result<Change, Refusal> {
    if !emoji_like(trimmed(emoji)) {
        Err(Refusal::BadRequest("Invalid emoji"@))
    } else {
        match members_only(memberships, "Not a member"@) {
            Err(e) => Err(e),
            Ok(_) => Ok(Change::RemoveReaction { message_id, username, emoji: trimmed(emoji) }),
        }
    }
}

/// Take a reaction to a message back.
pub fn remove_reaction(username: &str, message_id: i64, emoji_raw: &str, memberships: &Lookup<i64>) -> (res:
    Result<Write, AppError>)
    ensures
        write_of(res) == unreacted(username@, message_id, emoji_raw@, *memberships),
{
    let emoji = trim(emoji_raw);
    if !is_valid_emoji(emoji.as_str()) {
        return Err(bad_request("Invalid emoji"));
    }
    require_member(memberships, "Not a member")?;
    Ok(Write::RemoveReaction { message_id, username: username.to_owned(), emoji })
}

/// Taking a reaction back undoes it: a user who had not reacted so before has
/// not reacted so after both, and nothing else changes.
pub proof fn taking_a_reaction_back_undoes_it(
    username: Seq<char>,
    message_id: i64,
    emoji: Seq<char>,
    facts: ReactionFacts,
    db: GroupDb,
)
    requires
        reacted(username, message_id, emoji, facts) is Ok,
        !db.reactions.contains((message_id, username, trimmed(emoji))),
    ensures
        unreacted(username, message_id, emoji, facts.memberships) is Ok,
        ({
            let there = applied(db, reacted(username, message_id, emoji, facts)->Ok_0, 0);
            &&& there.reactions.contains((message_id, username, trimmed(emoji)))
            &&& applied(there, unreacted(username, message_id, emoji, facts.memberships)->Ok_0, 0) == db
        }),
{
    let there = applied(db, reacted(username, message_id, emoji, facts)->Ok_0, 0);
    let back = applied(there, unreacted(username, message_id, emoji, facts.memberships)->Ok_0, 0);
    assert(back.reactions =~= db.reactions);
}

/// The emojis that a user reacted to a message with.
pub open spec fn emojis_on(db: GroupDb, message_id: i64, username: Seq<char>) -> Set<Seq<char>> {
    Set::new(|e: Seq<char>| db.reactions.contains((message_id, username, e)))
}

/// A user who has reacted to a message with at most two different emojis has
/// done so after reacting once more.
pub proof fn at_most_two_emojis_on_a_message(
    username: Seq<char>,
    message_id: i64,
    emoji: Seq<char>,
    facts: ReactionFacts,
    db: GroupDb,
)
    requires
        emojis_on(db, message_id, username).finite(),
        emojis_on(db, message_id, username).len() <= 2,
        facts.same matches Lookup::Found(n) && (n > 0 <==> emojis_on(db, message_id, username).contains(
            trimmed(emoji),
        )),
        facts.different matches Lookup::Found(n) && n == emojis_on(db, message_id, username).len(),
        reacted(username, message_id, emoji, facts) is Ok,
    ensures
        ({
            let after = applied(db, reacted(username, message_id, emoji, facts)->Ok_0, 0);
            &&& emojis_on(after, message_id, username) == emojis_on(db, message_id, username).insert(
                trimmed(emoji),
            )
            &&& emojis_on(after, message_id, username).len() <= 2
        }),
{
    let after = applied(db, reacted(username, message_id, emoji, facts)->Ok_0, 0);
    assert(emojis_on(after, message_id, username) =~= emojis_on(db, message_id, username).insert(
        trimmed(emoji),
    ));
}

/// What everyone is told about a changed reaction.
pub open spec fn reaction_packet(
    message_id: i64,
    reactions: Json,
    username: Seq<char>,
    emoji: Seq<char>,
    added: bool,
) -> Json {
    obj().with("type"@, Json::Text("reaction_update"@)).with("group_id"@, Json::Int(1)).with(
        "message_id"@,
        Json::Int(message_id as int),
    ).with("reactions"@, reactions).with("actor"@, Json::Text(username)).with(
        "emoji"@,
        Json::Text(trimmed(emoji)),
    ).with(
        "action"@,
        Json::Text(
            if added {
                "add"@
            } else {
                "remove"@
            },
        ),
    ).json()
}

/// The reply to a changed reaction.
pub open spec fn reaction_reply(reactions: Json) -> Json {
    obj().with("ok"@, Json::Bool(true)).with("reactions"@, reactions).json()
}

/// What follows once a reaction was added or taken back. `rows` are the
/// reactions to the message that there are then.
pub open spec fn reaction_told(
    username: Seq<char>,
    message_id: i64,
    emoji: Seq<char>,
    added: bool,
    rows: Seq<ReactionRow>,
) -> Effect {
    replying(reaction_reply(reactions_json(rows, message_id))).and_broadcast(
        reaction_packet(message_id, reactions_json(rows, message_id), username, emoji, added),
    )
}

/// What follows once a reaction was added or taken back. `rows` are the
/// reactions to the message that there are then.
pub fn reaction_changed(
    username: &str,
    message_id: i64,
    emoji_raw: &str,
    added: bool,
    rows: &Vec<ReactionRow>,
) -> (res: Outcome)
    ensures
        res@ == reaction_told(username@, message_id, emoji_raw@, added, rows@),
{
    let emoji = trim(emoji_raw);
    let packet = Fields::new().put_text("type", "reaction_update").put_int("group_id", GROUP).put_int(
        "message_id",
        message_id,
    ).put("reactions", reactions_to(rows, message_id)).put_text("actor", username).put_text(
        "emoji",
        emoji.as_str(),
    ).put_text(
        "action",
        if added {
            "add"
        } else {
            "remove"
        },
    ).done();
    let reply = Fields::new().put_bool("ok", true).put("reactions", reactions_to(rows, message_id)).done();
    Outcome::replying(reply).and_broadcast(packet)
}

/// A message that replies to nothing quotes nothing. A reply names the message
/// that it replies to and quotes that message's sender and content as they are
/// stored; where that message is gone, it quotes what the request says.
pub proof fn a_reply_quotes_what_it_replies_to(
    allowed: bool,
    posts: Map<Seq<char>, u64>,
    since: u64,
    limits: SendLimits,
    username: Seq<char>,
    req: SendMessageRequest,
    facts: SendFacts,
    now: i64,
    timestamp: Seq<char>,
    timestamp_ms: i64,
)
    requires
        message_of(allowed, posts, since, limits, username, req, facts, now, timestamp, timestamp_ms) is Ok,
    ensures
        ({
            let p = message_of(allowed, posts, since, limits, username, req, facts, now, timestamp, timestamp_ms)->Ok_0;
            &&& req.reply_to_id is None ==> p.reply_to_id is None && p.reply_to_sender is None
                && p.reply_to_content is None
            &&& req.reply_to_id matches Some(r) ==> p.reply_to_id == Some(r) && match facts.quoted {
                Lookup::Found(q) => p.reply_to_sender == Some(q.0@) && p.reply_to_content == Some(q.1@),
                Lookup::Missing => {
                    &&& p.reply_to_sender == match req.reply_to_sender {
                        Some(s) => Some(s@),
                        None => None,
                    }
                    &&& p.reply_to_content == match req.reply_to_content {
                        Some(c) => Some(c@),
                        None => None,
                    }
                },
                Lookup::Failed(_) => false,
            }
        }),
{
}

/// A message is accepted if and only if the limiter allows it, it is neither
/// empty nor too long, its sender is a member without a mute in force, may post
/// in the channel, if it is one, and has waited long enough, unless the sender
/// is an owner or a moderator.
pub proof fn who_may_send(
    allowed: bool,
    posts: Map<Seq<char>, u64>,
    since: u64,
    limits: SendLimits,
    username: Seq<char>,
    req: SendMessageRequest,
    facts: SendFacts,
    now: i64,
    timestamp: Seq<char>,
    timestamp_ms: i64,
)
    requires
        posts.contains_key(username) ==> posts[username] <= since,
    ensures
        message_of(allowed, posts, since, limits, username, req, facts, now, timestamp, timestamp_ms) is Ok <==> {
            &&& allowed
            &&& 0 < trimmed(req.content@).len()
            &&& byte_count(trimmed(req.content@)) <= limits.max_message_length
            &&& some_found(facts.memberships)
            &&& !(facts.mute matches Lookup::Found(end) && end > now)
            &&& facts.channel !is Failed
            &&& (facts.channel matches Lookup::Found(c) && c.0) ==> facts.role == Lookup::Found(1i64)
            &&& req.reply_to_id is Some ==> facts.quoted !is Failed
            &&& facts.role !is Failed
            &&& {
                ||| facts.role == Lookup::Found(1i64)
                ||| facts.role == Lookup::Found(2i64)
                ||| facts.slow_mode is Missing
                ||| facts.slow_mode matches Lookup::Found(s) && (s <= 0 || !posts.contains_key(username)
                    || since - posts[username] >= s * 1_000_000_000)
            }
        },
{
}

/// Everyone is told a message that was sent as it is stored, under its number,
/// and the sender gets the number and the time of it.
pub proof fn a_sent_message_is_told(p: PostRow, message_id: i64)
    ensures
        ({
            let effect = announced(p, message_id);
            let reply = effect.reply;
            &&& effect.changes.len() == 0
            &&& effect.notices.len() == 1
            &&& effect.notices[0] matches Packet::Broadcast(told) && {
                &&& member_of(told, "type"@) == Some(Json::Text("group_msg"@))
                &&& member_of(told, "group_id"@) == Some(Json::Int(1))
                &&& member_of(told, "message_id"@) == Some(Json::Int(message_id as int))
                &&& member_of(told, "from"@) == Some(Json::Text(p.sender))
                &&& member_of(told, "sender"@) == Some(Json::Text(p.sender))
                &&& member_of(told, "content"@) == Some(Json::Text(p.content))
                &&& member_of(told, "timestamp"@) == Some(Json::Text(p.timestamp))
                &&& member_of(told, "timestamp_ms"@) == Some(Json::Int(p.timestamp_ms as int))
                &&& member_of(told, "reply_to_id"@) == Some(
                    match p.reply_to_id {
                        Some(id) => Json::Int(id as int),
                        None => Json::Null,
                    },
                )
                &&& member_of(told, "reply_to_sender"@) == Some(
                    match p.reply_to_sender {
                        Some(s) => Json::Text(s),
                        None => Json::Null,
                    },
                )
                &&& member_of(told, "reply_to_content"@) == Some(
                    match p.reply_to_content {
                        Some(c) => Json::Text(c),
                        None => Json::Null,
                    },
                )
            }
            &&& member_of(reply, "ok"@) == Some(Json::Bool(true))
            &&& member_of(reply, "message_id"@) == Some(Json::Int(message_id as int))
            &&& member_of(reply, "timestamp"@) == Some(Json::Text(p.timestamp))
            &&& member_of(reply, "timestamp_ms"@) == Some(Json::Int(p.timestamp_ms as int))
        }),
{
    broadcast use lookup_of_push;

    reveal_strlit("type");
    reveal_strlit("group_id");
    reveal_strlit("message_id");
    reveal_strlit("from");
    reveal_strlit("sender");
    reveal_strlit("content");
    reveal_strlit("timestamp");
    reveal_strlit("timestamp_ms");
    reveal_strlit("reply_to_id");
    reveal_strlit("reply_to_sender");
    reveal_strlit("reply_to_content");
    reveal_strlit("ok");
}

/// The history tells a member every message that was read, the one that was
/// read last first, each with the columns of its row and the reactions to it.
pub proof fn the_history_tells_each_message(
    memberships: Lookup<i64>,
    rows: Seq<Message>,
    reactions: Seq<ReactionRow>,
    i: int,
)
    requires
        some_found(memberships),
        0 <= i < rows.len(),
    ensures
        history(memberships, Ok(rows), reactions) is Ok,
        ({
            let effect = history(memberships, Ok(rows), reactions)->Ok_0;
            let told = effect.reply->Array_0;
            let m = rows[rows.len() - 1 - i];
            &&& effect.changes.len() == 0
            &&& effect.notices.len() == 0
            &&& effect.reply is Array
            &&& told.len() == rows.len()
            &&& member_of(told[i], "id"@) == Some(Json::Int(m.id as int))
            &&& member_of(told[i], "sender"@) == Some(Json::Text(m.sender_username@))
            &&& member_of(told[i], "content"@) == Some(Json::Text(m.content@))
            &&& member_of(told[i], "reply_to_id"@) == Some(
                match m.reply_to_id {
                    Some(id) => Json::Int(id as int),
                    None => Json::Null,
                },
            )
            &&& member_of(told[i], "reply_to_sender"@) == Some(
                match m.reply_to_sender {
                    Some(s) => Json::Text(s@),
                    None => Json::Null,
                },
            )
            &&& member_of(told[i], "reply_to_content"@) == Some(
                match m.reply_to_content {
                    Some(c) => Json::Text(c@),
                    None => Json::Null,
                },
            )
            &&& member_of(told[i], "timestamp"@) == Some(Json::Text(m.timestamp@))
            &&& member_of(told[i], "timestamp_ms"@) == Some(Json::Int(m.timestamp_ms as int))
            &&& member_of(told[i], "reactions"@) == Some(reactions_json(reactions, m.id))
        }),
{
    broadcast use lookup_of_push;

    reveal_strlit("id");
    reveal_strlit("sender");
    reveal_strlit("content");
    reveal_strlit("timestamp");
    reveal_strlit("timestamp_ms");
    reveal_strlit("reply_to_id");
    reveal_strlit("reply_to_sender");
    reveal_strlit("reply_to_content");
    reveal_strlit("reactions");
}

/// The history is for members, and tells nothing where it could not be read.
pub proof fn the_history_is_for_members(
    memberships: Lookup<i64>,
    rows: Result<Seq<Message>, Refusal>,
    reactions: Seq<ReactionRow>,
)
    ensures
        history(memberships, rows, reactions) is Ok <==> rows is Ok && some_found(memberships),
        none_found(memberships) ==> history(
            memberships,
            rows,
            reactions,
        ) matches Err(Refusal::Forbidden(_)),
{
}

/// The reactions to a message that are told: under each emoji that someone
/// reacted with, the users who did, in the order of the rows, and nothing under
/// any other.
pub proof fn the_reactions_told_are_those_made(rows: Seq<ReactionRow>, id: i64, emoji: Seq<char>)
    ensures
        ({
            let made = rows.filter(|r: ReactionRow| r.message_id == id && r.emoji@ == emoji);
            member_of(reactions_json(rows, id), emoji) == (if made.len() > 0 {
                Some(Json::Array(made.map_values(|r: ReactionRow| Json::Text(r.username@))))
            } else {
                None
            })
        }),
{
    let made = rows.filter(|r: ReactionRow| r.message_id == id && r.emoji@ == emoji);
    let all = emojis_of(rows, id);
    let fields = all.map_values(|e: Seq<char>| reactors_field(rows, id, e));
    reactions_are_grouped(rows, id);
    reactors_are_filtered(rows, id, emoji);
    if made.len() > 0 {
        let users = reactors_of(rows, id, emoji);
        assert(users.contains(users[0]));
        let i = choose|i: int|
            0 <= i < rows.len() && #[trigger] rows[i].message_id == id && rows[i].emoji@ == emoji
                && rows[i].username@ == users[0];
        assert(rows[i].message_id == id);
        assert(all.contains(emoji));
        let k = choose|k: int| 0 <= k < all.len() && all[k] == emoji;
        lookup_of_field(fields, k);
        assert(made.map_values(|r: ReactionRow| Json::Text(r.username@)) =~= reactors_of(rows, id, emoji).map_values(
            |t: Seq<char>| Json::Text(t),
        ));
    } else {
        assert forall|j: int| 0 <= j < fields.len() implies (#[trigger] fields[j]).0 != emoji by {
            assert(all.contains(all[j]));
        }
        lookup_of_nothing(fields, emoji);
    }
}

/// The users who reacted with an emoji are those of the rows that say so.
pub proof fn reactors_are_filtered(rows: Seq<ReactionRow>, id: i64, emoji: Seq<char>)
    ensures
        reactors_of(rows, id, emoji) == rows.filter(
            |r: ReactionRow| r.message_id == id && r.emoji@ == emoji,
        ).map_values(|r: ReactionRow| r.username@),
    decreases rows.len(),
{
    reveal(Seq::filter);
    if rows.len() > 0 {
        reactors_are_filtered(rows.drop_last(), id, emoji);
    }
}

/// Someone joins if and only if the limiter allows it, the invite token is that
/// of the group, they are neither banned nor a member, and they have a session.
pub proof fn who_may_join(
    allowed: bool,
    max_joins_per_minute: u32,
    username: Seq<char>,
    facts: JoinFacts,
    default_role: Seq<char>,
)
    ensures
        joined(allowed, max_joins_per_minute, username, facts, default_role) is Ok <==> {
            &&& allowed
            &&& some_found(facts.invites)
            &&& none_found(facts.bans)
            &&& none_found(facts.memberships)
            &&& facts.session is Found
        },
        allowed && none_found(facts.invites) ==> joined(
            allowed,
            max_joins_per_minute,
            username,
            facts,
            default_role,
        ) matches Err(Refusal::NotFound(_)),
        allowed && some_found(facts.invites) && some_found(facts.bans) ==> joined(allowed, max_joins_per_minute, username, facts, default_role) matches Err(
            Refusal::Forbidden(_),
        ),
{
}

/// Whoever joins becomes a member with the display name and the public key of
/// their session and with the default role. They are told which group it is, and
/// everyone is told who joined.
pub proof fn who_joins_is_a_member(
    allowed: bool,
    max_joins_per_minute: u32,
    username: Seq<char>,
    facts: JoinFacts,
    default_role: Seq<char>,
    db: GroupDb,
)
    requires
        joined(allowed, max_joins_per_minute, username, facts, default_role) is Ok,
    ensures
        ({
            let effect = joined(allowed, max_joins_per_minute, username, facts, default_role)->Ok_0;
            let after = applied(db, effect.changes[0], 0);
            let reply = effect.reply;
            &&& effect.changes.len() == 1
            &&& facts.session matches Lookup::Found(s) && {
                &&& after.members == db.members.insert(
                    username,
                    MemberRow { display_name: s.0@, public_key: s.1@, role: default_role, role_id: None },
                )
                &&& after == (GroupDb { members: after.members, ..db })
                &&& effect.notices.len() == 1
                &&& effect.notices[0] matches Packet::Broadcast(told) && {
                    &&& member_of(told, "type"@) == Some(Json::Text("group_joined"@))
                    &&& member_of(told, "group_id"@) == Some(Json::Int(1))
                    &&& member_of(told, "username"@) == Some(Json::Text(username))
                    &&& member_of(told, "display_name"@) == Some(Json::Text(s.0@))
                }
            }
            &&& member_of(reply, "ok"@) == Some(Json::Bool(true))
            &&& member_of(reply, "group_id"@) == Some(Json::Int(1))
            &&& facts.group_name matches Lookup::Found(n) ==> member_of(reply, "group_name"@) == Some(
                Json::Text(n@),
            )
            &&& facts.group_name !is Found ==> member_of(reply, "group_name"@) == Some(
                Json::Text("Unknown"@),
            )
        }),
{
    broadcast use lookup_of_push;

    reveal_strlit("type");
    reveal_strlit("group_id");
    reveal_strlit("username");
    reveal_strlit("display_name");
    reveal_strlit("ok");
    reveal_strlit("group_name");
}

/// Whoever is not the last owner may leave, and is no member afterwards; the
/// others are told. Leaving is refused to someone who is no member.
pub proof fn who_leaves_is_gone(username: Seq<char>, role: Lookup<String>, owners: Lookup<i64>, db: GroupDb)
    ensures
        left(username, role, owners) is Ok <==> {
            &&& role !is Failed
            &&& (role matches Lookup::Found(r) && r@ == "owner"@) ==> (owners matches Lookup::Found(n) && n > 1)
        },
        left(username, role, owners) matches Ok(effect) ==> {
            let after = applied(db, effect.changes[0], 0);
            &&& effect.changes.len() == 1
            &&& after.members == db.members.remove(username)
            &&& after == (GroupDb { members: after.members, ..db })
            &&& effect.unless_changed matches Some(Refusal::NotFound(_))
            &&& member_of(effect.reply, "ok"@) == Some(Json::Bool(true))
            &&& effect.notices.len() == 1
            &&& effect.notices[0] matches Packet::Broadcast(told) && {
                &&& member_of(told, "type"@) == Some(Json::Text("group_member_left"@))
                &&& member_of(told, "group_id"@) == Some(Json::Int(1))
                &&& member_of(told, "username"@) == Some(Json::Text(username))
            }
        },
{
    broadcast use lookup_of_push;

    reveal_strlit("type");
    reveal_strlit("group_id");
    reveal_strlit("username");
    reveal_strlit("ok");
}

/// A user is told the role that is stored for them, or `member`.
pub proof fn the_own_role_is_told(role: Lookup<String>)
    ensures
        own_role(role) is Ok <==> role !is Failed,
        own_role(role) matches Ok(effect) ==> {
            &&& effect.changes.len() == 0
            &&& effect.notices.len() == 0
            &&& member_of(effect.reply, "ok"@) == Some(Json::Bool(true))
            &&& role matches Lookup::Found(r) ==> member_of(effect.reply, "role"@) == Some(Json::Text(r@))
            &&& role is Missing ==> member_of(effect.reply, "role"@) == Some(Json::Text("member"@))
        },
{
    broadcast use lookup_of_push;

    reveal_strlit("ok");
    reveal_strlit("role");
}

/// A member may delete a message and, with some content, change one; others may
/// not. Everyone is told which message went, or what it says now and who changed
/// it; a message that is not there or someone else's is refused.
pub proof fn changes_to_messages_are_told(
    username: Seq<char>,
    message_id: i64,
    content: Seq<char>,
    memberships: Lookup<i64>,
)
    ensures
        deleted(username, message_id, memberships) is Ok <==> some_found(memberships),
        edited(username, message_id, content, memberships) is Ok <==> 0 < trimmed(content).len()
            && some_found(memberships),
        deleted(username, message_id, memberships) matches Ok(effect) ==> {
            &&& effect.unless_changed matches Some(Refusal::NotFound(_))
            &&& member_of(effect.reply, "ok"@) == Some(Json::Bool(true))
            &&& effect.notices.len() == 1
            &&& effect.notices[0] matches Packet::Broadcast(told) && {
                &&& member_of(told, "type"@) == Some(Json::Text("group_msg_deleted"@))
                &&& member_of(told, "group_id"@) == Some(Json::Int(1))
                &&& member_of(told, "message_id"@) == Some(Json::Int(message_id as int))
            }
        },
        edited(username, message_id, content, memberships) matches Ok(effect) ==> {
            &&& effect.unless_changed matches Some(Refusal::NotFound(_))
            &&& member_of(effect.reply, "ok"@) == Some(Json::Bool(true))
            &&& effect.notices.len() == 1
            &&& effect.notices[0] matches Packet::Broadcast(told) && {
                &&& member_of(told, "type"@) == Some(Json::Text("group_msg_edited"@))
                &&& member_of(told, "group_id"@) == Some(Json::Int(1))
                &&& member_of(told, "message_id"@) == Some(Json::Int(message_id as int))
                &&& member_of(told, "new_content"@) == Some(Json::Text(trimmed(content)))
                &&& member_of(told, "edited_by"@) == Some(Json::Text(username))
            }
        },
{
    broadcast use lookup_of_push;

    reveal_strlit("type");
    reveal_strlit("group_id");
    reveal_strlit("message_id");
    reveal_strlit("new_content");
    reveal_strlit("edited_by");
    reveal_strlit("ok");
}

/// A member may react to a message that is there with a short text that is not
/// plain ASCII, unless they reacted with two others; and may take such a
/// reaction back. Only that one reaction of theirs comes or goes.
pub proof fn who_may_react(
    username: Seq<char>,
    message_id: i64,
    emoji: Seq<char>,
    facts: ReactionFacts,
    db: GroupDb,
)
    ensures
        ({
            let e = trimmed(emoji);
            let usable = 0 < e.len() && byte_count(e) <= 32 && exists|i: int|
                0 <= i < e.len() && #[trigger] e[i] as u32 > 127;
            let member = some_found(facts.memberships);
            &&& reacted(username, message_id, emoji, facts) is Ok <==> {
                &&& usable
                &&& member
                &&& some_found(facts.messages)
                &&& facts.same !is Failed
                &&& {
                    ||| some_found(facts.same)
                    ||| facts.different matches Lookup::Found(n) && n < 2
                    ||| facts.different is Missing
                }
            }
            &&& unreacted(username, message_id, emoji, facts.memberships) is Ok <==> usable && member
            &&& reacted(username, message_id, emoji, facts) matches Ok(change) ==> applied(db, change, 0)
                == (GroupDb { reactions: db.reactions.insert((message_id, username, e)), ..db })
            &&& unreacted(username, message_id, emoji, facts.memberships) matches Ok(change) ==> applied(
                db,
                change,
                0,
            ) == (GroupDb { reactions: db.reactions.remove((message_id, username, e)), ..db })
        }),
{
    trimming_is_idempotent(emoji);
}

/// Everyone is told who added or took back which reaction to which message, and
/// like whoever did so, which reactions there are then.
pub proof fn a_changed_reaction_is_told(
    username: Seq<char>,
    message_id: i64,
    emoji: Seq<char>,
    added: bool,
    rows: Seq<ReactionRow>,
)
    ensures
        ({
            let effect = reaction_told(username, message_id, emoji, added, rows);
            &&& effect.changes.len() == 0
            &&& member_of(effect.reply, "ok"@) == Some(Json::Bool(true))
            &&& member_of(effect.reply, "reactions"@) == Some(reactions_json(rows, message_id))
            &&& effect.notices.len() == 1
            &&& effect.notices[0] matches Packet::Broadcast(told) && {
                &&& member_of(told, "type"@) == Some(Json::Text("reaction_update"@))
                &&& member_of(told, "group_id"@) == Some(Json::Int(1))
                &&& member_of(told, "message_id"@) == Some(Json::Int(message_id as int))
                &&& member_of(told, "reactions"@) == Some(reactions_json(rows, message_id))
                &&& member_of(told, "actor"@) == Some(Json::Text(username))
                &&& member_of(told, "emoji"@) == Some(Json::Text(trimmed(emoji)))
                &&& added ==> member_of(told, "action"@) == Some(Json::Text("add"@))
                &&& !added ==> member_of(told, "action"@) == Some(Json::Text("remove"@))
            }
        }),
{
    broadcast use lookup_of_push;

    reveal_strlit("type");
    reveal_strlit("group_id");
    reveal_strlit("message_id");
    reveal_strlit("reactions");
    reveal_strlit("actor");
    reveal_strlit("emoji");
    reveal_strlit("action");
    reveal_strlit("ok");
}

/// So many messages are read as the request asks for, but no more than 200, and
/// 50 where it does not say.
pub proof fn the_history_is_bounded(limit: Option<i64>)
    ensures
        limit is None ==> limit_of(limit) == 50,
        limit matches Some(n) && n <= 200 ==> limit_of(limit) == limit->0,
        limit matches Some(n) && n > 200 ==> limit_of(limit) == 200,
{
}

/// What is asked about a message to send is asked about its sender, the group and
/// the message that it replies to.
pub proof fn sending_asks_about_the_sender(username: &str, req: SendMessageRequest, res: SendQueries)
    requires
        call_ensures(send_queries, (username, &req), res),
    ensures
        asks(
            res.memberships,
            "SELECT COUNT(*) FROM members WHERE username = ?1"@,
            seq![Param::Text(username@)],
        ),
        asks(
            res.mute,
            "SELECT expires_at FROM mutes WHERE username = ?1"@,
            seq![Param::Text(username@)],
        ),
        asks(
            res.role,
            "SELECT COALESCE(role_id, CASE role WHEN 'owner' THEN 1 WHEN 'moderator' THEN 2 ELSE 3 END) FROM members WHERE username = ?1"@,
            seq![Param::Text(username@)],
        ),
        asks(
            res.channel,
            "SELECT is_channel, name FROM group_info WHERE id = 1"@,
            Seq::empty(),
        ),
        asks(
            res.slow_mode,
            "SELECT slow_mode_seconds FROM group_info WHERE id = 1"@,
            Seq::empty(),
        ),
        res.quoted is Some <==> req.reply_to_id is Some,
        res.quoted matches Some(q) ==> asks(
            q,
            "SELECT sender_username, content FROM messages WHERE id = ?1"@,
            seq![Param::Int(req.reply_to_id->Some_0)],
        ),
{
}

/// What is asked about someone who joins is asked about them and the token that they
/// have.
pub proof fn joining_asks_about_user_and_token(
    username: &str,
    invite_token: &str,
    res: JoinQueries,
)
    requires
        call_ensures(join_queries, (username, invite_token), res),
    ensures
        asks(
            res.invites,
            "SELECT COUNT(*) FROM group_info WHERE id = 1 AND invite_token = ?1"@,
            seq![Param::Text(invite_token@)],
        ),
        asks(
            res.bans,
            "SELECT COUNT(*) FROM bans WHERE username = ?1"@,
            seq![Param::Text(username@)],
        ),
        asks(
            res.memberships,
            "SELECT COUNT(*) FROM members WHERE username = ?1"@,
            seq![Param::Text(username@)],
        ),
        asks(
            res.session,
            "SELECT display_name, public_key FROM sessions WHERE username = ?1"@,
            seq![Param::Text(username@)],
        ),
        asks(
            res.group_name,
            "SELECT name FROM group_info WHERE id = 1"@,
            Seq::empty(),
        ),
{
}

/// What is asked about a reaction is asked about the user, the message and the emoji
/// without white space around it.
pub proof fn reacting_asks_about_user_and_emoji(
    username: &str,
    message_id: i64,
    req: AddReactionRequest,
    res: ReactionQueries,
)
    requires
        call_ensures(reaction_queries, (username, message_id, &req), res),
    ensures
        asks(
            res.memberships,
            "SELECT COUNT(*) FROM members WHERE username = ?1"@,
            seq![Param::Text(username@)],
        ),
        asks(
            res.messages,
            "SELECT COUNT(*) FROM messages WHERE id = ?1"@,
            seq![Param::Int(message_id)],
        ),
        asks(
            res.same,
            "SELECT COUNT(*) FROM message_reactions WHERE message_id = ?1 AND reactor_username = ?2 AND emoji = ?3"@,
            seq![Param::Int(message_id), Param::Text(username@), Param::Text(trimmed(req.emoji@))],
        ),
        asks(
            res.different,
            "SELECT COUNT(DISTINCT emoji) FROM message_reactions WHERE message_id = ?1 AND reactor_username = ?2"@,
            seq![Param::Int(message_id), Param::Text(username@)],
        ),
{
}

/// Whoever knows the token of a public channel is told the same history as a
/// member, and whoever does not is told that there is no such channel.
pub proof fn a_public_channel_shows_its_history(
    channels: Lookup<i64>,
    memberships: Lookup<i64>,
    rows: Result<Seq<Message>, Refusal>,
    reactions: Seq<ReactionRow>,
)
    ensures
        some_found(channels) && some_found(memberships) ==> public_history(channels, rows, reactions) == history(
            memberships,
            rows,
            reactions,
        ),
        !some_found(channels) ==> public_history(channels, rows, reactions) matches Err(Refusal::NotFound(_)),
{
}

/// A message that is refused says why: how many may be sent and how long one may
/// be, until when its sender is muted, or how many seconds they must still wait.
pub proof fn a_refused_message_says_why(
    allowed: bool,
    posts: Map<Seq<char>, u64>,
    since: u64,
    limits: SendLimits,
    username: Seq<char>,
    req: SendMessageRequest,
    facts: SendFacts,
    now: i64,
    timestamp: Seq<char>,
    timestamp_ms: i64,
    end: i64,
    seconds: i64,
)
    ensures
        ({
            let res = message_of(allowed, posts, since, limits, username, req, facts, now, timestamp, timestamp_ms);
            let content = trimmed(req.content@);
            let fine = allowed && 0 < content.len() && byte_count(content) <= limits.max_message_length;
            let member = fine && some_found(facts.memberships);
            let free = member && !(facts.mute matches Lookup::Found(e) && e > now);
            let waited = (since - posts[username]) / 1_000_000_000;
            &&& !allowed ==> res == Err::<PostRow, Refusal>(
                Refusal::BadRequest(
                    "Rate limit exceeded: max "@ + decimal(limits.max_messages_per_minute as nat)
                        + " messages per minute"@,
                ),
            )
            &&& allowed && content.len() == 0 ==> (res matches Err(Refusal::BadRequest(_)))
            &&& allowed && 0 < content.len() && byte_count(content) > limits.max_message_length ==> res == Err::<
                PostRow,
                Refusal,
            >(
                Refusal::BadRequest(
                    "Message too long (max "@ + decimal(limits.max_message_length as nat) + " chars)"@,
                ),
            )
            &&& fine && none_found(facts.memberships) ==> (res matches Err(Refusal::Forbidden(_)))
            &&& member && facts.mute == Lookup::Found(end) && end > now ==> res == Err::<PostRow, Refusal>(
                Refusal::Forbidden("You are muted until "@ + signed_decimal(end as int)),
            )
            &&& free && (facts.channel matches Lookup::Found(c) && c.0) && facts.role !is Failed && facts.role
                != Lookup::Found(1i64) ==> (res matches Err(Refusal::Forbidden(_)))
            &&& free && facts.channel is Missing && req.reply_to_id is None && facts.role == Lookup::Found(3i64)
                && facts.slow_mode == Lookup::Found(seconds) && posts.contains_key(username) && posts[username]
                <= since && waited < seconds ==> res == Err::<PostRow, Refusal>(
                Refusal::BadRequest("Slow mode: wait "@ + signed_decimal(seconds - waited) + " seconds"@),
            )
        }),
{
}

/// A mute that is over goes with the next message that is fine otherwise, whatever
/// becomes of it. A message that is sent is the sender's last, and one that is not
/// changes nothing for slow mode.
pub proof fn sending_keeps_track(
    allowed: bool,
    posts: Map<Seq<char>, u64>,
    since: u64,
    limits: SendLimits,
    username: Seq<char>,
    req: SendMessageRequest,
    facts: SendFacts,
    now: i64,
    timestamp: Seq<char>,
    timestamp_ms: i64,
)
    ensures
        send_clears_mute(allowed, limits, req, facts, now) <==> {
            &&& allowed
            &&& 0 < trimmed(req.content@).len()
            &&& byte_count(trimmed(req.content@)) <= limits.max_message_length
            &&& some_found(facts.memberships)
            &&& facts.mute matches Lookup::Found(end) && end <= now
        },
        ({
            let message = message_of(allowed, posts, since, limits, username, req, facts, now, timestamp, timestamp_ms);
            &&& message is Ok ==> posts_after(message, posts, username, since) == posts.insert(username, since)
            &&& message is Err ==> posts_after(message, posts, username, since) == posts
        }),
{
}

/// Someone who tries to join too often is told how often they may.
pub proof fn a_refused_join_says_why(
    max_joins_per_minute: u32,
    username: Seq<char>,
    facts: JoinFacts,
    default_role: Seq<char>,
)
    ensures
        joined(false, max_joins_per_minute, username, facts, default_role) == Err::<Effect, Refusal>(
            Refusal::BadRequest(
                "Rate limit exceeded: max "@ + decimal(max_joins_per_minute as nat)
                    + " join attempts per minute"@,
            ),
        ),
        some_found(facts.invites) && none_found(facts.bans) && some_found(facts.memberships) ==> joined(
            true,
            max_joins_per_minute,
            username,
            facts,
            default_role,
        ) matches Err(Refusal::Conflict(_)),
{
}

/// Of some messages each has an entry with the reactions to it if there are any,
/// and no other message has one.
pub proof fn reactions_are_listed_by_message(
    rows: Vec<ReactionRow>,
    message_ids: Vec<i64>,
    res: HashMap<i64, JsonValue>,
    id: i64,
)
    requires
        call_ensures(load_reactions_map, (&rows, &message_ids), res),
    ensures
        res@.contains_key(id) <==> message_ids@.contains(id) && exists|i: int|
            0 <= i < rows@.len() && #[trigger] rows@[i].message_id == id,
        res@.contains_key(id) ==> res@[id]@ == reactions_json(rows@, id),
{
    reactions_are_grouped(rows@, id);
    let all = emojis_of(rows@, id);
    if all.len() > 0 {
        assert(all.contains(all[0]));
        let users = reactors_of(rows@, id, all[0]);
        assert(users.contains(users[0]));
    }
    if exists|i: int| 0 <= i < rows@.len() && #[trigger] rows@[i].message_id == id {
        let i = choose|i: int| 0 <= i < rows@.len() && #[trigger] rows@[i].message_id == id;
        assert(all.contains(rows@[i].emoji@));
    }
}

/// How the requests about messages and the group are refused: to someone who is no
/// member, for what is not there, and for what may not be.
pub proof fn refusals_about_messages(
    username: Seq<char>,
    message_id: i64,
    content: Seq<char>,
    role: Lookup<String>,
    owners: Lookup<i64>,
    facts: ReactionFacts,
)
    ensures
        role matches Lookup::Found(r) && r@ == "owner"@ && !(owners is Failed) && !(owners matches Lookup::Found(n)
            && n > 1) ==> left(username, role, owners) matches Err(Refusal::BadRequest(_)),
        role matches Lookup::Failed(e) ==> left(username, role, owners) == Err::<Effect, Refusal>(
            Refusal::Internal(e@),
        ) && own_role(role) == Err::<Effect, Refusal>(Refusal::Internal(e@)),
        none_found(facts.memberships) ==> deleted(username, message_id, facts.memberships) matches Err(
            Refusal::Forbidden(_),
        ),
        trimmed(content).len() == 0 ==> edited(username, message_id, content, facts.memberships) matches Err(
            Refusal::BadRequest(_),
        ),
        trimmed(content).len() > 0 && none_found(facts.memberships) ==> edited(
            username,
            message_id,
            content,
            facts.memberships,
        ) matches Err(Refusal::Forbidden(_)),
        ({
            let res = reacted(username, message_id, content, facts);
            let gone = unreacted(username, message_id, content, facts.memberships);
            let usable = emoji_like(trimmed(content));
            let member = usable && some_found(facts.memberships);
            let there = member && some_found(facts.messages);
            &&& !usable ==> (res matches Err(Refusal::BadRequest(_))) && (gone matches Err(Refusal::BadRequest(_)))
            &&& usable && none_found(facts.memberships) ==> (res matches Err(Refusal::Forbidden(_))) && (
            gone matches Err(Refusal::Forbidden(_)))
            &&& member && none_found(facts.messages) ==> (res matches Err(Refusal::NotFound(_)))
            &&& there && none_found(facts.same) && (facts.different matches Lookup::Found(n) && n >= 2) ==> (
            res matches Err(Refusal::BadRequest(_)))
        }),
{
}

/// Whether a text can be reacted with does not depend on white space around it.
pub proof fn white_space_around_an_emoji_makes_no_difference(s: Seq<char>)
    ensures
        emoji_like(s) == emoji_like(trimmed(s)),
        trimmed(s).len() == 0 ==> !emoji_like(s),
{
    trimming_is_idempotent(s);
}

/// The placeholders are numbered from 1 on, with a comma between two of them.
pub proof fn placeholders_are_numbered(n: nat)
    ensures
        placeholders(0).len() == 0,
        placeholders(1) == "?"@ + decimal(1),
        n > 0 ==> placeholders(n + 1) == placeholders(n) + ", ?"@ + decimal(n + 1),
{
}

} // verus!
