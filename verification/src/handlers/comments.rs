//! Comments on the posts of a channel, and reactions to them.

use crate::error::{
    any_counted, bad_request, counted, forbidden, none_found, not_found, some_found, AppError, Lookup, Refusal,
};
use crate::group::{applied, without_comment, GroupDb, PostRow};
use crate::handlers::checks::{members_only, require_member, rows_found, surely_counted, GROUP};
use crate::handlers::messages::{
    drafted, emoji_like, emojis, emojis_of, is_valid_emoji, placeholder_list, placeholders, posting,
    reactions_are_grouped, reactors_are_filtered, reactors_of, replying_to, require_room, room_for_emoji,
    same_option, taking_one_more, with_reply,
    Draft, ReactionRow, SendLimits,
};
use crate::handlers::moderation_handlers::{active_mute_expiry, mute_in_force, mute_is_over};
use crate::json::{
    array, int_or_none, int_or_null, jsons, lookup_of_field, lookup_of_nothing, lookup_of_push, member_of,
    obj, opt_text, text_or_none, text_or_null, Fields, Json, JsonValue,
};
use crate::models::message::Message;
use crate::models::permission::{Permission, DELETE_MESSAGES};
use crate::outcome::{ok_json, ok_reply, replying, told, Effect, Outcome, Packet};
use crate::permissions::{has_permission, permitted};
use crate::rate_limit::{allowed, recorded, stamps_of, RateLimiter};
use crate::query::{asks, Query};
use crate::store::{Change, Param, Write};
use crate::text::{
    byte_count, byte_len, decimal, glue, glue3, same, show_i64, show_u64, signed_decimal, texts,
    trim, trimmed, trimming_is_idempotent,
};
use std::collections::HashMap;
use vstd::prelude::*;
use vstd::string::*;

verus! {

/// What is shown under a post: how many comments it has, and the latest.
pub struct CommentPreview {
    pub count: i64,
    pub last_sender: Option<String>,
    pub last_content: Option<String>,
}

/// The preview of a post.
pub struct PreviewRow {
    pub post_id: i64,
    pub preview: CommentPreview,
}

/// A request to react to a comment.
pub struct AddCommentReactionRequest {
    pub emoji: String,
}

/// A request to comment on a post.
pub struct SendCommentRequest {
    pub content: String,
    pub reply_to_id: Option<i64>,
}

/// A request to change a comment.
pub struct EditCommentRequest {
    pub content: String,
}

/// The query for the previews of so many posts.
pub fn previews_query(count: u64) -> (res: String)
    ensures
        res@
            == "SELECT c.post_id, COUNT(*), (SELECT sender_username FROM comments c2 WHERE c2.post_id = c.post_id ORDER BY c2.timestamp_ms DESC, c2.id DESC LIMIT 1), (SELECT content FROM comments c2 WHERE c2.post_id = c.post_id ORDER BY c2.timestamp_ms DESC, c2.id DESC LIMIT 1) FROM comments c WHERE c.post_id IN ("@
            + placeholders(count as nat) + ") GROUP BY c.post_id"@,
{
    let list = placeholder_list(count);
    glue3(
        "SELECT c.post_id, COUNT(*), (SELECT sender_username FROM comments c2 WHERE c2.post_id = c.post_id ORDER BY c2.timestamp_ms DESC, c2.id DESC LIMIT 1), (SELECT content FROM comments c2 WHERE c2.post_id = c.post_id ORDER BY c2.timestamp_ms DESC, c2.id DESC LIMIT 1) FROM comments c WHERE c.post_id IN (",
        list.as_str(),
        ") GROUP BY c.post_id",
    )
}

/// The query for the reactions to so many comments.
pub fn comment_reactions_query(count: u64) -> (res: String)
    ensures
        res@
            == "SELECT comment_id, emoji, reactor_username FROM comment_reactions WHERE comment_id IN ("@
            + placeholders(count as nat) + ") ORDER BY comment_id, emoji, created_at"@,
{
    let list = placeholder_list(count);
    glue3(
        "SELECT comment_id, emoji, reactor_username FROM comment_reactions WHERE comment_id IN (",
        list.as_str(),
        ") ORDER BY comment_id, emoji, created_at",
    )
}

/// The model of a preview: the count, the latest sender and the latest content.
pub open spec fn preview_model(p: CommentPreview) -> (i64, Option<Seq<char>>, Option<Seq<char>>) {
    (p.count, opt_text(p.last_sender), opt_text(p.last_content))
}

/// The preview of a post among some rows; the last one, if there are several.
pub open spec fn preview_of(rows: Seq<PreviewRow>, id: i64) -> Option<
    (i64, Option<Seq<char>>, Option<Seq<char>>),
>
    decreases rows.len(),
{
    if rows.len() == 0 {
        None
    } else if rows.last().post_id == id {
        Some(preview_model(rows.last().preview))
    } else {
        preview_of(rows.drop_last(), id)
    }
}

/// The model of a preview that may be missing.
pub open spec fn opt_preview(p: Option<CommentPreview>) -> Option<
    (i64, Option<Seq<char>>, Option<Seq<char>>),
> {
    match p {
        Some(v) => Some(preview_model(v)),
        None => None,
    }
}

fn find_preview(rows: &Vec<PreviewRow>, id: i64) -> (res: Option<CommentPreview>)
    ensures
        opt_preview(res) == preview_of(rows@, id),
{
    let mut i: usize = rows.len();
    assert(rows@.take(rows@.len() as int) =~= rows@);
    while i > 0
        invariant
            i <= rows@.len(),
            preview_of(rows@, id) == preview_of(rows@.take(i as int), id),
        decreases i,
    {
        assert(rows@.take(i as int).drop_last() =~= rows@.take(i - 1));
        i -= 1;
        if rows[i].post_id == id {
            let p = &rows[i].preview;
            return Some(
                CommentPreview {
                    count: p.count,
                    last_sender: same_option(&p.last_sender),
                    last_content: same_option(&p.last_content),
                },
            );
        }
    }
    None
}

/// The previews of some posts, by the number of the post. A post without comments
/// has no entry.
pub fn load_comment_previews(rows: &Vec<PreviewRow>, post_ids: &Vec<i64>) -> (res: HashMap<
    i64,
    CommentPreview,
>)
    ensures
        forall|id: i64| #[trigger]
            res@.contains_key(id) <==> post_ids@.contains(id) && preview_of(rows@, id) is Some,
        forall|id: i64| #[trigger]
            res@.contains_key(id) ==> Some(preview_model(res@[id])) == preview_of(rows@, id),
{
    broadcast use vstd::std_specs::hash::group_hash_axioms;

    let mut out: HashMap<i64, CommentPreview> = HashMap::new();
    let mut i: usize = 0;
    while i < post_ids.len()
        invariant
            i <= post_ids@.len(),
            forall|id: i64| #[trigger]
                out@.contains_key(id) <==> post_ids@.take(i as int).contains(id) && preview_of(
                    rows@,
                    id,
                ) is Some,
            forall|id: i64| #[trigger]
                out@.contains_key(id) ==> Some(preview_model(out@[id])) == preview_of(rows@, id),
        decreases post_ids@.len() - i,
    {
        let id: i64 = post_ids[i];
        if let Some(preview) = find_preview(rows, id) {
            out.insert(id, preview);
        }
        proof {
            taking_one_more(post_ids@, i as int);
        }
        i += 1;
    }
    assert(post_ids@.take(post_ids@.len() as int) =~= post_ids@);
    out
}

/// The field with an emoji, how many reacted with it, and whether the viewer did.
pub open spec fn reaction_field(
    rows: Seq<ReactionRow>,
    id: i64,
    viewer: Option<Seq<char>>,
    emoji: Seq<char>,
) -> (Seq<char>, Json) {
    let who = reactors_of(rows, id, emoji);
    (
        emoji,
        obj().with("count"@, Json::Int(who.len() as int)).with(
            "reactedByMe"@,
            Json::Bool(viewer matches Some(v) && who.contains(v)),
        ).json(),
    )
}

/// The reactions to a comment: how many there are of each emoji, and whether
/// one is the viewer's. Who else reacted is not told.
pub open spec fn comment_reactions_json(
    rows: Seq<ReactionRow>,
    id: i64,
    viewer: Option<Seq<char>>,
) -> Json {
    Json::Object(emojis_of(rows, id).map_values(|e: Seq<char>| reaction_field(rows, id, viewer, e)))
}

fn count_reactors(rows: &Vec<ReactionRow>, id: i64, emoji: &str, viewer: &Option<String>) -> (res: JsonValue)
    requires
        rows@.len() <= i64::MAX,
    ensures
        (emoji@, res@) == reaction_field(rows@, id, opt_text(*viewer), emoji@),
{
    let mut count: i64 = 0;
    let mut mine = false;
    let mut i: usize = 0;
    while i < rows.len()
        invariant
            i <= rows@.len() <= i64::MAX,
            0 <= count <= i,
            count == reactors_of(rows@.take(i as int), id, emoji@).len(),
            mine == (opt_text(*viewer) matches Some(v) && reactors_of(
                rows@.take(i as int),
                id,
                emoji@,
            ).contains(v)),
        decreases rows@.len() - i,
    {
        let ghost before = reactors_of(rows@.take(i as int), id, emoji@);
        assert(rows@.take(i + 1).drop_last() =~= rows@.take(i as int));
        if rows[i].message_id == id && same(rows[i].emoji.as_str(), emoji) {
            let ghost u = rows@[i as int].username@;
            count += 1;
            if let Some(v) = viewer {
                if same(v.as_str(), rows[i].username.as_str()) {
                    assert(before.push(u).last() == u);
                    mine = true;
                }
                proof {
                    if before.contains(v@) {
                        let k = choose|k: int| 0 <= k < before.len() && before[k] == v@;
                        assert(before.push(u)[k] == v@);
                    }
                    if before.push(u).contains(v@) && u != v@ {
                        let k = choose|k: int| 0 <= k < before.push(u).len() && before.push(u)[k] == v@;
                        assert(before[k] == v@);
                    }
                }
            }
        }
        i += 1;
    }
    assert(rows@.take(rows@.len() as int) =~= rows@);
    Fields::new().put_int("count", count).put_bool("reactedByMe", mine).done()
}

/// The reactions to a comment, from the rows that list them, for a viewer or for
/// nobody in particular.
pub fn comment_reactions_to(rows: &Vec<ReactionRow>, id: i64, viewer: &Option<String>) -> (res: JsonValue)
    requires
        rows@.len() <= i64::MAX,
    ensures
        res@ == comment_reactions_json(rows@, id, opt_text(*viewer)),
{
    let list = emojis(rows, id);
    let mut fields = Fields::new();
    let mut i: usize = 0;
    let ghost names = emojis_of(rows@, id);
    let ghost v = opt_text(*viewer);
    while i < list.len()
        invariant
            i <= list@.len(),
            rows@.len() <= i64::MAX,
            names == emojis_of(rows@, id),
            v == opt_text(*viewer),
            texts(list@) == names,
            fields@ == names.take(i as int).map_values(|e: Seq<char>| reaction_field(rows@, id, v, e)),
        decreases list@.len() - i,
    {
        let ghost before = fields@;
        let summary = count_reactors(rows, id, list[i].as_str(), viewer);
        fields = fields.put(list[i].as_str(), summary);
        proof {
            assert(texts(list@)[i as int] == list@[i as int]@);
            assert(names.take(i + 1).map_values(|e: Seq<char>| reaction_field(rows@, id, v, e))
                =~= before.push(reaction_field(rows@, id, v, names[i as int])));
        }
        i += 1;
    }
    assert(names.take(names.len() as int) =~= names);
    fields.done()
}

/// The reactions to each of some comments, by the number of the comment. A comment
/// without any has no entry.
pub fn load_comment_reactions_map(
    rows: &Vec<ReactionRow>,
    comment_ids: &Vec<i64>,
    viewer: &Option<String>,
) -> (res: HashMap<i64, JsonValue>)
    requires
        rows@.len() <= i64::MAX,
    ensures
        forall|id: i64| #[trigger]
            res@.contains_key(id) <==> comment_ids@.contains(id) && emojis_of(rows@, id).len() > 0,
        forall|id: i64| #[trigger]
            res@.contains_key(id) ==> res@[id]@ == comment_reactions_json(rows@, id, opt_text(*viewer)),
{
    broadcast use vstd::std_specs::hash::group_hash_axioms;

    let mut out: HashMap<i64, JsonValue> = HashMap::new();
    let mut i: usize = 0;
    while i < comment_ids.len()
        invariant
            i <= comment_ids@.len(),
            rows@.len() <= i64::MAX,
            forall|id: i64| #[trigger]
                out@.contains_key(id) <==> comment_ids@.take(i as int).contains(id) && emojis_of(
                    rows@,
                    id,
                ).len() > 0,
            forall|id: i64| #[trigger]
                out@.contains_key(id) ==> out@[id]@ == comment_reactions_json(
                    rows@,
                    id,
                    opt_text(*viewer),
                ),
        decreases comment_ids@.len() - i,
    {
        let id: i64 = comment_ids[i];
        let listed = emojis(rows, id);
        assert(texts(listed@).len() == listed@.len());
        if listed.len() > 0 {
            out.insert(id, comment_reactions_to(rows, id, viewer));
        }
        proof {
            taking_one_more(comment_ids@, i as int);
        }
        i += 1;
    }
    assert(comment_ids@.take(comment_ids@.len() as int) =~= comment_ids@);
    out
}

/// Whether two lists of reactions look the same to a viewer: the same emojis on
/// the same comments, and the viewer's own among them in the same places.
pub open spec fn alike(a: Seq<ReactionRow>, b: Seq<ReactionRow>, viewer: Option<Seq<char>>) -> bool {
    &&& a.len() == b.len()
    &&& forall|i: int|
        0 <= i < a.len() ==> #[trigger] a[i].message_id == b[i].message_id && a[i].emoji@ == b[i].emoji@
    &&& viewer matches Some(v) ==> forall|i: int|
        0 <= i < a.len() ==> (#[trigger] a[i].username@ == v <==> b[i].username@ == v)
}

/// What a viewer, or everyone, is told about the reactions to a comment does not
/// depend on who else reacted.
pub proof fn comment_reactions_are_anonymous(
    a: Seq<ReactionRow>,
    b: Seq<ReactionRow>,
    id: i64,
    viewer: Option<Seq<char>>,
)
    requires
        alike(a, b, viewer),
    ensures
        comment_reactions_json(a, id, viewer) == comment_reactions_json(b, id, viewer),
{
    same_emojis(a, b, id);
    assert forall|e: Seq<char>| reaction_field(a, id, viewer, e) == reaction_field(b, id, viewer, e) by {
        same_number(a, b, id, e);
        if let Some(v) = viewer {
            same_own(a, b, id, e, v);
        }
    }
    let x = emojis_of(a, id).map_values(|e: Seq<char>| reaction_field(a, id, viewer, e));
    let y = emojis_of(b, id).map_values(|e: Seq<char>| reaction_field(b, id, viewer, e));
    assert forall|k: int| 0 <= k < x.len() implies x[k] == y[k] by {
        let e = emojis_of(a, id)[k];
        assert(reaction_field(a, id, viewer, e) == reaction_field(b, id, viewer, e));
    }
    assert(x =~= y);
}

proof fn contained_after_push(s: Seq<Seq<char>>, u: Seq<char>, v: Seq<char>)
    ensures
        s.push(u).contains(v) <==> s.contains(v) || u == v,
{
    if s.contains(v) {
        let k = choose|k: int| 0 <= k < s.len() && s[k] == v;
        assert(s.push(u)[k] == v);
    }
    if u == v {
        assert(s.push(u)[s.len() as int] == v);
    }
    if s.push(u).contains(v) && u != v {
        let k = choose|k: int| 0 <= k < s.push(u).len() && s.push(u)[k] == v;
        assert(s[k] == v);
    }
}

proof fn same_own(a: Seq<ReactionRow>, b: Seq<ReactionRow>, id: i64, e: Seq<char>, v: Seq<char>)
    requires
        alike(a, b, Some(v)),
    ensures
        reactors_of(a, id, e).contains(v) <==> reactors_of(b, id, e).contains(v),
    decreases a.len(),
{
    if a.len() > 0 {
        let n = a.len() - 1;
        let x = a.drop_last();
        let y = b.drop_last();
        assert(a[n].message_id == b[n].message_id);
        assert(a[n].username@ == v <==> b[n].username@ == v);
        assert forall|i: int| 0 <= i < x.len() implies #[trigger] x[i].message_id == y[i].message_id
            && x[i].emoji@ == y[i].emoji@ by {
            assert(a[i].message_id == b[i].message_id);
        }
        assert forall|i: int| 0 <= i < x.len() implies (#[trigger] x[i].username@ == v <==> y[i].username@
            == v) by {
            assert(a[i].username@ == v <==> b[i].username@ == v);
        }
        same_own(x, y, id, e, v);
        contained_after_push(reactors_of(x, id, e), a[n].username@, v);
        contained_after_push(reactors_of(y, id, e), b[n].username@, v);
    }
}

proof fn same_emojis(a: Seq<ReactionRow>, b: Seq<ReactionRow>, id: i64)
    requires
        a.len() == b.len(),
        forall|i: int|
            0 <= i < a.len() ==> #[trigger] a[i].message_id == b[i].message_id && a[i].emoji@
                == b[i].emoji@,
    ensures
        emojis_of(a, id) == emojis_of(b, id),
    decreases a.len(),
{
    if a.len() > 0 {
        assert(a[a.len() - 1].message_id == b[a.len() - 1].message_id);
        assert forall|i: int| 0 <= i < a.drop_last().len() implies #[trigger] a.drop_last()[i].message_id
            == b.drop_last()[i].message_id && a.drop_last()[i].emoji@ == b.drop_last()[i].emoji@ by {
            assert(a[i].message_id == b[i].message_id);
        }
        same_emojis(a.drop_last(), b.drop_last(), id);
    }
}

proof fn same_number(a: Seq<ReactionRow>, b: Seq<ReactionRow>, id: i64, e: Seq<char>)
    requires
        a.len() == b.len(),
        forall|i: int|
            0 <= i < a.len() ==> #[trigger] a[i].message_id == b[i].message_id && a[i].emoji@
                == b[i].emoji@,
    ensures
        reactors_of(a, id, e).len() == reactors_of(b, id, e).len(),
    decreases a.len(),
{
    if a.len() > 0 {
        assert(a[a.len() - 1].message_id == b[a.len() - 1].message_id);
        assert forall|i: int| 0 <= i < a.drop_last().len() implies #[trigger] a.drop_last()[i].message_id
            == b.drop_last()[i].message_id && a.drop_last()[i].emoji@ == b.drop_last()[i].emoji@ by {
            assert(a[i].message_id == b[i].message_id);
        }
        same_number(a.drop_last(), b.drop_last(), id, e);
    }
}

/// A comment in the list of a post's comments.
pub open spec fn comment_json(
    c: Message,
    post_id: i64,
    reactions: Seq<ReactionRow>,
    viewer: Seq<char>,
) -> Json {
    obj().with("id"@, Json::Int(c.id as int)).with("post_id"@, Json::Int(post_id as int)).with(
        "sender"@,
        Json::Text(c.sender_username@),
    ).with("content"@, Json::Text(c.content@)).with("reply_to_id"@, int_or_null(c.reply_to_id)).with(
        "reply_to_sender"@,
        text_or_null(opt_text(c.reply_to_sender)),
    ).with("reply_to_content"@, text_or_null(opt_text(c.reply_to_content))).with(
        "timestamp"@,
        Json::Text(c.timestamp@),
    ).with("timestamp_ms"@, Json::Int(c.timestamp_ms as int)).with(
        "reactions"@,
        comment_reactions_json(reactions, c.id, Some(viewer)),
    ).json()
}

fn comment_value(c: &Message, post_id: i64, reactions: &Vec<ReactionRow>, viewer: &Option<String>) -> (res:
    JsonValue)
    requires
        reactions@.len() <= i64::MAX,
        *viewer is Some,
    ensures
        res@ == comment_json(*c, post_id, reactions@, viewer->0@),
{
    Fields::new().put_int("id", c.id).put_int("post_id", post_id).put_text(
        "sender",
        c.sender_username.as_str(),
    ).put_text("content", c.content.as_str()).put("reply_to_id", int_or_none(c.reply_to_id)).put(
        "reply_to_sender",
        text_or_none(&c.reply_to_sender),
    ).put("reply_to_content", text_or_none(&c.reply_to_content)).put_text(
        "timestamp",
        c.timestamp.as_str(),
    ).put_int("timestamp_ms", c.timestamp_ms).put(
        "reactions",
        comment_reactions_to(reactions, c.id, viewer),
    ).done()
}

/// The list of a post's comments.
pub open spec fn comments_json(
    rows: Seq<Message>,
    post_id: i64,
    reactions: Seq<ReactionRow>,
    viewer: Seq<char>,
) -> Json {
    Json::Array(rows.map_values(|c: Message| comment_json(c, post_id, reactions, viewer)))
}

/// What asking for the comments on a post leads to.
pub open spec fn comments_listed(
    username: Seq<char>,
    post_id: i64,
    memberships: Lookup<i64>,
    posts: Lookup<i64>,
    rows: Result<Seq<Message>, Refusal>,
    reactions: Seq<ReactionRow>,
) -> Result<Effect, Refusal> {
    match members_only(memberships, "Not a member of this group"@) {
        Err(e) => Err(e),
        Ok(_) => match counted(posts) {
            Err(e) => Err(e),
            Ok(false) => Err(Refusal::NotFound("Post not found"@)),
            Ok(true) => match rows {
                Err(e) => Err(e),
                Ok(r) => Ok(replying(comments_json(r, post_id, reactions, username))),
            },
        },
    }
}

/// List the comments on a post, for a member.
pub fn list_comments(
    username: &str,
    post_id: i64,
    memberships: &Lookup<i64>,
    posts: &Lookup<i64>,
    rows: &Result<Vec<Message>, String>,
    reactions: &Vec<ReactionRow>,
) -> (res: Result<Outcome, AppError>)
    requires
        reactions@.len() <= i64::MAX,
    ensures
        told(res) == comments_listed(
            username@,
            post_id,
            *memberships,
            *posts,
            rows_found(*rows),
            reactions@,
        ),
{
    require_member(memberships, "Not a member of this group")?;
    if !any_counted(posts)? {
        return Err(not_found("Post not found"));
    }
    let list = match rows {
        Err(e) => return Err(AppError::Internal(e.clone())),
        Ok(r) => r,
    };
    let viewer = Some(username.to_owned());
    let mut out: Vec<JsonValue> = Vec::new();
    let mut i: usize = 0;
    while i < list.len()
        invariant
            i <= list@.len(),
            reactions@.len() <= i64::MAX,
            viewer is Some && viewer->0@ == username@,
            jsons(out@) == list@.take(i as int).map_values(
                |c: Message| comment_json(c, post_id, reactions@, username@),
            ),
        decreases list@.len() - i,
    {
        let ghost before = out@;
        out.push(comment_value(&list[i], post_id, reactions, &viewer));
        proof {
            let j = comment_json(list@[i as int], post_id, reactions@, username@);
            assert(jsons(out@) =~= jsons(before).push(j));
            assert(list@.take(i + 1).map_values(
                |c: Message| comment_json(c, post_id, reactions@, username@),
            ) =~= jsons(before).push(j));
        }
        i += 1;
    }
    assert(list@.take(list@.len() as int) =~= list@);
    Ok(Outcome::replying(array(out)))
}

/// What the database holds about a reaction to a comment.
pub struct CommentReactionFacts {
    /// How many members have the user's name.
    pub memberships: Lookup<i64>,
    /// The post that the comment is on.
    pub post: Lookup<i64>,
    /// How often the user reacted with the same emoji.
    pub same: Lookup<i64>,
    /// How many different emojis the user reacted with.
    pub different: Lookup<i64>,
}

/// The questions behind the [`CommentReactionFacts`].
pub struct CommentReactionQueries {
    pub memberships: Query,
    pub post: Query,
    pub same: Query,
    pub different: Query,
}

/// What to ask about a reaction to a comment: the emoji is asked for without
/// white space at its ends.
pub fn comment_reaction_queries(username: &str, comment_id: i64, req: &AddCommentReactionRequest) -> (res:
    CommentReactionQueries)
    ensures
        res.memberships matches Query::Memberships { username: u } && u@ == username@,
        res.post == (Query::PostOf { comment_id }),
        res.same matches Query::SameReactions { comment_id: c, username: u, emoji: e } && c == comment_id && u@
            == username@ && e@ == trimmed(req.emoji@),
        res.different matches Query::DifferentReactions { comment_id: c, username: u } && c == comment_id && u@
            == username@,
{
    CommentReactionQueries {
        memberships: Query::Memberships { username: username.to_owned() },
        post: Query::PostOf { comment_id },
        same: Query::SameReactions {
            comment_id,
            username: username.to_owned(),
            emoji: trim(req.emoji.as_str()),
        },
        different: Query::DifferentReactions { comment_id, username: username.to_owned() },
    }
}

/// The post that a comment is on.
pub open spec fn post_of(post: Lookup<i64>) -> Result<i64, Refusal> {
    match post {
        Lookup::Found(p) => Ok(p),
        _ => Err(Refusal::NotFound("Comment not found"@)),
    }
}

fn find_post(post: &Lookup<i64>) -> (res: Result<i64, AppError>)
    ensures
        crate::error::shown(res) == post_of(*post),
{
    match post {
        Lookup::Found(p) => Ok(*p),
        _ => Err(not_found("Comment not found")),
    }
}

/// The post and the change that a reaction to a comment leads to.
pub open spec fn comment_reacted(
    username: Seq<char>,
    comment_id: i64,
    emoji: Seq<char>,
    facts: CommentReactionFacts,
) -> Result<(i64, Change), Refusal> {
    if !emoji_like(trimmed(emoji)) {
        Err(Refusal::BadRequest("Invalid emoji"@))
    } else {
        match members_only(facts.memberships, "Not a member"@) {
            Err(e) => Err(e),
            Ok(_) => match post_of(facts.post) {
                Err(e) => Err(e),
                Ok(p) => match room_for_emoji(
                    facts.same,
                    facts.different,
                    "You can react with at most 2 different emojis per comment"@,
                ) {
                    Err(e) => Err(e),
                    Ok(_) => Ok(
                        (p, Change::AddCommentReaction { comment_id, username, emoji: trimmed(emoji) }),
                    ),
                },
            },
        }
    }
}

/// The model of a result with a post and a write.
pub open spec fn post_and_write(r: Result<(i64, Write), AppError>) -> Result<(i64, Change), Refusal> {
    match r {
        Ok(v) => Ok((v.0, v.1@)),
        Err(e) => Err(e@),
    }
}

/// React to a comment, with at most two different emojis.
pub fn add_comment_reaction(
    username: &str,
    comment_id: i64,
    req: &AddCommentReactionRequest,
    facts: &CommentReactionFacts,
) -> (res: Result<(i64, Write), AppError>)
    ensures
        post_and_write(res) == comment_reacted(username@, comment_id, req.emoji@, *facts),
{
    let emoji = trim(req.emoji.as_str());
    if !is_valid_emoji(emoji.as_str()) {
        return Err(bad_request("Invalid emoji"));
    }
    require_member(&facts.memberships, "Not a member")?;
    let post_id: i64 = find_post(&facts.post)?;
    require_room(
        &facts.same,
        &facts.different,
        "You can react with at most 2 different emojis per comment",
    )?;
    Ok((post_id, Write::AddCommentReaction { comment_id, username: username.to_owned(), emoji }))
}

/// The post and the change that taking a reaction to a comment back leads to.
pub open spec fn comment_unreacted(
    username: Seq<char>,
    comment_id: i64,
    emoji: Seq<char>,
    memberships: Lookup<i64>,
    post: Lookup<i64>,
) -> Result<(i64, Change), Refusal> {
    if !emoji_like(trimmed(emoji)) {
        Err(Refusal::BadRequest("Invalid emoji"@))
    } else {
        match members_only(memberships, "Not a member"@) {
            Err(e) => Err(e),
            Ok(_) => match post_of(post) {
                Err(e) => Err(e),
                Ok(p) => Ok(
                    (p, Change::RemoveCommentReaction { comment_id, username, emoji: trimmed(emoji) }),
                ),
            },
        }
    }
}

/// Take a reaction to a comment back.
pub fn remove_comment_reaction(
    username: &str,
    comment_id: i64,
    emoji_raw: &str,
    memberships: &Lookup<i64>,
    post: &Lookup<i64>,
) -> (res: Result<(i64, Write), AppError>)
    ensures
        post_and_write(res) == comment_unreacted(
            username@,
            comment_id,
            emoji_raw@,
            *memberships,
            *post,
        ),
{
    let emoji = trim(emoji_raw);
    if !is_valid_emoji(emoji.as_str()) {
        return Err(bad_request("Invalid emoji"));
    }
    require_member(memberships, "Not a member")?;
    let post_id: i64 = find_post(post)?;
    Ok((post_id, Write::RemoveCommentReaction { comment_id, username: username.to_owned(), emoji }))
}

/// What everyone is told about a changed reaction to a comment.
pub open spec fn comment_reaction_packet(
    post_id: i64,
    comment_id: i64,
    rows: Seq<ReactionRow>,
    emoji: Seq<char>,
    added: bool,
) -> Json {
    obj().with("type"@, Json::Text("comment_reaction_update"@)).with("group_id"@, Json::Int(1)).with(
        "post_id"@,
        Json::Int(post_id as int),
    ).with("comment_id"@, Json::Int(comment_id as int)).with(
        "reactions"@,
        comment_reactions_json(rows, comment_id, None),
    ).with("emoji"@, Json::Text(trimmed(emoji))).with(
        "action"@,
        Json::Text(
            if added {
                "add"@
            } else {
                "remove"@
            },
        ),
    ).json()
}

/// What follows once a reaction to a comment was added or taken back. `rows` are
/// the reactions to the comment that there are then.
pub open spec fn comment_reaction_told(
    username: Seq<char>,
    post_id: i64,
    comment_id: i64,
    emoji: Seq<char>,
    added: bool,
    rows: Seq<ReactionRow>,
) -> Effect {
    replying(
        obj().with("ok"@, Json::Bool(true)).with(
            "reactions"@,
            comment_reactions_json(rows, comment_id, Some(username)),
        ).json(),
    ).and_broadcast(comment_reaction_packet(post_id, comment_id, rows, emoji, added))
}

/// What follows once a reaction to a comment was added or taken back. `rows` are
/// the reactions to the comment that there are then.
pub fn comment_reaction_changed(
    username: &str,
    post_id: i64,
    comment_id: i64,
    emoji_raw: &str,
    added: bool,
    rows: &Vec<ReactionRow>,
) -> (res: Outcome)
    requires
        rows@.len() <= i64::MAX,
    ensures
        res@ == comment_reaction_told(username@, post_id, comment_id, emoji_raw@, added, rows@),
{
    let emoji = trim(emoji_raw);
    let packet = Fields::new().put_text("type", "comment_reaction_update").put_int("group_id", GROUP).put_int(
        "post_id",
        post_id,
    ).put_int("comment_id", comment_id).put(
        "reactions",
        comment_reactions_to(rows, comment_id, &None),
    ).put_text("emoji", emoji.as_str()).put_text(
        "action",
        if added {
            "add"
        } else {
            "remove"
        },
    ).done();
    let reply = Fields::new().put_bool("ok", true).put(
        "reactions",
        comment_reactions_to(rows, comment_id, &Some(username.to_owned())),
    ).done();
    Outcome::replying(reply).and_broadcast(packet)
}

/// The emojis that a user reacted to a comment with.
pub open spec fn emojis_by(db: GroupDb, comment_id: i64, username: Seq<char>) -> Set<Seq<char>> {
    Set::new(|e: Seq<char>| db.comment_reactions.contains((comment_id, username, e)))
}

/// A user who has reacted to a comment with at most two different emojis has
/// done so after reacting once more.
pub proof fn at_most_two_emojis(
    username: Seq<char>,
    comment_id: i64,
    emoji: Seq<char>,
    facts: CommentReactionFacts,
    db: GroupDb,
)
    requires
        emojis_by(db, comment_id, username).finite(),
        emojis_by(db, comment_id, username).len() <= 2,
        facts.same matches Lookup::Found(n) && (n > 0 <==> emojis_by(db, comment_id, username).contains(
            trimmed(emoji),
        )),
        facts.different matches Lookup::Found(n) && n == emojis_by(db, comment_id, username).len(),
        comment_reacted(username, comment_id, emoji, facts) is Ok,
    ensures
        ({
            let after = applied(db, comment_reacted(username, comment_id, emoji, facts)->Ok_0.1, 0);
            &&& emojis_by(after, comment_id, username) == emojis_by(db, comment_id, username).insert(
                trimmed(emoji),
            )
            &&& emojis_by(after, comment_id, username).len() <= 2
        }),
{
    let after = applied(db, comment_reacted(username, comment_id, emoji, facts)->Ok_0.1, 0);
    assert(emojis_by(after, comment_id, username) =~= emojis_by(db, comment_id, username).insert(
        trimmed(emoji),
    ));
}

/// What the database holds about a comment to make.
pub struct CommentFacts {
    /// How many members have the user's name.
    pub memberships: Lookup<i64>,
    /// When the user's mute ends.
    pub mute: Lookup<i64>,
    /// Whether the group is a channel.
    pub channel: Lookup<bool>,
    /// How many posts have the number.
    pub posts: Lookup<i64>,
    /// The sender and the content of the comment that is replied to.
    pub quoted: Lookup<(String, String)>,
}

/// The questions behind the [`CommentFacts`].
pub struct CommentQueries {
    pub memberships: Query,
    pub mute: Query,
    pub channel: Query,
    pub posts: Query,
    /// Asked only of a reply.
    pub quoted: Option<Query>,
}

/// What to ask about a comment to make. A reply quotes a comment on the same post.
pub fn comment_queries(username: &str, post_id: i64, req: &SendCommentRequest) -> (res: CommentQueries)
    ensures
        res.memberships matches Query::Memberships { username: u } && u@ == username@,
        res.mute matches Query::MuteOf { username: u } && u@ == username@,
        res.channel == Query::IsChannel,
        res.posts == (Query::Messages { message_id: post_id }),
        res.quoted == match req.reply_to_id {
            Some(comment_id) => Some(Query::QuotedComment { comment_id, post_id }),
            None => None,
        },
{
    CommentQueries {
        memberships: Query::Memberships { username: username.to_owned() },
        mute: Query::MuteOf { username: username.to_owned() },
        channel: Query::IsChannel,
        posts: Query::Messages { message_id: post_id },
        quoted: match req.reply_to_id {
            Some(comment_id) => Some(Query::QuotedComment { comment_id, post_id }),
            None => None,
        },
    }
}

/// Whether a comment's text and the pace of its sender are fine.
pub open spec fn comment_text(allowed: bool, limits: SendLimits, content: Seq<char>) -> Result<
    Seq<char>,
    Refusal,
> {
    let t = trimmed(content);
    if !allowed {
        Err(
            Refusal::BadRequest(
                "Rate limit exceeded: max "@ + decimal(limits.max_messages_per_minute as nat)
                    + " messages per minute"@,
            ),
        )
    } else if t.len() == 0 {
        Err(Refusal::BadRequest("Comment content required"@))
    } else if byte_count(t) > limits.max_message_length {
        Err(
            Refusal::BadRequest(
                "Comment too long (max "@ + decimal(limits.max_message_length as nat) + " chars)"@,
            ),
        )
    } else {
        Ok(t)
    }
}

/// Whether the group is known to be a channel.
pub open spec fn is_a_channel(channel: Lookup<bool>) -> bool {
    channel == Lookup::Found(true)
}

/// The comment that a request leads to.
pub open spec fn comment_of(
    allowed: bool,
    limits: SendLimits,
    username: Seq<char>,
    post_id: i64,
    req: SendCommentRequest,
    facts: CommentFacts,
    now: i64,
    timestamp: Seq<char>,
    timestamp_ms: i64,
) -> Result<PostRow, Refusal> {
    match comment_text(allowed, limits, req.content@) {
        Err(e) => Err(e),
        Ok(content) => match members_only(facts.memberships, "Not a member of this group"@) {
            Err(e) => Err(e),
            Ok(_) => match mute_in_force(facts.mute, now) {
                Some(end) => Err(
                    Refusal::Forbidden("You are muted until "@ + signed_decimal(end as int)),
                ),
                None => if !is_a_channel(facts.channel) {
                    Err(Refusal::Forbidden("Comments are only available on channel posts"@))
                } else {
                    match counted(facts.posts) {
                        Err(e) => Err(e),
                        Ok(false) => Err(Refusal::NotFound("Post not found"@)),
                        Ok(true) => replying_to(
                            PostRow {
                                post_id: Some(post_id),
                                sender: username,
                                content,
                                reply_to_id: None,
                                reply_to_sender: None,
                                reply_to_content: None,
                                timestamp,
                                timestamp_ms,
                            },
                            req.reply_to_id,
                            None,
                            None,
                            facts.quoted,
                        ),
                    }
                },
            },
        },
    }
}

/// Whether a request to comment finds a mute that is over, whose row then goes,
/// whatever becomes of the comment.
pub open spec fn clears_mute(
    allowed: bool,
    limits: SendLimits,
    req: SendCommentRequest,
    facts: CommentFacts,
    now: i64,
) -> bool {
    &&& comment_text(allowed, limits, req.content@) is Ok
    &&& members_only(facts.memberships, "Not a member of this group"@) is Ok
    &&& mute_is_over(facts.mute, now)
}

/// What a request to comment leads to: whether the user's mute is over and can
/// be deleted, and the comment to store.
pub struct CommentDecision {
    pub clear_mute: bool,
    pub comment: Result<Draft, AppError>,
}

fn refused(e: AppError) -> (res: CommentDecision)
    ensures
        !res.clear_mute,
        drafted(res.comment) == Err::<PostRow, Refusal>(e@),
{
    CommentDecision { clear_mute: false, comment: Err(e) }
}

/// The comment that a request asks to store, where the limiter has been asked.
/// `now` and `timestamp_ms` are in milliseconds.
pub fn create_comment_inner(
    is_allowed: bool,
    limits: &SendLimits,
    username: &str,
    post_id: i64,
    req: &SendCommentRequest,
    facts: &CommentFacts,
    now: i64,
    timestamp: &str,
    timestamp_ms: i64,
) -> (res: CommentDecision)
    ensures
        drafted(res.comment) == comment_of(
            is_allowed,
            *limits,
            username@,
            post_id,
            *req,
            *facts,
            now,
            timestamp@,
            timestamp_ms,
        ),
        res.clear_mute == clears_mute(is_allowed, *limits, *req, *facts, now),
{
    if !is_allowed {
        let max = show_u64(limits.max_messages_per_minute as u64);
        return refused(
            AppError::BadRequest(glue3("Rate limit exceeded: max ", max.as_str(), " messages per minute")),
        );
    }
    let content = trim(req.content.as_str());
    if content.as_str().unicode_len() == 0 {
        return refused(bad_request("Comment content required"));
    }
    if byte_len(content.as_str()) as u64 > limits.max_message_length {
        let max = show_u64(limits.max_message_length);
        return refused(AppError::BadRequest(glue3("Comment too long (max ", max.as_str(), " chars)")));
    }
    match require_member(&facts.memberships, "Not a member of this group") {
        Err(e) => return refused(e),
        Ok(_) => {},
    }
    let (muted_until, clear_mute) = active_mute_expiry(&facts.mute, now);
    if let Some(end) = muted_until {
        let shown_end = show_i64(end);
        return refused(AppError::Forbidden(glue("You are muted until ", shown_end.as_str())));
    }
    let in_channel = match &facts.channel {
        Lookup::Found(c) => *c,
        _ => false,
    };
    if !in_channel {
        return CommentDecision {
            clear_mute,
            comment: Err(forbidden("Comments are only available on channel posts")),
        };
    }
    match any_counted(&facts.posts) {
        Err(e) => return CommentDecision { clear_mute, comment: Err(e) },
        Ok(false) => return CommentDecision { clear_mute, comment: Err(not_found("Post not found")) },
        Ok(true) => {},
    }
    let draft = Draft {
        post_id: Some(post_id),
        sender: username.to_owned(),
        content,
        reply_to_id: None,
        reply_to_sender: None,
        reply_to_content: None,
        timestamp: timestamp.to_owned(),
        timestamp_ms,
    };
    let comment = with_reply(draft, req.reply_to_id, &None, &None, &facts.quoted);
    CommentDecision { clear_mute, comment }
}

/// Comment on a post of a channel, unless the user has sent too much lately or
/// is muted.
pub fn create_comment(
    limiter: &mut RateLimiter,
    limits: &SendLimits,
    username: &str,
    post_id: i64,
    req: &SendCommentRequest,
    facts: &CommentFacts,
    now: i64,
    timestamp: &str,
    timestamp_ms: i64,
) -> (res: CommentDecision)
    ensures
        final(limiter).max() == old(limiter).max(),
        exists|t: u64|
            {
                &&& drafted(res.comment) == comment_of(
                    #[trigger] allowed(stamps_of(old(limiter)@, username@), old(limiter).max(), t),
                    *limits,
                    username@,
                    post_id,
                    *req,
                    *facts,
                    now,
                    timestamp@,
                    timestamp_ms,
                )
                &&& res.clear_mute == clears_mute(
                    allowed(stamps_of(old(limiter)@, username@), old(limiter).max(), t),
                    *limits,
                    *req,
                    *facts,
                    now,
                )
                &&& final(limiter)@ == old(limiter)@.insert(
                    username@,
                    recorded(stamps_of(old(limiter)@, username@), old(limiter).max(), t),
                )
            },
{
    let is_allowed = limiter.check_and_record(username);
    create_comment_inner(
        is_allowed,
        limits,
        username,
        post_id,
        req,
        facts,
        now,
        timestamp,
        timestamp_ms,
    )
}

/// A new comment.
pub open spec fn new_comment_json(p: PostRow, post_id: i64, comment_id: i64) -> Json {
    obj().with("id"@, Json::Int(comment_id as int)).with("post_id"@, Json::Int(post_id as int)).with(
        "sender"@,
        Json::Text(p.sender),
    ).with("content"@, Json::Text(p.content)).with("reply_to_id"@, int_or_null(p.reply_to_id)).with(
        "reply_to_sender"@,
        text_or_null(p.reply_to_sender),
    ).with("reply_to_content"@, text_or_null(p.reply_to_content)).with(
        "timestamp"@,
        Json::Text(p.timestamp),
    ).with("timestamp_ms"@, Json::Int(p.timestamp_ms as int)).json()
}

fn new_comment_value(draft: &Draft, post_id: i64, comment_id: i64) -> (res: JsonValue)
    ensures
        res@ == new_comment_json(draft@, post_id, comment_id),
{
    Fields::new().put_int("id", comment_id).put_int("post_id", post_id).put_text(
        "sender",
        draft.sender.as_str(),
    ).put_text("content", draft.content.as_str()).put("reply_to_id", int_or_none(draft.reply_to_id)).put(
        "reply_to_sender",
        text_or_none(&draft.reply_to_sender),
    ).put("reply_to_content", text_or_none(&draft.reply_to_content)).put_text(
        "timestamp",
        draft.timestamp.as_str(),
    ).put_int("timestamp_ms", draft.timestamp_ms).done()
}

/// What follows once a comment is stored under a number.
pub open spec fn comment_announced(p: PostRow, post_id: i64, comment_id: i64) -> Effect {
    replying(new_comment_json(p, post_id, comment_id)).and_broadcast(
        obj().with("type"@, Json::Text("comment_added"@)).with("group_id"@, Json::Int(1)).with(
            "post_id"@,
            Json::Int(post_id as int),
        ).with("comment"@, new_comment_json(p, post_id, comment_id)).json(),
    )
}

/// What follows once a comment is stored under a number.
pub fn comment_made(draft: &Draft, post_id: i64, comment_id: i64) -> (res: Outcome)
    ensures
        res@ == comment_announced(draft@, post_id, comment_id),
{
    let packet = Fields::new().put_text("type", "comment_added").put_int("group_id", GROUP).put_int(
        "post_id",
        post_id,
    ).put("comment", new_comment_value(draft, post_id, comment_id)).done();
    Outcome::replying(new_comment_value(draft, post_id, comment_id)).and_broadcast(packet)
}

/// A comment is only made by a member who is not muted, on a post that is there,
/// in a channel. It is stored as its sender's, and nothing else changes.
pub proof fn comments_are_for_members(
    limits: SendLimits,
    username: Seq<char>,
    post_id: i64,
    req: SendCommentRequest,
    facts: CommentFacts,
    now: i64,
    timestamp: Seq<char>,
    timestamp_ms: i64,
    db: GroupDb,
    id: i64,
)
    requires
        comment_of(true, limits, username, post_id, req, facts, now, timestamp, timestamp_ms) is Ok,
    ensures
        ({
            let p = comment_of(true, limits, username, post_id, req, facts, now, timestamp, timestamp_ms)->Ok_0;
            let after = applied(db, posting(p), id);
            &&& surely_counted(facts.memberships)
            &&& mute_in_force(facts.mute, now) is None
            &&& is_a_channel(facts.channel)
            &&& surely_counted(facts.posts)
            &&& p.sender == username && p.post_id == Some(post_id)
            &&& p.content == trimmed(req.content@) && p.content.len() > 0
            &&& byte_count(p.content) <= limits.max_message_length
            &&& p.timestamp == timestamp && p.timestamp_ms == timestamp_ms
            &&& after == (GroupDb { comments: db.comments.insert(id, p), ..db })
        }),
{
}

/// What changing a comment leads to.
pub open spec fn comment_changed(
    username: Seq<char>,
    comment_id: i64,
    content: Seq<char>,
    max_message_length: u64,
    memberships: Lookup<i64>,
    post: Lookup<i64>,
) -> Result<Effect, Refusal> {
    let new_content = trimmed(content);
    if new_content.len() == 0 {
        Err(Refusal::BadRequest("Content cannot be empty"@))
    } else if byte_count(new_content) > max_message_length {
        Err(
            Refusal::BadRequest(
                "Comment too long (max "@ + decimal(max_message_length as nat) + " chars)"@,
            ),
        )
    } else {
        match members_only(memberships, "Not a member"@) {
            Err(e) => Err(e),
            Ok(_) => match post_of(post) {
                Err(e) => Err(e),
                Ok(p) => Ok(
                    replying(ok_json()).and_change(
                        Change::EditOwnComment { content: new_content, comment_id, sender: username },
                    ).and_broadcast(
                        obj().with("type"@, Json::Text("comment_edited"@)).with(
                            "group_id"@,
                            Json::Int(1),
                        ).with("post_id"@, Json::Int(p as int)).with(
                            "comment_id"@,
                            Json::Int(comment_id as int),
                        ).with("new_content"@, Json::Text(new_content)).with(
                            "edited_by"@,
                            Json::Text(username),
                        ).json(),
                    ).or_refused(Refusal::NotFound("Comment not found or not yours"@)),
                ),
            },
        }
    }
}

/// Change one's own comment.
pub fn edit_comment(
    username: &str,
    comment_id: i64,
    req: &EditCommentRequest,
    max_message_length: u64,
    memberships: &Lookup<i64>,
    post: &Lookup<i64>,
) -> (res: Result<Outcome, AppError>)
    ensures
        told(res) == comment_changed(
            username@,
            comment_id,
            req.content@,
            max_message_length,
            *memberships,
            *post,
        ),
{
    let content = trim(req.content.as_str());
    if content.as_str().unicode_len() == 0 {
        return Err(bad_request("Content cannot be empty"));
    }
    if byte_len(content.as_str()) as u64 > max_message_length {
        let max = show_u64(max_message_length);
        return Err(AppError::BadRequest(glue3("Comment too long (max ", max.as_str(), " chars)")));
    }
    require_member(memberships, "Not a member")?;
    let post_id: i64 = find_post(post)?;
    let packet = Fields::new().put_text("type", "comment_edited").put_int("group_id", GROUP).put_int(
        "post_id",
        post_id,
    ).put_int("comment_id", comment_id).put_text("new_content", content.as_str()).put_text(
        "edited_by",
        username,
    ).done();
    Ok(
        Outcome::replying(ok_reply()).and_write(
            Write::EditOwnComment { content, comment_id, sender: username.to_owned() },
        ).and_broadcast(packet).or_refused(not_found("Comment not found or not yours")),
    )
}

/// What deleting a comment leads to.
pub open spec fn comment_deleted(
    username: Seq<char>,
    comment_id: i64,
    memberships: Lookup<i64>,
    post: Lookup<i64>,
    bits: Lookup<i64>,
) -> Result<Effect, Refusal> {
    match members_only(memberships, "Not a member"@) {
        Err(e) => Err(e),
        Ok(_) => match post_of(post) {
            Err(e) => Err(e),
            Ok(p) => match permitted(bits, DELETE_MESSAGES) {
                Err(e) => Err(e),
                Ok(any) => Ok(
                    replying(ok_json()).and_change(
                        if any {
                            Change::DeleteComment { comment_id }
                        } else {
                            Change::DeleteOwnComment { comment_id, sender: username }
                        },
                    ).and_broadcast(
                        obj().with("type"@, Json::Text("comment_deleted"@)).with(
                            "group_id"@,
                            Json::Int(1),
                        ).with("post_id"@, Json::Int(p as int)).with(
                            "comment_id"@,
                            Json::Int(comment_id as int),
                        ).json(),
                    ).or_refused(Refusal::NotFound("Comment not found or not yours"@)),
                ),
            },
        },
    }
}

/// Delete one's own comment or, with the permission to delete messages, anyone's.
pub fn delete_comment(
    username: &str,
    comment_id: i64,
    memberships: &Lookup<i64>,
    post: &Lookup<i64>,
    bits: &Lookup<i64>,
) -> (res: Result<Outcome, AppError>)
    ensures
        told(res) == comment_deleted(username@, comment_id, *memberships, *post, *bits),
{
    require_member(memberships, "Not a member")?;
    let post_id: i64 = find_post(post)?;
    let any = has_permission(bits, Permission { bits: DELETE_MESSAGES })?;
    let write = if any {
        Write::DeleteComment { comment_id }
    } else {
        Write::DeleteOwnComment { comment_id, sender: username.to_owned() }
    };
    let packet = Fields::new().put_text("type", "comment_deleted").put_int("group_id", GROUP).put_int(
        "post_id",
        post_id,
    ).put_int("comment_id", comment_id).done();
    Ok(
        Outcome::replying(ok_reply()).and_write(write).and_broadcast(packet).or_refused(
            not_found("Comment not found or not yours"),
        ),
    )
}

/// Nobody changes a comment of someone else, and nobody deletes one without the
/// permission to delete messages.
pub proof fn a_comment_is_its_senders(
    username: Seq<char>,
    comment_id: i64,
    content: Seq<char>,
    max_message_length: u64,
    memberships: Lookup<i64>,
    post: Lookup<i64>,
    bits: Lookup<i64>,
    db: GroupDb,
)
    requires
        db.comments.contains_key(comment_id),
        db.comments[comment_id].sender != username,
    ensures
        comment_changed(username, comment_id, content, max_message_length, memberships, post) matches Ok(
            effect,
        ) ==> effect.changes.len() == 1 && applied(db, effect.changes[0], 0) == db,
        comment_deleted(username, comment_id, memberships, post, bits) matches Ok(effect) ==> {
            &&& effect.changes.len() == 1
            &&& applied(db, effect.changes[0], 0) == (if permitted(bits, DELETE_MESSAGES) == Ok::<
                bool,
                Refusal,
            >(true) {
                without_comment(db, comment_id)
            } else {
                db
            })
        },
{
}

/// A comment that replies to nothing quotes nothing. A reply names the comment
/// that it replies to and quotes that comment's sender and content as they are
/// stored, and nothing where that comment is gone.
pub proof fn a_reply_quotes_the_comment(
    allowed: bool,
    limits: SendLimits,
    username: Seq<char>,
    post_id: i64,
    req: SendCommentRequest,
    facts: CommentFacts,
    now: i64,
    timestamp: Seq<char>,
    timestamp_ms: i64,
)
    requires
        comment_of(allowed, limits, username, post_id, req, facts, now, timestamp, timestamp_ms) is Ok,
    ensures
        ({
            let p = comment_of(allowed, limits, username, post_id, req, facts, now, timestamp, timestamp_ms)->Ok_0;
            &&& req.reply_to_id is None ==> p.reply_to_id is None && p.reply_to_sender is None
                && p.reply_to_content is None
            &&& req.reply_to_id matches Some(r) ==> p.reply_to_id == Some(r) && match facts.quoted {
                Lookup::Found(q) => p.reply_to_sender == Some(q.0@) && p.reply_to_content == Some(q.1@),
                Lookup::Missing => p.reply_to_sender is None && p.reply_to_content is None,
                Lookup::Failed(_) => false,
            }
        }),
{
}

/// A comment is accepted if and only if the limiter allows it, it is neither
/// empty nor too long, and its sender is a member without a mute in force, in a
/// channel, on a post that is there.
pub proof fn who_may_comment(
    allowed: bool,
    limits: SendLimits,
    username: Seq<char>,
    post_id: i64,
    req: SendCommentRequest,
    facts: CommentFacts,
    now: i64,
    timestamp: Seq<char>,
    timestamp_ms: i64,
)
    ensures
        comment_of(allowed, limits, username, post_id, req, facts, now, timestamp, timestamp_ms) is Ok <==> {
            &&& allowed
            &&& 0 < trimmed(req.content@).len()
            &&& byte_count(trimmed(req.content@)) <= limits.max_message_length
            &&& some_found(facts.memberships)
            &&& !(facts.mute matches Lookup::Found(end) && end > now)
            &&& facts.channel == Lookup::Found(true)
            &&& some_found(facts.posts)
            &&& req.reply_to_id is Some ==> facts.quoted !is Failed
        },
        clears_mute(allowed, limits, req, facts, now) <==> {
            &&& allowed
            &&& 0 < trimmed(req.content@).len()
            &&& byte_count(trimmed(req.content@)) <= limits.max_message_length
            &&& some_found(facts.memberships)
            &&& facts.mute matches Lookup::Found(end) && end <= now
        },
{
}

/// A new comment is told as it is stored, under its number and with its post, to
/// whoever made it and to everyone.
pub proof fn a_new_comment_is_told(p: PostRow, post_id: i64, comment_id: i64)
    ensures
        ({
            let effect = comment_announced(p, post_id, comment_id);
            let c = effect.reply;
            &&& effect.changes.len() == 0
            &&& effect.notices.len() == 1
            &&& effect.notices[0] matches Packet::Broadcast(told) && {
                &&& member_of(told, "type"@) == Some(Json::Text("comment_added"@))
                &&& member_of(told, "group_id"@) == Some(Json::Int(1))
                &&& member_of(told, "post_id"@) == Some(Json::Int(post_id as int))
                &&& member_of(told, "comment"@) == Some(c)
            }
            &&& member_of(c, "id"@) == Some(Json::Int(comment_id as int))
            &&& member_of(c, "post_id"@) == Some(Json::Int(post_id as int))
            &&& member_of(c, "sender"@) == Some(Json::Text(p.sender))
            &&& member_of(c, "content"@) == Some(Json::Text(p.content))
            &&& member_of(c, "reply_to_id"@) == Some(
                match p.reply_to_id {
                    Some(id) => Json::Int(id as int),
                    None => Json::Null,
                },
            )
            &&& member_of(c, "reply_to_sender"@) == Some(
                match p.reply_to_sender {
                    Some(s) => Json::Text(s),
                    None => Json::Null,
                },
            )
            &&& member_of(c, "reply_to_content"@) == Some(
                match p.reply_to_content {
                    Some(s) => Json::Text(s),
                    None => Json::Null,
                },
            )
            &&& member_of(c, "timestamp"@) == Some(Json::Text(p.timestamp))
            &&& member_of(c, "timestamp_ms"@) == Some(Json::Int(p.timestamp_ms as int))
        }),
{
    broadcast use lookup_of_push;

    reveal_strlit("type");
    reveal_strlit("group_id");
    reveal_strlit("post_id");
    reveal_strlit("comment");
    reveal_strlit("id");
    reveal_strlit("sender");
    reveal_strlit("content");
    reveal_strlit("reply_to_id");
    reveal_strlit("reply_to_sender");
    reveal_strlit("reply_to_content");
    reveal_strlit("timestamp");
    reveal_strlit("timestamp_ms");
}

/// A member is told every comment on a post that is there, in the order in which
/// they were read, each with the columns of its row and the reactions to it as
/// that member sees them.
pub proof fn every_comment_is_told(
    username: Seq<char>,
    post_id: i64,
    memberships: Lookup<i64>,
    posts: Lookup<i64>,
    rows: Seq<Message>,
    reactions: Seq<ReactionRow>,
    i: int,
)
    requires
        some_found(memberships),
        some_found(posts),
        0 <= i < rows.len(),
    ensures
        comments_listed(username, post_id, memberships, posts, Ok(rows), reactions) is Ok,
        ({
            let effect = comments_listed(username, post_id, memberships, posts, Ok(rows), reactions)->Ok_0;
            let told = effect.reply->Array_0;
            let m = rows[i];
            &&& effect.changes.len() == 0
            &&& effect.notices.len() == 0
            &&& effect.reply is Array
            &&& told.len() == rows.len()
            &&& member_of(told[i], "id"@) == Some(Json::Int(m.id as int))
            &&& member_of(told[i], "post_id"@) == Some(Json::Int(post_id as int))
            &&& member_of(told[i], "sender"@) == Some(Json::Text(m.sender_username@))
            &&& member_of(told[i], "content"@) == Some(Json::Text(m.content@))
            &&& member_of(told[i], "reply_to_id"@) == Some(
                match m.reply_to_id {
                    Some(id) => Json::Int(id as int),
                    None => Json::Null,
                },
            )
            &&& member_of(told[i], "reply_to_sender"@) == Some(
                match m.reply_to_sender {
                    Some(s) => Json::Text(s@),
                    None => Json::Null,
                },
            )
            &&& member_of(told[i], "reply_to_content"@) == Some(
                match m.reply_to_content {
                    Some(s) => Json::Text(s@),
                    None => Json::Null,
                },
            )
            &&& member_of(told[i], "timestamp"@) == Some(Json::Text(m.timestamp@))
            &&& member_of(told[i], "timestamp_ms"@) == Some(Json::Int(m.timestamp_ms as int))
            &&& member_of(told[i], "reactions"@) == Some(
                comment_reactions_json(reactions, m.id, Some(username)),
            )
        }),
{
    broadcast use lookup_of_push;

    reveal_strlit("id");
    reveal_strlit("post_id");
    reveal_strlit("sender");
    reveal_strlit("content");
    reveal_strlit("reply_to_id");
    reveal_strlit("reply_to_sender");
    reveal_strlit("reply_to_content");
    reveal_strlit("timestamp");
    reveal_strlit("timestamp_ms");
    reveal_strlit("reactions");
}

/// The comments on a post are for members, and there are none on a post that is
/// not there.
pub proof fn comments_are_read_by_members(
    username: Seq<char>,
    post_id: i64,
    memberships: Lookup<i64>,
    posts: Lookup<i64>,
    rows: Result<Seq<Message>, Refusal>,
    reactions: Seq<ReactionRow>,
)
    ensures
        comments_listed(username, post_id, memberships, posts, rows, reactions) is Ok <==> some_found(memberships)
            && some_found(posts) && rows is Ok,
        none_found(memberships) ==> comments_listed(username, post_id, memberships, posts, rows, reactions)
            matches Err(Refusal::Forbidden(_)),
        some_found(memberships) && none_found(posts) ==> comments_listed(
            username,
            post_id,
            memberships,
            posts,
            rows,
            reactions,
        ) matches Err(Refusal::NotFound(_)),
{
}

/// The reactions to a comment that are told: under each emoji that someone
/// reacted with, how many did and whether the viewer did, and nothing under any
/// other.
pub proof fn comment_reactions_are_counted(
    rows: Seq<ReactionRow>,
    id: i64,
    viewer: Option<Seq<char>>,
    emoji: Seq<char>,
)
    ensures
        ({
            let made = rows.filter(|r: ReactionRow| r.message_id == id && r.emoji@ == emoji);
            let told = member_of(comment_reactions_json(rows, id, viewer), emoji);
            &&& made.len() == 0 ==> told is None
            &&& made.len() > 0 ==> told is Some
            &&& told matches Some(o) ==> {
                &&& member_of(o, "count"@) == Some(Json::Int(made.len() as int))
                &&& member_of(o, "reactedByMe"@) == Some(
                    Json::Bool(
                        viewer matches Some(v) && exists|i: int|
                            0 <= i < rows.len() && #[trigger] rows[i].message_id == id && rows[i].emoji@ == emoji
                                && rows[i].username@ == v,
                    ),
                )
            }
        }),
{
    broadcast use lookup_of_push;

    reveal_strlit("count");
    reveal_strlit("reactedByMe");
    let all = emojis_of(rows, id);
    let fields = all.map_values(|e: Seq<char>| reaction_field(rows, id, viewer, e));
    let users = reactors_of(rows, id, emoji);
    reactions_are_grouped(rows, id);
    reactors_are_filtered(rows, id, emoji);
    if users.len() > 0 {
        assert(users.contains(users[0]));
        let i = choose|i: int|
            0 <= i < rows.len() && #[trigger] rows[i].message_id == id && rows[i].emoji@ == emoji
                && rows[i].username@ == users[0];
        assert(rows[i].message_id == id);
        assert(all.contains(emoji));
        let k = choose|k: int| 0 <= k < all.len() && all[k] == emoji;
        lookup_of_field(fields, k);
        assert(fields[k] == reaction_field(rows, id, viewer, emoji));
    } else {
        assert forall|j: int| 0 <= j < fields.len() implies (#[trigger] fields[j]).0 != emoji by {
            assert(all.contains(all[j]));
        }
        lookup_of_nothing(fields, emoji);
    }
}

/// A member may react to a comment that is there with a short text that is not
/// plain ASCII, unless they reacted with two others; and may take such a
/// reaction back. Only that one reaction of theirs comes or goes.
pub proof fn who_may_react_to_a_comment(
    username: Seq<char>,
    comment_id: i64,
    emoji: Seq<char>,
    facts: CommentReactionFacts,
    db: GroupDb,
)
    ensures
        ({
            let e = trimmed(emoji);
            let usable = 0 < e.len() && byte_count(e) <= 32 && exists|i: int|
                0 <= i < e.len() && #[trigger] e[i] as u32 > 127;
            let added = comment_reacted(username, comment_id, emoji, facts);
            let gone = comment_unreacted(username, comment_id, emoji, facts.memberships, facts.post);
            &&& added is Ok <==> {
                &&& usable
                &&& some_found(facts.memberships)
                &&& facts.post is Found
                &&& facts.same !is Failed
                &&& {
                    ||| some_found(facts.same)
                    ||| facts.different matches Lookup::Found(n) && n < 2
                    ||| facts.different is Missing
                }
            }
            &&& gone is Ok <==> usable && some_found(facts.memberships) && facts.post is Found
            &&& added matches Ok(r) ==> facts.post == Lookup::Found(r.0) && applied(db, r.1, 0) == (GroupDb {
                comment_reactions: db.comment_reactions.insert((comment_id, username, e)),
                ..db
            })
            &&& gone matches Ok(r) ==> facts.post == Lookup::Found(r.0) && applied(db, r.1, 0) == (GroupDb {
                comment_reactions: db.comment_reactions.remove((comment_id, username, e)),
                ..db
            })
        }),
{
    trimming_is_idempotent(emoji);
}

/// Whoever added or took back a reaction to a comment is told the reactions as
/// they see them; everyone is told which one it was, and the reactions as nobody
/// in particular sees them.
pub proof fn a_changed_comment_reaction_is_told(
    username: Seq<char>,
    post_id: i64,
    comment_id: i64,
    emoji: Seq<char>,
    added: bool,
    rows: Seq<ReactionRow>,
)
    ensures
        ({
            let effect = comment_reaction_told(username, post_id, comment_id, emoji, added, rows);
            &&& effect.changes.len() == 0
            &&& member_of(effect.reply, "ok"@) == Some(Json::Bool(true))
            &&& member_of(effect.reply, "reactions"@) == Some(
                comment_reactions_json(rows, comment_id, Some(username)),
            )
            &&& effect.notices.len() == 1
            &&& effect.notices[0] matches Packet::Broadcast(told) && {
                &&& member_of(told, "type"@) == Some(Json::Text("comment_reaction_update"@))
                &&& member_of(told, "group_id"@) == Some(Json::Int(1))
                &&& member_of(told, "post_id"@) == Some(Json::Int(post_id as int))
                &&& member_of(told, "comment_id"@) == Some(Json::Int(comment_id as int))
                &&& member_of(told, "reactions"@) == Some(comment_reactions_json(rows, comment_id, None))
                &&& member_of(told, "emoji"@) == Some(Json::Text(trimmed(emoji)))
                &&& added ==> member_of(told, "action"@) == Some(Json::Text("add"@))
                &&& !added ==> member_of(told, "action"@) == Some(Json::Text("remove"@))
            }
        }),
{
    broadcast use lookup_of_push;

    reveal_strlit("type");
    reveal_strlit("group_id");
    reveal_strlit("post_id");
    reveal_strlit("comment_id");
    reveal_strlit("reactions");
    reveal_strlit("emoji");
    reveal_strlit("action");
    reveal_strlit("ok");
}

/// A member may change a comment of theirs that is there to some content that is
/// not too long. It keeps all but its content, and everyone is told what it says
/// now and who changed it.
pub proof fn a_changed_comment_is_told(
    username: Seq<char>,
    comment_id: i64,
    content: Seq<char>,
    max_message_length: u64,
    memberships: Lookup<i64>,
    post: Lookup<i64>,
    db: GroupDb,
)
    ensures
        ({
            let res = comment_changed(username, comment_id, content, max_message_length, memberships, post);
            &&& res is Ok <==> 0 < trimmed(content).len() && byte_count(trimmed(content)) <= max_message_length
                && some_found(memberships) && post is Found
            &&& res matches Ok(effect) ==> {
                &&& effect.changes.len() == 1
                &&& db.comments.contains_key(comment_id) && db.comments[comment_id].sender == username
                    ==> applied(db, effect.changes[0], 0) == (GroupDb {
                    comments: db.comments.insert(
                        comment_id,
                        PostRow { content: trimmed(content), ..db.comments[comment_id] },
                    ),
                    ..db
                })
                &&& effect.unless_changed matches Some(Refusal::NotFound(_))
                &&& member_of(effect.reply, "ok"@) == Some(Json::Bool(true))
                &&& effect.notices.len() == 1
                &&& effect.notices[0] matches Packet::Broadcast(told) && {
                    &&& member_of(told, "type"@) == Some(Json::Text("comment_edited"@))
                    &&& member_of(told, "group_id"@) == Some(Json::Int(1))
                    &&& member_of(told, "post_id"@) == Some(Json::Int(post->Found_0 as int))
                    &&& member_of(told, "comment_id"@) == Some(Json::Int(comment_id as int))
                    &&& member_of(told, "new_content"@) == Some(Json::Text(trimmed(content)))
                    &&& member_of(told, "edited_by"@) == Some(Json::Text(username))
                }
            }
        }),
{
    broadcast use lookup_of_push;

    reveal_strlit("type");
    reveal_strlit("group_id");
    reveal_strlit("post_id");
    reveal_strlit("comment_id");
    reveal_strlit("new_content");
    reveal_strlit("edited_by");
    reveal_strlit("ok");
}

/// A member may delete a comment of theirs that is there and, with the permission
/// to delete messages, anyone's. The reactions to it go with it, and everyone is
/// told which comment went.
pub proof fn a_deleted_comment_is_told(
    username: Seq<char>,
    comment_id: i64,
    memberships: Lookup<i64>,
    post: Lookup<i64>,
    bits: Lookup<i64>,
    db: GroupDb,
)
    ensures
        ({
            let res = comment_deleted(username, comment_id, memberships, post, bits);
            &&& res is Ok <==> some_found(memberships) && post is Found && bits !is Failed
            &&& res matches Ok(effect) ==> {
                let after = applied(db, effect.changes[0], 0);
                &&& effect.changes.len() == 1
                &&& (permitted(bits, DELETE_MESSAGES) == Ok::<bool, Refusal>(true) || (db.comments.contains_key(
                    comment_id,
                ) && db.comments[comment_id].sender == username)) ==> {
                    &&& after.comments == db.comments.remove(comment_id)
                    &&& forall|r: (i64, Seq<char>, Seq<char>)| #[trigger]
                        after.comment_reactions.contains(r) <==> db.comment_reactions.contains(r) && r.0
                            != comment_id
                    &&& after == (GroupDb {
                        comments: after.comments,
                        comment_reactions: after.comment_reactions,
                        ..db
                    })
                }
                &&& effect.unless_changed matches Some(Refusal::NotFound(_))
                &&& member_of(effect.reply, "ok"@) == Some(Json::Bool(true))
                &&& effect.notices.len() == 1
                &&& effect.notices[0] matches Packet::Broadcast(told) && {
                    &&& member_of(told, "type"@) == Some(Json::Text("comment_deleted"@))
                    &&& member_of(told, "group_id"@) == Some(Json::Int(1))
                    &&& member_of(told, "post_id"@) == Some(Json::Int(post->Found_0 as int))
                    &&& member_of(told, "comment_id"@) == Some(Json::Int(comment_id as int))
                }
            }
        }),
{
    broadcast use lookup_of_push;

    reveal_strlit("type");
    reveal_strlit("group_id");
    reveal_strlit("post_id");
    reveal_strlit("comment_id");
    reveal_strlit("ok");
}

/// The preview of a post is that of a row with its number, and there is none only
/// where no row has it.
pub proof fn a_preview_is_of_its_post(rows: Seq<PreviewRow>, id: i64)
    ensures
        preview_of(rows, id) is None <==> forall|i: int| 0 <= i < rows.len() ==> #[trigger] rows[i].post_id != id,
        preview_of(rows, id) matches Some(told) ==> exists|i: int|
            {
                &&& 0 <= i < rows.len()
                &&& #[trigger] rows[i].post_id == id
                &&& told.0 == rows[i].preview.count
                &&& told.1 == match rows[i].preview.last_sender {
                    Some(s) => Some(s@),
                    None => None,
                }
                &&& told.2 == match rows[i].preview.last_content {
                    Some(c) => Some(c@),
                    None => None,
                }
                &&& forall|j: int| i < j < rows.len() ==> #[trigger] rows[j].post_id != id
            },
    decreases rows.len(),
{
    if rows.len() > 0 {
        let rest = rows.drop_last();
        a_preview_is_of_its_post(rest, id);
        assert(rows.last() == rows[rows.len() - 1]);
        assert forall|i: int| 0 <= i < rest.len() implies #[trigger] rest[i] == rows[i] by {}
        if rows.last().post_id != id {
            if preview_of(rest, id) is None {
                assert forall|i: int| 0 <= i < rows.len() implies #[trigger] rows[i].post_id != id by {
                    if i < rest.len() {
                        assert(rest[i].post_id != id);
                    }
                }
            } else {
                let told = preview_of(rest, id)->Some_0;
                let i = choose|i: int|
                    {
                        &&& 0 <= i < rest.len()
                        &&& #[trigger] rest[i].post_id == id
                        &&& told.0 == rest[i].preview.count
                        &&& told.1 == match rest[i].preview.last_sender {
                            Some(s) => Some(s@),
                            None => None,
                        }
                        &&& told.2 == match rest[i].preview.last_content {
                            Some(c) => Some(c@),
                            None => None,
                        }
                        &&& forall|j: int| i < j < rest.len() ==> #[trigger] rest[j].post_id != id
                    };
                assert(rows[i].post_id == id);
                assert forall|j: int| i < j < rows.len() implies #[trigger] rows[j].post_id != id by {
                    if j < rest.len() {
                        assert(rest[j].post_id != id);
                    }
                }
            }
        } else {
            assert(rows[rows.len() - 1].post_id == id);
        }
    }
}

/// What is asked about a comment to make is asked about its sender, the group, the
/// post and the comment on that post that it replies to.
pub proof fn commenting_asks_about_user_and_post(
    username: &str,
    post_id: i64,
    req: SendCommentRequest,
    res: CommentQueries,
)
    requires
        call_ensures(comment_queries, (username, post_id, &req), res),
    ensures
        asks(
            res.memberships,
            "SELECT COUNT(*) FROM members WHERE username = ?1"@,
            seq![Param::Text(username@)],
        ),
        asks(
            res.mute,
            "SELECT expires_at FROM mutes WHERE username = ?1"@,
            seq![Param::Text(username@)],
        ),
        asks(
            res.channel,
            "SELECT is_channel FROM group_info WHERE id = 1"@,
            Seq::empty(),
        ),
        asks(
            res.posts,
            "SELECT COUNT(*) FROM messages WHERE id = ?1"@,
            seq![Param::Int(post_id)],
        ),
        res.quoted is Some <==> req.reply_to_id is Some,
        res.quoted matches Some(q) ==> asks(
            q,
            "SELECT sender_username, content FROM comments WHERE id = ?1 AND post_id = ?2"@,
            seq![Param::Int(req.reply_to_id->Some_0), Param::Int(post_id)],
        ),
{
}

/// What is asked about a reaction to a comment is asked about the user, the comment
/// and the emoji without white space around it.
pub proof fn reacting_to_a_comment_asks_about_user_and_emoji(
    username: &str,
    comment_id: i64,
    req: AddCommentReactionRequest,
    res: CommentReactionQueries,
)
    requires
        call_ensures(comment_reaction_queries, (username, comment_id, &req), res),
    ensures
        asks(
            res.memberships,
            "SELECT COUNT(*) FROM members WHERE username = ?1"@,
            seq![Param::Text(username@)],
        ),
        asks(
            res.post,
            "SELECT post_id FROM comments WHERE id = ?1"@,
            seq![Param::Int(comment_id)],
        ),
        asks(
            res.same,
            "SELECT COUNT(*) FROM comment_reactions WHERE comment_id = ?1 AND reactor_username = ?2 AND emoji = ?3"@,
            seq![Param::Int(comment_id), Param::Text(username@), Param::Text(trimmed(req.emoji@))],
        ),
        asks(
            res.different,
            "SELECT COUNT(DISTINCT emoji) FROM comment_reactions WHERE comment_id = ?1 AND reactor_username = ?2"@,
            seq![Param::Int(comment_id), Param::Text(username@)],
        ),
{
}

/// A comment that is refused says why: how many may be sent and how long one may
/// be, or until when its sender is muted.
pub proof fn a_refused_comment_says_why(
    allowed: bool,
    limits: SendLimits,
    username: Seq<char>,
    post_id: i64,
    req: SendCommentRequest,
    facts: CommentFacts,
    now: i64,
    timestamp: Seq<char>,
    timestamp_ms: i64,
    end: i64,
)
    ensures
        ({
            let res = comment_of(allowed, limits, username, post_id, req, facts, now, timestamp, timestamp_ms);
            let content = trimmed(req.content@);
            let fine = allowed && 0 < content.len() && byte_count(content) <= limits.max_message_length;
            let member = fine && some_found(facts.memberships);
            let free = member && !(facts.mute matches Lookup::Found(e) && e > now);
            &&& !allowed ==> res == Err::<PostRow, Refusal>(
                Refusal::BadRequest(
                    "Rate limit exceeded: max "@ + decimal(limits.max_messages_per_minute as nat)
                        + " messages per minute"@,
                ),
            )
            &&& allowed && content.len() == 0 ==> (res matches Err(Refusal::BadRequest(_)))
            &&& allowed && 0 < content.len() && byte_count(content) > limits.max_message_length ==> res == Err::<
                PostRow,
                Refusal,
            >(
                Refusal::BadRequest(
                    "Comment too long (max "@ + decimal(limits.max_message_length as nat) + " chars)"@,
                ),
            )
            &&& fine && none_found(facts.memberships) ==> (res matches Err(Refusal::Forbidden(_)))
            &&& member && facts.mute == Lookup::Found(end) && end > now ==> res == Err::<PostRow, Refusal>(
                Refusal::Forbidden("You are muted until "@ + signed_decimal(end as int)),
            )
            &&& free && facts.channel != Lookup::Found(true) ==> (res matches Err(Refusal::Forbidden(_)))
            &&& free && facts.channel == Lookup::Found(true) && none_found(facts.posts) ==> (res matches Err(
                Refusal::NotFound(_),
            ))
        }),
{
}

/// Of some comments each has an entry with the reactions to it if there are any,
/// and no other comment has one.
pub proof fn comment_reactions_are_listed_by_comment(
    rows: Vec<ReactionRow>,
    comment_ids: Vec<i64>,
    viewer: Option<String>,
    res: HashMap<i64, JsonValue>,
    id: i64,
)
    requires
        call_ensures(load_comment_reactions_map, (&rows, &comment_ids, &viewer), res),
    ensures
        res@.contains_key(id) <==> comment_ids@.contains(id) && exists|i: int|
            0 <= i < rows@.len() && #[trigger] rows@[i].message_id == id,
        res@.contains_key(id) ==> res@[id]@ == comment_reactions_json(
            rows@,
            id,
            match viewer {
                Some(v) => Some(v@),
                None => None,
            },
        ),
{
    reactions_are_grouped(rows@, id);
    let all = emojis_of(rows@, id);
    if all.len() > 0 {
        assert(all.contains(all[0]));
        let users = reactors_of(rows@, id, all[0]);
        assert(users.contains(users[0]));
    }
    if exists|i: int| 0 <= i < rows@.len() && #[trigger] rows@[i].message_id == id {
        let i = choose|i: int| 0 <= i < rows@.len() && #[trigger] rows@[i].message_id == id;
        assert(all.contains(rows@[i].emoji@));
    }
}

/// Of some posts each has an entry with its preview if there is one, and no other
/// post has one.
pub proof fn previews_are_listed_by_post(
    rows: Vec<PreviewRow>,
    post_ids: Vec<i64>,
    res: HashMap<i64, CommentPreview>,
    i: int,
    id: i64,
)
    requires
        call_ensures(load_comment_previews, (&rows, &post_ids), res),
        0 <= i < rows@.len(),
        rows@[i].post_id == id,
        forall|j: int| 0 <= j < rows@.len() && j != i ==> #[trigger] rows@[j].post_id != id,
    ensures
        res@.contains_key(id) <==> post_ids@.contains(id),
        res@.contains_key(id) ==> res@[id].count == rows@[i].preview.count,
        res@.contains_key(id) ==> opt_text(res@[id].last_sender) == opt_text(rows@[i].preview.last_sender),
        res@.contains_key(id) ==> opt_text(res@[id].last_content) == opt_text(rows@[i].preview.last_content),
{
    a_preview_is_of_its_post(rows@, id);
}

/// How the requests about comments are refused: to someone who is no member, for
/// what is not there, and for what may not be.
pub proof fn refusals_about_comments(
    username: Seq<char>,
    comment_id: i64,
    content: Seq<char>,
    max_message_length: u64,
    facts: CommentReactionFacts,
    bits: Lookup<i64>,
)
    ensures
        ({
            let res = comment_reacted(username, comment_id, content, facts);
            let gone = comment_unreacted(username, comment_id, content, facts.memberships, facts.post);
            let usable = emoji_like(trimmed(content));
            let member = usable && some_found(facts.memberships);
            &&& !usable ==> (res matches Err(Refusal::BadRequest(_))) && (gone matches Err(Refusal::BadRequest(_)))
            &&& usable && none_found(facts.memberships) ==> (res matches Err(Refusal::Forbidden(_))) && (
            gone matches Err(Refusal::Forbidden(_)))
            &&& member && facts.post !is Found ==> (res matches Err(Refusal::NotFound(_))) && (gone matches Err(
                Refusal::NotFound(_),
            ))
            &&& member && facts.post is Found && none_found(facts.same) && (facts.different matches Lookup::Found(n)
                && n >= 2) ==> (res matches Err(Refusal::BadRequest(_)))
        }),
        ({
            let res = comment_changed(
                username,
                comment_id,
                content,
                max_message_length,
                facts.memberships,
                facts.post,
            );
            let fine = 0 < trimmed(content).len() && byte_count(trimmed(content)) <= max_message_length;
            &&& !fine ==> (res matches Err(Refusal::BadRequest(_)))
            &&& fine && none_found(facts.memberships) ==> (res matches Err(Refusal::Forbidden(_)))
            &&& fine && some_found(facts.memberships) && facts.post !is Found ==> (res matches Err(
                Refusal::NotFound(_),
            ))
        }),
        ({
            let res = comment_deleted(username, comment_id, facts.memberships, facts.post, bits);
            &&& none_found(facts.memberships) ==> (res matches Err(Refusal::Forbidden(_)))
            &&& some_found(facts.memberships) && facts.post !is Found ==> (res matches Err(Refusal::NotFound(_)))
        }),
{
}

} // verus!
