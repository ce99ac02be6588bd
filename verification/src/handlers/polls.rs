//! Polls and votes in them.

use crate::error::{
    any_counted, bad_request, counted, forbidden, none_found, not_found, some_found, AppError, Lookup, Refusal,
};
use crate::group::{applied, applied_all, GroupDb, OptionRow, PollRow};
use crate::handlers::checks::GROUP;
use crate::json::{
    array, int_or_none, int_or_null, jsons, lookup_of_push, member_of, obj, Fields, Json, JsonValue,
};
use crate::models::permission::{Permission, CREATE_POLLS};
use crate::outcome::{replying, told, Effect, Outcome, Packet};
use crate::permissions::{has_permission, permitted};
use crate::query::{asks, Query};
use crate::store::{changes, Change, Param, Write};
use crate::text::{byte_count, byte_len, texts, trim, trimmed};
use vstd::prelude::*;
use vstd::string::*;

verus! {

/// Members pass, and others are refused as if there were no group.
pub open spec fn members_pass(memberships: Lookup<i64>) -> Result<(), Refusal> {
    match counted(memberships) {
        Err(e) => Err(e),
        Ok(true) => Ok(()),
        Ok(false) => Err(Refusal::NotFound("Not a member of this group"@)),
    }
}

/// Refuse someone who is not a member.
pub fn require_member(memberships: &Lookup<i64>) -> (res: Result<(), AppError>)
    ensures
        crate::error::shown(res) == members_pass(*memberships),
{
    if any_counted(memberships)? {
        Ok(())
    } else {
        Err(not_found("Not a member of this group"))
    }
}

/// A poll without its options.
pub struct PollInfo {
    pub question: String,
    pub multi_choice: bool,
    pub closes_at: Option<i64>,
    pub created_by: String,
}

/// An option of a poll, with how many chose it.
pub struct OptionEntry {
    pub id: i64,
    pub text: String,
    pub votes: i64,
}

/// What the database holds about a poll.
pub struct PollFacts {
    pub poll_id: i64,
    pub poll: Lookup<PollInfo>,
    /// The options in their order.
    pub options: Result<Vec<OptionEntry>, String>,
    /// The options that the user chose who asks.
    pub mine: Result<Vec<i64>, String>,
}

/// The questions behind the [`PollFacts`]: what the votes of each option are is
/// asked of the options that come back.
pub struct PollQueries {
    pub poll: Query,
    pub options: Query,
    pub mine: Query,
}

/// What to ask about a poll for the user who wants to see it.
pub fn poll_queries(poll_id: i64, requester: &str) -> (res: PollQueries)
    ensures
        res.poll == (Query::PollOf { poll_id }),
        res.options == (Query::PollOptions { poll_id }),
        res.mine matches Query::VotesOf { poll_id: p, username: u } && p == poll_id && u@ == requester@,
{
    PollQueries {
        poll: Query::PollOf { poll_id },
        options: Query::PollOptions { poll_id },
        mine: Query::VotesOf { poll_id, username: requester.to_owned() },
    }
}

/// How many votes there are for some options.
pub open spec fn total_votes(options: Seq<OptionEntry>) -> int
    decreases options.len(),
{
    if options.len() == 0 {
        0
    } else {
        total_votes(options.drop_last()) + options.last().votes
    }
}

/// The votes are counts, and their sum can be told.
pub open spec fn countable(facts: PollFacts) -> bool {
    facts.options matches Ok(options) ==> {
        &&& forall|i: int| 0 <= i < options@.len() ==> #[trigger] options@[i].votes >= 0
        &&& total_votes(options@) <= i64::MAX
    }
}

/// An option in the results of a poll.
pub open spec fn option_json(o: OptionEntry, mine: Seq<i64>) -> Json {
    obj().with("id"@, Json::Int(o.id as int)).with("text"@, Json::Text(o.text@)).with(
        "votes"@,
        Json::Int(o.votes as int),
    ).with("selected_by_me"@, Json::Bool(mine.contains(o.id))).json()
}

/// The options in the results of a poll.
pub open spec fn options_json(options: Seq<OptionEntry>, mine: Seq<i64>) -> Json {
    Json::Array(options.map_values(|o: OptionEntry| option_json(o, mine)))
}

/// An option as everyone is told about it: how many chose it, and not who did.
pub open spec fn option_count_json(o: OptionEntry) -> Json {
    obj().with("id"@, Json::Int(o.id as int)).with("text"@, Json::Text(o.text@)).with(
        "votes"@,
        Json::Int(o.votes as int),
    ).json()
}

/// The options of a poll as everyone is told about them.
pub open spec fn counts_json(options: Seq<OptionEntry>) -> Json {
    Json::Array(options.map_values(|o: OptionEntry| option_count_json(o)))
}

/// A poll with its options.
pub open spec fn poll_json(poll_id: i64, poll: PollInfo, total: int, options: Json) -> Json {
    obj().with("id"@, Json::Int(poll_id as int)).with("question"@, Json::Text(poll.question@)).with(
        "multi_choice"@,
        Json::Bool(poll.multi_choice),
    ).with("closes_at"@, int_or_null(poll.closes_at)).with(
        "created_by"@,
        Json::Text(poll.created_by@),
    ).with("total_votes"@, Json::Int(total)).with("options"@, options).json()
}

/// The results of a poll: how many chose each option, and which ones the user
/// chose who asks. Who else chose what is not told.
pub open spec fn results_json(
    poll_id: i64,
    poll: PollInfo,
    options: Seq<OptionEntry>,
    mine: Seq<i64>,
) -> Json {
    poll_json(poll_id, poll, total_votes(options), options_json(options, mine))
}

/// The results of a poll, or why there are none.
pub open spec fn results_of(facts: PollFacts) -> Result<Json, Refusal> {
    match poll_found(facts) {
        Err(e) => Err(e),
        Ok(f) => Ok(results_json(facts.poll_id, f.0, f.1, f.2)),
    }
}

fn chosen(mine: &Vec<i64>, id: i64) -> (res: bool)
    ensures
        res == mine@.contains(id),
{
    let mut i: usize = 0;
    while i < mine.len()
        invariant
            i <= mine@.len(),
            forall|j: int| 0 <= j < i ==> mine@[j] != id,
        decreases mine@.len() - i,
    {
        if mine[i] == id {
            return true;
        }
        i += 1;
    }
    false
}

fn option_value(o: &OptionEntry, mine: &Vec<i64>) -> (res: JsonValue)
    ensures
        res@ == option_json(*o, mine@),
{
    Fields::new().put_int("id", o.id).put_text("text", o.text.as_str()).put_int("votes", o.votes).put_bool(
        "selected_by_me",
        chosen(mine, o.id),
    ).done()
}

proof fn part_of_total(options: Seq<OptionEntry>, n: int)
    requires
        0 <= n <= options.len(),
        forall|i: int| 0 <= i < options.len() ==> #[trigger] options[i].votes >= 0,
    ensures
        0 <= total_votes(options.take(n)) <= total_votes(options),
    decreases options.len(),
{
    if n == options.len() {
        assert(options.take(n) =~= options);
        if n > 0 {
            let rest = options.drop_last();
            assert forall|i: int| 0 <= i < rest.len() implies #[trigger] rest[i].votes >= 0 by {
                assert(options[i].votes >= 0);
            }
            part_of_total(rest, n - 1);
            assert(rest.take(n - 1) =~= rest);
            assert(options[n - 1].votes >= 0);
        }
    } else {
        let rest = options.drop_last();
        assert forall|i: int| 0 <= i < rest.len() implies #[trigger] rest[i].votes >= 0 by {
            assert(options[i].votes >= 0);
        }
        part_of_total(rest, n);
        assert(rest.take(n) =~= options.take(n));
        assert(options[options.len() - 1].votes >= 0);
    }
}

fn tally(options: &Vec<OptionEntry>, mine: &Vec<i64>) -> (res: (i64, JsonValue))
    requires
        forall|i: int| 0 <= i < options@.len() ==> #[trigger] options@[i].votes >= 0,
        total_votes(options@) <= i64::MAX,
    ensures
        res.0 == total_votes(options@),
        res.1@ == options_json(options@, mine@),
{
    let mut total: i64 = 0;
    let mut out: Vec<JsonValue> = Vec::new();
    let mut i: usize = 0;
    while i < options.len()
        invariant
            i <= options@.len(),
            forall|i: int| 0 <= i < options@.len() ==> #[trigger] options@[i].votes >= 0,
            total_votes(options@) <= i64::MAX,
            total == total_votes(options@.take(i as int)),
            jsons(out@) == options@.take(i as int).map_values(|o: OptionEntry| option_json(o, mine@)),
        decreases options@.len() - i,
    {
        let ghost before = out@;
        proof {
            assert(options@.take(i + 1).drop_last() =~= options@.take(i as int));
            part_of_total(options@, i as int);
            part_of_total(options@, i + 1);
        }
        total += options[i].votes;
        out.push(option_value(&options[i], mine));
        proof {
            let j = option_json(options@[i as int], mine@);
            assert(jsons(out@) =~= jsons(before).push(j));
            assert(options@.take(i + 1).map_values(|o: OptionEntry| option_json(o, mine@)) =~= jsons(
                before,
            ).push(j));
        }
        i += 1;
    }
    assert(options@.take(options@.len() as int) =~= options@);
    (total, array(out))
}

fn counts(options: &Vec<OptionEntry>) -> (res: JsonValue)
    ensures
        res@ == counts_json(options@),
{
    let mut out: Vec<JsonValue> = Vec::new();
    let mut i: usize = 0;
    while i < options.len()
        invariant
            i <= options@.len(),
            jsons(out@) == options@.take(i as int).map_values(|o: OptionEntry| option_count_json(o)),
        decreases options@.len() - i,
    {
        let ghost before = out@;
        let o = &options[i];
        out.push(
            Fields::new().put_int("id", o.id).put_text("text", o.text.as_str()).put_int("votes", o.votes).done(),
        );
        proof {
            let j = option_count_json(options@[i as int]);
            assert(jsons(out@) =~= jsons(before).push(j));
            assert(options@.take(i + 1).map_values(|o: OptionEntry| option_count_json(o)) =~= jsons(
                before,
            ).push(j));
        }
        i += 1;
    }
    assert(options@.take(options@.len() as int) =~= options@);
    array(out)
}

fn poll_value(poll_id: i64, poll: &PollInfo, total: i64, options: JsonValue) -> (res: JsonValue)
    ensures
        res@ == poll_json(poll_id, *poll, total as int, options@),
{
    Fields::new().put_int("id", poll_id).put_text("question", poll.question.as_str()).put_bool(
        "multi_choice",
        poll.multi_choice,
    ).put("closes_at", int_or_none(poll.closes_at)).put_text("created_by", poll.created_by.as_str()).put_int(
        "total_votes",
        total,
    ).put("options", options).done()
}

/// The model of a result with a JSON value.
pub open spec fn json_result(r: Result<JsonValue, AppError>) -> Result<Json, Refusal> {
    match r {
        Ok(v) => Ok(v@),
        Err(e) => Err(e@),
    }
}

/// What there is about a poll, or why there is nothing.
pub open spec fn poll_found(facts: PollFacts) -> Result<(PollInfo, Seq<OptionEntry>, Seq<i64>), Refusal> {
    match facts.poll {
        Lookup::Failed(e) => Err(Refusal::Internal(e@)),
        Lookup::Missing => Err(Refusal::NotFound("Poll not found"@)),
        Lookup::Found(poll) => match facts.options {
            Err(e) => Err(Refusal::Internal(e@)),
            Ok(options) => match facts.mine {
                Err(e) => Err(Refusal::Internal(e@)),
                Ok(mine) => Ok((poll, options@, mine@)),
            },
        },
    }
}

fn found_poll(facts: &PollFacts) -> (res: Result<(&PollInfo, &Vec<OptionEntry>, &Vec<i64>), AppError>)
    ensures
        match res {
            Ok(f) => poll_found(*facts) == Ok::<(PollInfo, Seq<OptionEntry>, Seq<i64>), Refusal>(
                (*f.0, f.1@, f.2@),
            ) && facts.options == Ok::<Vec<OptionEntry>, String>(*f.1),
            Err(e) => poll_found(*facts) == Err::<(PollInfo, Seq<OptionEntry>, Seq<i64>), Refusal>(e@),
        },
{
    let poll = match &facts.poll {
        Lookup::Failed(e) => return Err(AppError::Internal(e.clone())),
        Lookup::Missing => return Err(not_found("Poll not found")),
        Lookup::Found(p) => p,
    };
    let options = match &facts.options {
        Err(e) => return Err(AppError::Internal(e.clone())),
        Ok(o) => o,
    };
    let mine = match &facts.mine {
        Err(e) => return Err(AppError::Internal(e.clone())),
        Ok(m) => m,
    };
    Ok((poll, options, mine))
}

/// The results of a poll, for the user who asks.
pub fn poll_results(facts: &PollFacts) -> (res: Result<JsonValue, AppError>)
    requires
        countable(*facts),
    ensures
        json_result(res) == results_of(*facts),
{
    let (poll, options, mine) = found_poll(facts)?;
    let (total, list) = tally(options, mine);
    Ok(poll_value(facts.poll_id, poll, total, list))
}

/// A request for a poll. Without a time to close at, it stays open.
pub struct CreatePollRequest {
    pub question: String,
    pub options: Vec<String>,
    pub multi_choice: bool,
    pub closes_at: Option<i64>,
}

/// The options of a request without white space around them, the empty ones left
/// out.
pub open spec fn kept_options(options: Seq<Seq<char>>) -> Seq<Seq<char>>
    decreases options.len(),
{
    if options.len() == 0 {
        Seq::empty()
    } else {
        let rest = kept_options(options.drop_last());
        let last = trimmed(options.last());
        if last.len() == 0 {
            rest
        } else {
            rest.push(last)
        }
    }
}

fn keep_options(options: &Vec<String>) -> (res: Vec<String>)
    ensures
        texts(res@) == kept_options(texts(options@)),
{
    let ghost all = texts(options@);
    let mut out: Vec<String> = Vec::new();
    let mut i: usize = 0;
    assert(texts(out@) =~= kept_options(all.take(0)));
    while i < options.len()
        invariant
            i <= options@.len(),
            all == texts(options@),
            texts(out@) == kept_options(all.take(i as int)),
        decreases options@.len() - i,
    {
        let o = trim(options[i].as_str());
        proof {
            assert(all.take(i + 1).drop_last() =~= all.take(i as int));
            assert(all.take(i + 1).last() == options@[i as int]@);
        }
        if o.as_str().unicode_len() != 0 {
            let ghost before = texts(out@);
            out.push(o);
            assert(texts(out@) =~= before.push(o@));
        }
        i += 1;
    }
    assert(all.take(all.len() as int) =~= all);
    out
}

/// A poll that is to be made.
pub struct PollDraft {
    pub info: PollInfo,
    pub options: Vec<String>,
}

/// The model of a poll that is to be made.
pub struct PollModel {
    pub question: Seq<char>,
    pub options: Seq<Seq<char>>,
    pub multi_choice: bool,
    pub closes_at: Option<i64>,
    pub created_by: Seq<char>,
}

impl View for PollDraft {
    type V = PollModel;

    open spec fn view(&self) -> PollModel {
        PollModel {
            question: self.info.question@,
            options: texts(self.options@),
            multi_choice: self.info.multi_choice,
            closes_at: self.info.closes_at,
            created_by: self.info.created_by@,
        }
    }
}

/// The model of a result with a poll that is to be made.
pub open spec fn poll_of(r: Result<PollDraft, AppError>) -> Result<PollModel, Refusal> {
    match r {
        Ok(d) => Ok(d@),
        Err(e) => Err(e@),
    }
}

/// Whether polls need a permission: they do in a channel.
pub open spec fn poll_permitted(channel: Lookup<bool>, bits: Lookup<i64>) -> Result<(), Refusal> {
    match channel {
        Lookup::Failed(e) => Err(Refusal::Internal(e@)),
        Lookup::Found(true) => match permitted(bits, CREATE_POLLS) {
            Err(e) => Err(e),
            Ok(true) => Ok(()),
            Ok(false) => Err(Refusal::Forbidden("Only channel admins can create polls here"@)),
        },
        _ => Ok(()),
    }
}

/// The poll that a request asks for: a question of 1 to 300 bytes and 2 to 10
/// options of at most 100 bytes.
pub open spec fn poll_asked(
    username: Seq<char>,
    req: CreatePollRequest,
    memberships: Lookup<i64>,
    channel: Lookup<bool>,
    bits: Lookup<i64>,
) -> Result<PollModel, Refusal> {
    let question = trimmed(req.question@);
    let options = kept_options(texts(req.options@));
    if question.len() == 0 || byte_count(question) > 300 {
        Err(Refusal::BadRequest("question must be 1-300 characters"@))
    } else if options.len() < 2 || options.len() > 10 {
        Err(Refusal::BadRequest("poll needs between 2 and 10 options"@))
    } else if exists|i: int| 0 <= i < options.len() && byte_count(#[trigger] options[i]) > 100 {
        Err(Refusal::BadRequest("option text too long (max 100 characters)"@))
    } else {
        match members_pass(memberships) {
            Err(e) => Err(e),
            Ok(_) => match poll_permitted(channel, bits) {
                Err(e) => Err(e),
                Ok(_) => Ok(
                    PollModel {
                        question,
                        options,
                        multi_choice: req.multi_choice,
                        closes_at: req.closes_at,
                        created_by: username,
                    },
                ),
            },
        }
    }
}

fn any_too_long(options: &Vec<String>) -> (res: bool)
    ensures
        res == exists|i: int|
            0 <= i < texts(options@).len() && byte_count(#[trigger] texts(options@)[i]) > 100,
{
    let mut i: usize = 0;
    while i < options.len()
        invariant
            i <= options@.len(),
            forall|j: int| 0 <= j < i ==> byte_count(#[trigger] texts(options@)[j]) <= 100,
        decreases options@.len() - i,
    {
        if byte_len(options[i].as_str()) > 100 {
            assert(texts(options@)[i as int] == options@[i as int]@);
            return true;
        }
        i += 1;
    }
    false
}

/// Make a poll, for a member and, in a channel, for one who may.
pub fn create_poll(
    username: &str,
    req: &CreatePollRequest,
    memberships: &Lookup<i64>,
    channel: &Lookup<bool>,
    bits: &Lookup<i64>,
) -> (res: Result<PollDraft, AppError>)
    ensures
        poll_of(res) == poll_asked(username@, *req, *memberships, *channel, *bits),
{
    let question = trim(req.question.as_str());
    if question.as_str().unicode_len() == 0 || byte_len(question.as_str()) > 300 {
        return Err(bad_request("question must be 1-300 characters"));
    }
    let options = keep_options(&req.options);
    assert(options@.len() == texts(options@).len());
    if options.len() < 2 || options.len() > 10 {
        return Err(bad_request("poll needs between 2 and 10 options"));
    }
    if any_too_long(&options) {
        return Err(bad_request("option text too long (max 100 characters)"));
    }
    require_member(memberships)?;
    let in_channel = match channel {
        Lookup::Failed(e) => return Err(AppError::Internal(e.clone())),
        Lookup::Missing => false,
        Lookup::Found(c) => *c,
    };
    if in_channel && !has_permission(bits, Permission { bits: CREATE_POLLS })? {
        return Err(forbidden("Only channel admins can create polls here"));
    }
    Ok(
        PollDraft {
            info: PollInfo {
                question,
                multi_choice: req.multi_choice,
                closes_at: req.closes_at,
                created_by: username.to_owned(),
            },
            options,
        },
    )
}

/// The change that makes a poll.
pub open spec fn poll_change(p: PollModel) -> Change {
    Change::InsertPoll {
        question: p.question,
        multi_choice: p.multi_choice,
        closes_at: p.closes_at,
        created_by: p.created_by,
    }
}

/// The changes that make the options of a poll.
pub open spec fn option_changes(poll_id: i64, options: Seq<Seq<char>>) -> Seq<Change> {
    Seq::new(
        options.len(),
        |i: int| Change::InsertPollOption { poll_id, text: options[i], sort_order: i as i64 },
    )
}

impl PollDraft {
    /// The write that makes the poll.
    pub fn write(&self) -> (res: Write)
        ensures
            res@ == poll_change(self@),
    {
        Write::InsertPoll {
            question: self.info.question.clone(),
            multi_choice: self.info.multi_choice,
            closes_at: self.info.closes_at,
            created_by: self.info.created_by.clone(),
        }
    }

    /// The writes that make the options of the poll, once it has a number. They
    /// belong into the same transaction.
    pub fn option_writes(&self, poll_id: i64) -> (res: Vec<Write>)
        requires
            self@.options.len() <= i64::MAX,
        ensures
            changes(res@) == option_changes(poll_id, self@.options),
    {
        let ghost all = texts(self.options@);
        let mut out: Vec<Write> = Vec::new();
        let mut i: usize = 0;
        while i < self.options.len()
            invariant
                i <= self.options@.len(),
                self.options@.len() <= i64::MAX,
                all == texts(self.options@),
                out@.len() == i,
                forall|k: int|
                    0 <= k < i ==> #[trigger] changes(out@)[k] == option_changes(poll_id, all)[k],
            decreases self.options@.len() - i,
        {
            let ghost before = out@;
            out.push(
                Write::InsertPollOption { poll_id, text: self.options[i].clone(), sort_order: i as i64 },
            );
            proof {
                assert(all[i as int] == self.options@[i as int]@);
                assert forall|k: int| 0 <= k < i + 1 implies #[trigger] changes(out@)[k]
                    == option_changes(poll_id, all)[k] by {
                    if k < i {
                        assert(changes(before)[k] == option_changes(poll_id, all)[k]);
                    }
                }
            }
            i += 1;
        }
        assert(changes(out@) =~= option_changes(poll_id, all));
        out
    }
}

/// A poll that is made has a question, 2 to 10 options, none of which is empty or
/// too long, and belongs to a member.
pub proof fn a_poll_has_real_options(
    username: Seq<char>,
    req: CreatePollRequest,
    memberships: Lookup<i64>,
    channel: Lookup<bool>,
    bits: Lookup<i64>,
)
    requires
        poll_asked(username, req, memberships, channel, bits) is Ok,
    ensures
        ({
            let p = poll_asked(username, req, memberships, channel, bits)->Ok_0;
            &&& counted(memberships) == Ok::<bool, Refusal>(true)
            &&& channel == Lookup::Found(true) ==> permitted(bits, CREATE_POLLS) == Ok::<bool, Refusal>(true)
            &&& 0 < p.question.len() && byte_count(p.question) <= 300
            &&& 2 <= p.options.len() <= 10
            &&& forall|i: int|
                0 <= i < p.options.len() ==> 0 < (#[trigger] p.options[i]).len() && byte_count(p.options[i])
                    <= 100
            &&& p.created_by == username
        }),
{
    let options = kept_options(texts(req.options@));
    kept_are_not_empty(texts(req.options@));
    assert forall|i: int| 0 <= i < options.len() implies byte_count(#[trigger] options[i]) <= 100 by {
    }
}

proof fn kept_are_not_empty(options: Seq<Seq<char>>)
    ensures
        forall|i: int| 0 <= i < kept_options(options).len() ==> 0 < (#[trigger] kept_options(options)[i]).len(),
    decreases options.len(),
{
    if options.len() > 0 {
        kept_are_not_empty(options.drop_last());
        let rest = kept_options(options.drop_last());
        assert forall|i: int| 0 <= i < kept_options(options).len() implies 0 < (#[trigger] kept_options(
            options,
        )[i]).len() by {
            if i < rest.len() {
                assert(rest[i].len() > 0);
            }
        }
    }
}

/// What everyone is told about a new poll.
pub open spec fn poll_packet(results: Json) -> Json {
    obj().with("type"@, Json::Text("poll_created"@)).with("group_id"@, Json::Int(1)).with(
        "poll"@,
        results,
    ).json()
}

/// What follows once a poll and its options are stored.
pub open spec fn poll_announced(facts: PollFacts) -> Result<Effect, Refusal> {
    match results_of(facts) {
        Err(e) => Err(e),
        Ok(results) => Ok(
            replying(
                obj().with("ok"@, Json::Bool(true)).with(
                    "poll_id"@,
                    Json::Int(facts.poll_id as int),
                ).json(),
            ).and_broadcast(poll_packet(results)),
        ),
    }
}

/// What follows once a poll and its options are stored.
pub fn poll_created(facts: &PollFacts) -> (res: Result<Outcome, AppError>)
    requires
        countable(*facts),
    ensures
        told(res) == poll_announced(*facts),
{
    let results = poll_results(facts)?;
    let packet = Fields::new().put_text("type", "poll_created").put_int("group_id", GROUP).put(
        "poll",
        results,
    ).done();
    let reply = Fields::new().put_bool("ok", true).put_int("poll_id", facts.poll_id).done();
    Ok(Outcome::replying(reply).and_broadcast(packet))
}

/// The results of those polls that have any.
pub open spec fn all_results(polls: Seq<PollFacts>) -> Seq<Json>
    decreases polls.len(),
{
    if polls.len() == 0 {
        Seq::empty()
    } else {
        match results_of(polls.last()) {
            Ok(r) => all_results(polls.drop_last()).push(r),
            Err(_) => all_results(polls.drop_last()),
        }
    }
}

/// What asking for the polls leads to.
pub open spec fn polls_listed(memberships: Lookup<i64>, polls: Result<Vec<PollFacts>, String>) -> Result<
    Effect,
    Refusal,
> {
    match members_pass(memberships) {
        Err(e) => Err(e),
        Ok(_) => match polls {
            Err(e) => Err(Refusal::Internal(e@)),
            Ok(p) => Ok(replying(Json::Array(all_results(p@)))),
        },
    }
}

/// List polls with their results, for a member. The polls come newest first.
pub fn list_polls(memberships: &Lookup<i64>, polls: &Result<Vec<PollFacts>, String>) -> (res: Result<
    Outcome,
    AppError,
>)
    requires
        *polls matches Ok(p) ==> forall|i: int| 0 <= i < p@.len() ==> countable(#[trigger] p@[i]),
    ensures
        told(res) == polls_listed(*memberships, *polls),
{
    require_member(memberships)?;
    let list = match polls {
        Err(e) => return Err(AppError::Internal(e.clone())),
        Ok(p) => p,
    };
    let mut out: Vec<JsonValue> = Vec::new();
    let mut i: usize = 0;
    assert(jsons(out@) =~= all_results(list@.take(0)));
    while i < list.len()
        invariant
            i <= list@.len(),
            forall|i: int| 0 <= i < list@.len() ==> countable(#[trigger] list@[i]),
            jsons(out@) == all_results(list@.take(i as int)),
        decreases list@.len() - i,
    {
        assert(list@.take(i + 1).drop_last() =~= list@.take(i as int));
        if let Ok(r) = poll_results(&list[i]) {
            let ghost before = out@;
            out.push(r);
            assert(jsons(out@) =~= jsons(before).push(r@));
        }
        i += 1;
    }
    assert(list@.take(list@.len() as int) =~= list@);
    Ok(Outcome::replying(array(out)))
}

/// What asking for a poll leads to.
pub open spec fn poll_shown(memberships: Lookup<i64>, facts: PollFacts) -> Result<Effect, Refusal> {
    match members_pass(memberships) {
        Err(e) => Err(e),
        Ok(_) => match results_of(facts) {
            Err(e) => Err(e),
            Ok(r) => Ok(replying(r)),
        },
    }
}

/// The results of a poll, for a member.
pub fn get_poll(memberships: &Lookup<i64>, facts: &PollFacts) -> (res: Result<Outcome, AppError>)
    requires
        countable(*facts),
    ensures
        told(res) == poll_shown(*memberships, *facts),
{
    require_member(memberships)?;
    match poll_results(facts) {
        Err(e) => Err(e),
        Ok(r) => Ok(Outcome::replying(r)),
    }
}

/// A vote.
pub struct VotePollRequest {
    pub option_id: i64,
}

/// The changes that a vote leads to; they belong into one transaction. In a poll
/// with a single choice the user's earlier vote goes first.
pub open spec fn voted(
    username: Seq<char>,
    poll_id: i64,
    option_id: i64,
    memberships: Lookup<i64>,
    poll: Lookup<(bool, Option<i64>)>,
    options: Lookup<i64>,
    now: i64,
) -> Result<Seq<Change>, Refusal> {
    let vote = Change::AddVote { poll_id, option_id, username };
    match members_pass(memberships) {
        Err(e) => Err(e),
        Ok(_) => match poll {
            Lookup::Failed(e) => Err(Refusal::Internal(e@)),
            Lookup::Missing => Err(Refusal::NotFound("Poll not found"@)),
            Lookup::Found(p) => if p.1 matches Some(closes) && now >= closes {
                Err(Refusal::Forbidden("This poll is closed"@))
            } else {
                match counted(options) {
                    Err(e) => Err(e),
                    Ok(false) => Err(Refusal::BadRequest("Invalid option for this poll"@)),
                    Ok(true) => if p.0 {
                        Ok(Seq::empty().push(vote))
                    } else {
                        Ok(Seq::empty().push(Change::ClearVotes { poll_id, username }).push(vote))
                    },
                }
            },
        },
    }
}

/// The model of a result with writes.
pub open spec fn writes_of(r: Result<Vec<Write>, AppError>) -> Result<Seq<Change>, Refusal> {
    match r {
        Ok(w) => Ok(changes(w@)),
        Err(e) => Err(e@),
    }
}

/// Vote in a poll, or change one's vote where there is a single choice. The
/// writes belong into one transaction. `now` is in milliseconds.
pub fn vote_poll(
    username: &str,
    poll_id: i64,
    req: &VotePollRequest,
    memberships: &Lookup<i64>,
    poll: &Lookup<(bool, Option<i64>)>,
    options: &Lookup<i64>,
    now: i64,
) -> (res: Result<Vec<Write>, AppError>)
    ensures
        writes_of(res) == voted(
            username@,
            poll_id,
            req.option_id,
            *memberships,
            *poll,
            *options,
            now,
        ),
{
    require_member(memberships)?;
    let (multi_choice, closes_at) = match poll {
        Lookup::Failed(e) => return Err(AppError::Internal(e.clone())),
        Lookup::Missing => return Err(not_found("Poll not found")),
        Lookup::Found(p) => (p.0, p.1),
    };
    if let Some(closes) = closes_at {
        if now >= closes {
            return Err(forbidden("This poll is closed"));
        }
    }
    if !any_counted(options)? {
        return Err(bad_request("Invalid option for this poll"));
    }
    let mut writes: Vec<Write> = Vec::new();
    if !multi_choice {
        writes.push(Write::ClearVotes { poll_id, username: username.to_owned() });
    }
    writes.push(Write::AddVote { poll_id, option_id: req.option_id, username: username.to_owned() });
    proof {
        let vote = Change::AddVote { poll_id, option_id: req.option_id, username: username@ };
        if multi_choice {
            assert(changes(writes@) =~= Seq::empty().push(vote));
        } else {
            assert(changes(writes@) =~= Seq::empty().push(
                Change::ClearVotes { poll_id, username: username@ },
            ).push(vote));
        }
    }
    Ok(writes)
}

/// What everyone is told about a vote: the counts, and not who voted for what.
pub open spec fn vote_packet(poll_id: i64, options: Seq<OptionEntry>) -> Json {
    obj().with("type"@, Json::Text("poll_vote_update"@)).with("group_id"@, Json::Int(1)).with(
        "poll_id"@,
        Json::Int(poll_id as int),
    ).with("options"@, counts_json(options)).with(
        "total_votes"@,
        Json::Int(total_votes(options)),
    ).json()
}

/// What follows once a vote is stored: the new results.
pub open spec fn after_vote(facts: PollFacts) -> Result<Effect, Refusal> {
    match poll_found(facts) {
        Err(e) => Err(e),
        Ok(f) => Ok(
            replying(results_json(facts.poll_id, f.0, f.1, f.2)).and_broadcast(
                vote_packet(facts.poll_id, f.1),
            ),
        ),
    }
}

/// What follows once a vote is stored: the new results.
pub fn poll_voted(facts: &PollFacts) -> (res: Result<Outcome, AppError>)
    requires
        countable(*facts),
    ensures
        told(res) == after_vote(*facts),
{
    let (poll, options, mine) = found_poll(facts)?;
    let (total, list) = tally(options, mine);
    let packet = Fields::new().put_text("type", "poll_vote_update").put_int("group_id", GROUP).put_int(
        "poll_id",
        facts.poll_id,
    ).put("options", counts(options)).put_int("total_votes", total).done();
    Ok(Outcome::replying(poll_value(facts.poll_id, poll, total, list)).and_broadcast(packet))
}

/// Two votes after which each option has the same number of votes are told to
/// everyone in the same way: neither who voted nor for what can be told from it.
pub proof fn votes_are_anonymous(a: PollFacts, b: PollFacts)
    requires
        after_vote(a) is Ok,
        after_vote(b) is Ok,
        a.poll_id == b.poll_id,
        a.options->Ok_0@.len() == b.options->Ok_0@.len(),
        forall|i: int|
            0 <= i < a.options->Ok_0@.len() ==> {
                let o = #[trigger] a.options->Ok_0@[i];
                let p = b.options->Ok_0@[i];
                o.id == p.id && o.text@ == p.text@ && o.votes == p.votes
            },
    ensures
        after_vote(a)->Ok_0.notices == after_vote(b)->Ok_0.notices,
{
    let x = a.options->Ok_0@;
    let y = b.options->Ok_0@;
    assert(x.map_values(|o: OptionEntry| option_count_json(o)) =~= y.map_values(
        |o: OptionEntry| option_count_json(o),
    ));
    same_total(x, y);
    assert(vote_packet(a.poll_id, x) == vote_packet(b.poll_id, y));
}

proof fn same_total(a: Seq<OptionEntry>, b: Seq<OptionEntry>)
    requires
        a.len() == b.len(),
        forall|i: int| 0 <= i < a.len() ==> (#[trigger] a[i]).votes == b[i].votes,
    ensures
        total_votes(a) == total_votes(b),
    decreases a.len(),
{
    if a.len() > 0 {
        assert(a[a.len() - 1].votes == b[a.len() - 1].votes);
        assert forall|i: int| 0 <= i < a.drop_last().len() implies (#[trigger] a.drop_last()[i]).votes
            == b.drop_last()[i].votes by {
            assert(a[i].votes == b[i].votes);
        }
        same_total(a.drop_last(), b.drop_last());
    }
}

/// The options of a poll that a user chose.
pub open spec fn choices(db: GroupDb, poll_id: i64, user: Seq<char>) -> Set<i64> {
    Set::new(|o: i64| db.votes.contains((poll_id, o, user)))
}

/// A vote counts for the one who casts it, in that poll alone. With a single
/// choice it replaces their earlier one, with several it is added. Nobody votes
/// in a closed poll, nor for an option of another poll.
pub proof fn a_vote_counts_once(
    username: Seq<char>,
    poll_id: i64,
    option_id: i64,
    memberships: Lookup<i64>,
    poll: Lookup<(bool, Option<i64>)>,
    options: Lookup<i64>,
    now: i64,
    db: GroupDb,
    other_poll: i64,
    other: Seq<char>,
)
    requires
        voted(username, poll_id, option_id, memberships, poll, options, now) is Ok,
    ensures
        ({
            let after = applied_all(
                db,
                voted(username, poll_id, option_id, memberships, poll, options, now)->Ok_0,
            );
            &&& poll is Found
            &&& poll->Found_0.1 matches Some(closes) ==> now < closes
            &&& counted(options) == Ok::<bool, Refusal>(true)
            &&& choices(after, poll_id, username) == (if poll->Found_0.0 {
                choices(db, poll_id, username).insert(option_id)
            } else {
                Set::empty().insert(option_id)
            })
            &&& (other_poll, other) != (poll_id, username) ==> choices(after, other_poll, other) == choices(
                db,
                other_poll,
                other,
            )
        }),
{
    let s = voted(username, poll_id, option_id, memberships, poll, options, now)->Ok_0;
    let after = applied_all(db, s);
    reveal_with_fuel(applied_all, 3);
    if poll->Found_0.0 {
        assert(s.drop_last() =~= Seq::<Change>::empty());
        assert(choices(after, poll_id, username) =~= choices(db, poll_id, username).insert(option_id));
    } else {
        assert(s.drop_last() =~= Seq::empty().push(Change::ClearVotes { poll_id, username }));
        assert(s.drop_last().drop_last() =~= Seq::<Change>::empty());
        assert(choices(after, poll_id, username) =~= Set::empty().insert(option_id));
    }
    if (other_poll, other) != (poll_id, username) {
        assert(choices(after, other_poll, other) =~= choices(db, other_poll, other));
    }
}

proof fn kept_are_filtered(options: Seq<Seq<char>>)
    ensures
        kept_options(options) == options.map_values(|t: Seq<char>| trimmed(t)).filter(|t: Seq<char>| t.len() > 0),
    decreases options.len(),
{
    reveal(Seq::filter);
    if options.len() > 0 {
        let all = options.map_values(|t: Seq<char>| trimmed(t));
        kept_are_filtered(options.drop_last());
        assert(all.drop_last() =~= options.drop_last().map_values(|t: Seq<char>| trimmed(t)));
        assert(all.last() == trimmed(options.last()));
    }
}

/// A poll that is made is the one that was asked for: the question without white
/// space around it, the options without it and in their order, those left out
/// that are then empty, as many choices and the time to close at as asked for.
/// So it is stored, as the poll of whoever asked, with one row for each option.
pub proof fn a_poll_is_as_asked_for(
    username: Seq<char>,
    req: CreatePollRequest,
    memberships: Lookup<i64>,
    channel: Lookup<bool>,
    bits: Lookup<i64>,
    db: GroupDb,
    poll_id: i64,
    i: int,
    option_id: i64,
)
    requires
        poll_asked(username, req, memberships, channel, bits) is Ok,
    ensures
        ({
            let p = poll_asked(username, req, memberships, channel, bits)->Ok_0;
            let after = applied(db, poll_change(p), poll_id);
            let added = option_changes(poll_id, p.options);
            &&& p.question == trimmed(req.question@)
            &&& p.multi_choice == req.multi_choice
            &&& p.closes_at == req.closes_at
            &&& p.created_by == username
            &&& p.options == req.options@.map_values(|o: String| trimmed(o@)).filter(
                |t: Seq<char>| t.len() > 0,
            )
            &&& after == (GroupDb {
                polls: db.polls.insert(
                    poll_id,
                    PollRow {
                        question: trimmed(req.question@),
                        multi_choice: req.multi_choice,
                        closes_at: req.closes_at,
                        created_by: username,
                    },
                ),
                ..db
            })
            &&& added.len() == p.options.len()
            &&& 0 <= i < p.options.len() ==> applied(db, added[i], option_id) == (GroupDb {
                poll_options: db.poll_options.insert(
                    option_id,
                    OptionRow { poll_id, text: p.options[i], sort_order: i as i64 },
                ),
                ..db
            })
        }),
{
    kept_are_filtered(texts(req.options@));
    assert(texts(req.options@).map_values(|t: Seq<char>| trimmed(t)) =~= req.options@.map_values(
        |o: String| trimmed(o@),
    ));
}

/// A poll is made if and only if its question has 1 to 300 bytes, 2 to 10 of its
/// options are not empty and none of those has more than 100 bytes, and whoever
/// asks is a member who, in a channel, may create polls.
pub proof fn who_may_make_a_poll(
    username: Seq<char>,
    req: CreatePollRequest,
    memberships: Lookup<i64>,
    channel: Lookup<bool>,
    bits: Lookup<i64>,
)
    ensures
        ({
            let options = req.options@.map_values(|o: String| trimmed(o@)).filter(|t: Seq<char>| t.len() > 0);
            poll_asked(username, req, memberships, channel, bits) is Ok <==> {
                &&& 0 < trimmed(req.question@).len() && byte_count(trimmed(req.question@)) <= 300
                &&& 2 <= options.len() <= 10
                &&& forall|i: int| 0 <= i < options.len() ==> byte_count(#[trigger] options[i]) <= 100
                &&& some_found(memberships)
                &&& channel !is Failed
                &&& channel == Lookup::Found(true) ==> permitted(bits, CREATE_POLLS) == Ok::<bool, Refusal>(true)
            }
        }),
{
    kept_are_filtered(texts(req.options@));
    assert(texts(req.options@).map_values(|t: Seq<char>| trimmed(t)) =~= req.options@.map_values(
        |o: String| trimmed(o@),
    ));
}

/// The total of the votes is the sum of those of the options.
pub proof fn votes_add_up(options: Seq<OptionEntry>, o: OptionEntry)
    ensures
        total_votes(Seq::empty()) == 0,
        total_votes(options.push(o)) == total_votes(options) + o.votes,
{
    assert(options.push(o).drop_last() =~= options);
}

/// The results of a poll are those of its row and of its options: how many chose
/// each, and whether whoever asks did.
pub proof fn the_results_are_those_stored(facts: PollFacts, i: int)
    ensures
        results_of(facts) is Ok <==> facts.poll is Found && facts.options is Ok && facts.mine is Ok,
        facts.poll is Missing ==> results_of(facts) matches Err(Refusal::NotFound(_)),
        results_of(facts) matches Ok(told) ==> {
            let poll = facts.poll->Found_0;
            let options = facts.options->Ok_0@;
            let list = member_of(told, "options"@)->Some_0;
            let listed = list->Array_0;
            &&& member_of(told, "id"@) == Some(Json::Int(facts.poll_id as int))
            &&& member_of(told, "question"@) == Some(Json::Text(poll.question@))
            &&& member_of(told, "multi_choice"@) == Some(Json::Bool(poll.multi_choice))
            &&& member_of(told, "closes_at"@) == Some(
                match poll.closes_at {
                    Some(t) => Json::Int(t as int),
                    None => Json::Null,
                },
            )
            &&& member_of(told, "created_by"@) == Some(Json::Text(poll.created_by@))
            &&& member_of(told, "total_votes"@) == Some(Json::Int(total_votes(options)))
            &&& member_of(told, "options"@) is Some
            &&& list is Array
            &&& listed.len() == options.len()
            &&& 0 <= i < options.len() ==> {
                &&& member_of(listed[i], "id"@) == Some(Json::Int(options[i].id as int))
                &&& member_of(listed[i], "text"@) == Some(Json::Text(options[i].text@))
                &&& member_of(listed[i], "votes"@) == Some(Json::Int(options[i].votes as int))
                &&& member_of(listed[i], "selected_by_me"@) == Some(
                    Json::Bool(facts.mine->Ok_0@.contains(options[i].id)),
                )
            }
        },
{
    broadcast use lookup_of_push;

    reveal_strlit("id");
    reveal_strlit("question");
    reveal_strlit("multi_choice");
    reveal_strlit("closes_at");
    reveal_strlit("created_by");
    reveal_strlit("total_votes");
    reveal_strlit("options");
    reveal_strlit("text");
    reveal_strlit("votes");
    reveal_strlit("selected_by_me");
}

/// Whoever made a poll is told its number, and everyone is told its results.
pub proof fn a_new_poll_is_told(facts: PollFacts)
    ensures
        poll_announced(facts) is Ok <==> results_of(facts) is Ok,
        poll_announced(facts) matches Ok(effect) ==> {
            &&& effect.changes.len() == 0
            &&& member_of(effect.reply, "ok"@) == Some(Json::Bool(true))
            &&& member_of(effect.reply, "poll_id"@) == Some(Json::Int(facts.poll_id as int))
            &&& effect.notices.len() == 1
            &&& effect.notices[0] matches Packet::Broadcast(told) && {
                &&& member_of(told, "type"@) == Some(Json::Text("poll_created"@))
                &&& member_of(told, "group_id"@) == Some(Json::Int(1))
                &&& member_of(told, "poll"@) == Some(results_of(facts)->Ok_0)
            }
        },
{
    broadcast use lookup_of_push;

    reveal_strlit("ok");
    reveal_strlit("poll_id");
    reveal_strlit("type");
    reveal_strlit("group_id");
    reveal_strlit("poll");
}

proof fn results_are_filtered(polls: Seq<PollFacts>)
    ensures
        all_results(polls) == polls.filter(|f: PollFacts| results_of(f) is Ok).map_values(
            |f: PollFacts| results_of(f)->Ok_0,
        ),
    decreases polls.len(),
{
    reveal(Seq::filter);
    if polls.len() > 0 {
        results_are_filtered(polls.drop_last());
    }
}

/// Members see polls, one by its results and all of them by the results of each
/// that has some, in the order in which they were read; others see none.
pub proof fn polls_are_shown_to_members(
    memberships: Lookup<i64>,
    polls: Result<Vec<PollFacts>, String>,
    facts: PollFacts,
)
    ensures
        polls_listed(memberships, polls) is Ok <==> some_found(memberships) && polls is Ok,
        polls_listed(memberships, polls) matches Ok(effect) ==> {
            &&& effect.changes.len() == 0
            &&& effect.notices.len() == 0
            &&& effect.reply == Json::Array(
                polls->Ok_0@.filter(|f: PollFacts| results_of(f) is Ok).map_values(
                    |f: PollFacts| results_of(f)->Ok_0,
                ),
            )
        },
        none_found(memberships) ==> polls_listed(memberships, polls) matches Err(Refusal::NotFound(_)),
        poll_shown(memberships, facts) is Ok <==> some_found(memberships) && results_of(facts) is Ok,
        poll_shown(memberships, facts) matches Ok(effect) ==> {
            &&& effect.changes.len() == 0
            &&& effect.notices.len() == 0
            &&& effect.reply == results_of(facts)->Ok_0
        },
        none_found(memberships) ==> poll_shown(memberships, facts) matches Err(Refusal::NotFound(_)),
{
    if let Ok(p) = polls {
        results_are_filtered(p@);
    }
}

/// A vote is accepted if and only if it comes from a member, in a poll that is
/// there and not closed, for an option of it. Only votes change.
pub proof fn who_may_vote(
    username: Seq<char>,
    poll_id: i64,
    option_id: i64,
    memberships: Lookup<i64>,
    poll: Lookup<(bool, Option<i64>)>,
    options: Lookup<i64>,
    now: i64,
    db: GroupDb,
)
    ensures
        ({
            let res = voted(username, poll_id, option_id, memberships, poll, options, now);
            &&& res is Ok <==> {
                &&& some_found(memberships)
                &&& poll matches Lookup::Found(p) && (p.1 is Some ==> now < p.1->Some_0)
                &&& some_found(options)
            }
            &&& res matches Ok(s) ==> {
                let after = applied_all(db, s);
                after == (GroupDb { votes: after.votes, ..db })
            }
        }),
{
    let res = voted(username, poll_id, option_id, memberships, poll, options, now);
    reveal_with_fuel(applied_all, 3);
    if let Ok(s) = res {
        if s.len() == 1 {
            assert(s.drop_last() =~= Seq::<Change>::empty());
        } else {
            assert(s.drop_last() =~= Seq::empty().push(Change::ClearVotes { poll_id, username }));
            assert(s.drop_last().drop_last() =~= Seq::<Change>::empty());
        }
    }
}

/// After a vote whoever cast it is told the results, and everyone how many chose
/// each option and how many voted in all.
pub proof fn a_vote_is_told(facts: PollFacts, i: int)
    ensures
        after_vote(facts) is Ok <==> results_of(facts) is Ok,
        after_vote(facts) matches Ok(effect) ==> {
            let options = facts.options->Ok_0@;
            let told = effect.notices[0]->Broadcast_0;
            let list = member_of(told, "options"@)->Some_0;
            let listed = list->Array_0;
            &&& effect.changes.len() == 0
            &&& effect.reply == results_of(facts)->Ok_0
            &&& effect.notices.len() == 1
            &&& effect.notices[0] is Broadcast
            &&& member_of(told, "type"@) == Some(Json::Text("poll_vote_update"@))
            &&& member_of(told, "group_id"@) == Some(Json::Int(1))
            &&& member_of(told, "poll_id"@) == Some(Json::Int(facts.poll_id as int))
            &&& member_of(told, "total_votes"@) == Some(Json::Int(total_votes(options)))
            &&& member_of(told, "options"@) is Some
            &&& list is Array
            &&& listed.len() == options.len()
            &&& 0 <= i < options.len() ==> {
                &&& member_of(listed[i], "id"@) == Some(Json::Int(options[i].id as int))
                &&& member_of(listed[i], "text"@) == Some(Json::Text(options[i].text@))
                &&& member_of(listed[i], "votes"@) == Some(Json::Int(options[i].votes as int))
            }
        },
{
    broadcast use lookup_of_push;

    reveal_strlit("id");
    reveal_strlit("type");
    reveal_strlit("group_id");
    reveal_strlit("poll_id");
    reveal_strlit("total_votes");
    reveal_strlit("options");
    reveal_strlit("text");
    reveal_strlit("votes");
}

/// What is asked about a poll is asked about that poll, and about the votes in it of
/// the user who wants to see it.
pub proof fn a_poll_is_asked_about_for_its_viewer(
    poll_id: i64,
    requester: &str,
    res: PollQueries,
)
    requires
        call_ensures(poll_queries, (poll_id, requester), res),
    ensures
        asks(
            res.poll,
            "SELECT question, multi_choice, closes_at, created_by FROM polls WHERE id = ?1"@,
            seq![Param::Int(poll_id)],
        ),
        asks(
            res.options,
            "SELECT id, text FROM poll_options WHERE poll_id = ?1 ORDER BY sort_order, id"@,
            seq![Param::Int(poll_id)],
        ),
        asks(
            res.mine,
            "SELECT option_id FROM poll_votes WHERE poll_id = ?1 AND username = ?2"@,
            seq![Param::Int(poll_id), Param::Text(requester@)],
        ),
{
}

/// How the requests about polls are refused: to someone who is no member, for what
/// is not there, and for what may not be.
pub proof fn refusals_about_polls(
    username: Seq<char>,
    req: CreatePollRequest,
    memberships: Lookup<i64>,
    channel: Lookup<bool>,
    bits: Lookup<i64>,
    poll_id: i64,
    option_id: i64,
    poll: Lookup<(bool, Option<i64>)>,
    options: Lookup<i64>,
    now: i64,
)
    ensures
        ({
            let res = poll_asked(username, req, memberships, channel, bits);
            let question = trimmed(req.question@);
            let kept = req.options@.map_values(|o: String| trimmed(o@)).filter(|t: Seq<char>| t.len() > 0);
            let asked = {
                &&& 0 < question.len() && byte_count(question) <= 300
                &&& 2 <= kept.len() <= 10
                &&& forall|i: int| 0 <= i < kept.len() ==> byte_count(#[trigger] kept[i]) <= 100
            };
            &&& !asked ==> (res matches Err(Refusal::BadRequest(_)))
            &&& asked && none_found(memberships) ==> (res matches Err(Refusal::NotFound(_)))
            &&& asked && some_found(memberships) && channel == Lookup::Found(true) && permitted(bits, CREATE_POLLS)
                == Ok::<bool, Refusal>(false) ==> (res matches Err(Refusal::Forbidden(_)))
        }),
        ({
            let res = voted(username, poll_id, option_id, memberships, poll, options, now);
            let member = some_found(memberships);
            &&& none_found(memberships) ==> (res matches Err(Refusal::NotFound(_)))
            &&& member && poll is Missing ==> (res matches Err(Refusal::NotFound(_)))
            &&& member && (poll matches Lookup::Found(p) && p.1 is Some && p.1->Some_0 <= now) ==> (
            res matches Err(Refusal::Forbidden(_)))
            &&& member && (poll matches Lookup::Found(p) && p.1 is None) && none_found(options) ==> (
            res matches Err(Refusal::BadRequest(_)))
        }),
{
    kept_are_filtered(texts(req.options@));
    assert(texts(req.options@).map_values(|t: Seq<char>| trimmed(t)) =~= req.options@.map_values(
        |o: String| trimmed(o@),
    ));
}

} // verus!
