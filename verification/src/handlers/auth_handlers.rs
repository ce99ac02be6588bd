//! Registering, and proving who one is.

use crate::auth::{
    after_issue, answered, generate_nonce, generate_token, hash_token, is_fresh, issued, shown_bytes, signed,
    token_hash, token_owner, verify_signature, Challenge, NonceStore,
};
use crate::crypto::{base64_decode, base64_decoded, base64_encode, base64_encoded, opt_bytes};
use crate::error::{
    any_counted, bad_request, counted, forbidden, none_found, not_found, some_found, unauthorized, AppError,
    Lookup, Refusal,
};
use crate::group::{applied, applied_all, GroupDb, GroupInfo, MemberRow, SessionRow};
use crate::handlers::checks::{is_surely_counted, surely_counted};
use crate::json::{lookup_of_push, member_of, obj, Fields, Json, JsonValue};
use crate::models::session::{ChallengeRequest, RegisterRequest, VerifyRequest};
use crate::outcome::{replying, told, Effect, Outcome};
use crate::permissions::{count_owner_equivalent_members, owner_count};
use crate::query::{asks, Query};
use crate::store::{Change, Param, Write};
use crate::text::{byte_count, byte_len, same, trim, trimmed};
use vstd::prelude::*;
use vstd::string::*;

verus! {

/// What the database holds about someone who registers.
pub struct RegisterFacts {
    /// How many bans there are of the user.
    pub bans: Lookup<i64>,
    /// The public key and the password hash of the user's session.
    pub session: Lookup<(String, String)>,
    /// How many members have the user's name.
    pub memberships: Lookup<i64>,
    /// How many groups there are.
    pub groups: Lookup<i64>,
    /// How many members there are.
    pub members: Lookup<i64>,
}

/// The questions behind the [`RegisterFacts`].
pub struct RegisterQueries {
    pub bans: Query,
    pub session: Query,
    pub memberships: Query,
    pub groups: Query,
    pub members: Query,
}

/// What to ask about someone who registers: the name is asked for without white
/// space at its ends.
pub fn register_queries(req: &RegisterRequest) -> (res: RegisterQueries)
    ensures
        res.bans matches Query::Bans { username: u } && u@ == trimmed(req.username@),
        res.session matches Query::Login { username: u } && u@ == trimmed(req.username@),
        res.memberships matches Query::Memberships { username: u } && u@ == trimmed(req.username@),
        res.groups == Query::Groups,
        res.members == Query::Members,
{
    let name = req.username.as_str();
    RegisterQueries {
        bans: Query::Bans { username: trim(name) },
        session: Query::Login { username: trim(name) },
        memberships: Query::Memberships { username: trim(name) },
        groups: Query::Groups,
        members: Query::Members,
    }
}

/// What to ask about someone who wants a challenge or answers one.
pub fn key_query(username: &str) -> (res: Query)
    ensures
        res matches Query::KeyOf { username: u } && u@ == trimmed(username@),
{
    Query::KeyOf { username: trim(username) }
}

/// What someone registers with.
pub struct Identity {
    pub username: Seq<char>,
    pub display_name: Seq<char>,
    pub public_key: Seq<char>,
    pub password_hash: Seq<char>,
}

/// What a request to register holds, without white space around it.
pub open spec fn identity_of(req: RegisterRequest) -> Identity {
    Identity {
        username: trimmed(req.username@),
        display_name: trimmed(req.display_name@),
        public_key: trimmed(req.public_key@),
        password_hash: trimmed(req.password_hash@),
    }
}

/// The password hash of a session, if there is one.
pub open spec fn stored_password(session: Lookup<(String, String)>) -> Option<Seq<char>> {
    match session {
        Lookup::Found(s) => Some(s.1@),
        _ => None,
    }
}

/// The reply to someone who gets a token.
pub open spec fn token_reply(token: Seq<char>, username: Seq<char>) -> Json {
    obj().with("ok"@, Json::Bool(true)).with("token"@, Json::Text(token)).with(
        "username"@,
        Json::Text(username),
    ).json()
}

fn token_answer(token: &str, username: &str) -> (res: JsonValue)
    ensures
        res@ == token_reply(token@, username@),
{
    Fields::new().put_bool("ok", true).put_text("token", token).put_text("username", username).done()
}

/// What a user leads to who was registered before: their identity is renewed,
/// the device gets a token, and they are a member again where there is a group.
/// The first member of a group owns it.
pub open spec fn renewed(
    who: Identity,
    facts: RegisterFacts,
    default_role: Seq<char>,
    token: Seq<char>,
    token_hash: Seq<char>,
) -> Result<Effect, Refusal> {
    let known = replying(token_reply(token, who.username)).and_change(
        Change::UpdateSessionIdentity {
            display_name: who.display_name,
            public_key: who.public_key,
            username: who.username,
        },
    ).and_change(Change::AddDeviceToken { username: who.username, token: token_hash });
    match counted(facts.memberships) {
        Err(e) => Err(e),
        Ok(true) => Ok(
            known.and_change(
                Change::UpdateMemberIdentity {
                    public_key: who.public_key,
                    display_name: who.display_name,
                    username: who.username,
                },
            ),
        ),
        Ok(false) => match counted(facts.groups) {
            Err(e) => Err(e),
            Ok(false) => Ok(known),
            Ok(true) => match owner_count(facts.members) {
                Err(e) => Err(e),
                Ok(n) => if n == 0 {
                    Ok(
                        known.and_change(
                            Change::InsertMember {
                                username: who.username,
                                display_name: who.display_name,
                                public_key: who.public_key,
                                role: "owner"@,
                            },
                        ).and_change(Change::SetGroupOwner { username: who.username }),
                    )
                } else {
                    Ok(
                        known.and_change(
                            Change::InsertMember {
                                username: who.username,
                                display_name: who.display_name,
                                public_key: who.public_key,
                                role: default_role,
                            },
                        ),
                    )
                },
            },
        },
    }
}

/// What a user leads to who was not registered before: a session, a token for
/// the device, and membership where there is a group.
pub open spec fn enrolled(
    who: Identity,
    facts: RegisterFacts,
    default_role: Seq<char>,
    token: Seq<char>,
    token_hash: Seq<char>,
) -> Result<Effect, Refusal> {
    let known = replying(token_reply(token, who.username)).and_change(
        Change::InsertSession {
            username: who.username,
            display_name: who.display_name,
            token: token_hash,
            public_key: who.public_key,
            password_hash: who.password_hash,
        },
    ).and_change(Change::AddDeviceToken { username: who.username, token: token_hash });
    match counted(facts.memberships) {
        Err(e) => Err(e),
        Ok(true) => Ok(known),
        Ok(false) => match counted(facts.groups) {
            Err(e) => Err(e),
            Ok(false) => Ok(known),
            Ok(true) => Ok(
                known.and_change(
                    Change::InsertMemberIfAbsent {
                        username: who.username,
                        display_name: who.display_name,
                        public_key: who.public_key,
                        role: default_role,
                    },
                ),
            ),
        },
    }
}

/// What a request to register leads to. `key` is the decoded public key, and
/// `password_fits` says whether the password hash has the digest of the stored
/// one.
pub open spec fn registered(
    who: Identity,
    key: Option<Seq<u8>>,
    password_fits: bool,
    facts: RegisterFacts,
    default_role: Seq<char>,
    token: Seq<char>,
    token_hash: Seq<char>,
) -> Result<Effect, Refusal> {
    if who.username.len() == 0 || who.public_key.len() == 0 {
        Err(Refusal::BadRequest("username and public_key required"@))
    } else if byte_count(who.username) > 64 || byte_count(who.display_name) > 128 {
        Err(Refusal::BadRequest("username or display_name too long"@))
    } else if key is None {
        Err(Refusal::BadRequest("invalid base64 public_key"@))
    } else if key->0.len() != 32 {
        Err(Refusal::BadRequest("public_key must be 32 bytes (Ed25519)"@))
    } else if surely_counted(facts.bans) {
        Err(Refusal::Forbidden("You are banned from this server"@))
    } else {
        match stored_password(facts.session) {
            Some(stored) => if stored.len() != 0 && !password_fits {
                Err(Refusal::Unauthorized("Invalid password"@))
            } else {
                renewed(who, facts, default_role, token, token_hash)
            },
            None => enrolled(who, facts, default_role, token, token_hash),
        }
    }
}

/// Whether a password hash has the digest of the stored one.
pub open spec fn fits(session: Lookup<(String, String)>, password_hash: Seq<char>) -> bool {
    match stored_password(session) {
        Some(stored) => token_hash(stored) == token_hash(password_hash),
        None => false,
    }
}

fn join_again(
    known: Outcome,
    username: String,
    display_name: String,
    public_key: String,
    facts: &RegisterFacts,
    default_role: &str,
) -> (res: Result<Outcome, AppError>)
    ensures
        told(res) == match counted(facts.memberships) {
            Err(e) => Err(e),
            Ok(true) => Ok(
                known@.and_change(
                    Change::UpdateMemberIdentity {
                        public_key: public_key@,
                        display_name: display_name@,
                        username: username@,
                    },
                ),
            ),
            Ok(false) => match counted(facts.groups) {
                Err(e) => Err(e),
                Ok(false) => Ok(known@),
                Ok(true) => match owner_count(facts.members) {
                    Err(e) => Err(e),
                    Ok(n) => if n == 0 {
                        Ok(
                            known@.and_change(
                                Change::InsertMember {
                                    username: username@,
                                    display_name: display_name@,
                                    public_key: public_key@,
                                    role: "owner"@,
                                },
                            ).and_change(Change::SetGroupOwner { username: username@ }),
                        )
                    } else {
                        Ok(
                            known@.and_change(
                                Change::InsertMember {
                                    username: username@,
                                    display_name: display_name@,
                                    public_key: public_key@,
                                    role: default_role@,
                                },
                            ),
                        )
                    },
                },
            },
        },
{
    if any_counted(&facts.memberships)? {
        return Ok(known.and_write(Write::UpdateMemberIdentity { public_key, display_name, username }));
    }
    if !any_counted(&facts.groups)? {
        return Ok(known);
    }
    if count_owner_equivalent_members(&facts.members)? == 0 {
        let owner = username.clone();
        Ok(
            known.and_write(
                Write::InsertMember { username, display_name, public_key, role: "owner".to_owned() },
            ).and_write(Write::SetGroupOwner { username: owner }),
        )
    } else {
        Ok(
            known.and_write(
                Write::InsertMember { username, display_name, public_key, role: default_role.to_owned() },
            ),
        )
    }
}

/// What a request to register leads to, once the public key is decoded, the
/// passwords are compared and a token is made.
pub fn register_decoded(
    req: &RegisterRequest,
    key: &Option<Vec<u8>>,
    password_fits: bool,
    facts: &RegisterFacts,
    default_role: &str,
    token: &str,
    token_hash: &str,
) -> (res: Result<Outcome, AppError>)
    ensures
        told(res) == registered(
            identity_of(*req),
            opt_bytes(*key),
            password_fits,
            *facts,
            default_role@,
            token@,
            token_hash@,
        ),
{
    let username = trim(req.username.as_str());
    let display_name = trim(req.display_name.as_str());
    let public_key = trim(req.public_key.as_str());
    let password_hash = trim(req.password_hash.as_str());
    if username.as_str().unicode_len() == 0 || public_key.as_str().unicode_len() == 0 {
        return Err(bad_request("username and public_key required"));
    }
    if byte_len(username.as_str()) > 64 || byte_len(display_name.as_str()) > 128 {
        return Err(bad_request("username or display_name too long"));
    }
    match key {
        None => return Err(bad_request("invalid base64 public_key")),
        Some(bytes) => {
            if bytes.len() != 32 {
                return Err(bad_request("public_key must be 32 bytes (Ed25519)"));
            }
        },
    }
    if is_surely_counted(&facts.bans) {
        return Err(forbidden("You are banned from this server"));
    }
    let reply = token_answer(token, username.as_str());
    match &facts.session {
        Lookup::Found(session) => {
            if session.1.as_str().unicode_len() != 0 && !password_fits {
                return Err(unauthorized("Invalid password"));
            }
            let known = Outcome::replying(reply).and_write(
                Write::UpdateSessionIdentity {
                    display_name: display_name.clone(),
                    public_key: public_key.clone(),
                    username: username.clone(),
                },
            ).and_write(
                Write::AddDeviceToken { username: username.clone(), token: token_hash.to_owned() },
            );
            join_again(known, username, display_name, public_key, facts, default_role)
        },
        _ => {
            let known = Outcome::replying(reply).and_write(
                Write::InsertSession {
                    username: username.clone(),
                    display_name: display_name.clone(),
                    token: token_hash.to_owned(),
                    public_key: public_key.clone(),
                    password_hash,
                },
            ).and_write(
                Write::AddDeviceToken { username: username.clone(), token: token_hash.to_owned() },
            );
            if any_counted(&facts.memberships)? {
                return Ok(known);
            }
            if !any_counted(&facts.groups)? {
                return Ok(known);
            }
            Ok(
                known.and_write(
                    Write::InsertMemberIfAbsent {
                        username,
                        display_name,
                        public_key,
                        role: default_role.to_owned(),
                    },
                ),
            )
        },
    }
}

/// Register a user, or a further device of one, and give out a new token of 64
/// characters.
pub fn register(req: &RegisterRequest, facts: &RegisterFacts, default_role: &str) -> (res: Result<
    Outcome,
    AppError,
>)
    ensures
        exists|token: Seq<char>|
            token.len() == 64 && told(res) == #[trigger] registered(
                identity_of(*req),
                base64_decoded(trimmed(req.public_key@)),
                fits(facts.session, trimmed(req.password_hash@)),
                *facts,
                default_role@,
                token,
                token_hash(token),
            ),
{
    let key = base64_decode(trim(req.public_key.as_str()).as_str());
    let token = generate_token();
    let kept = hash_token(token.as_str());
    let password_fits = match &facts.session {
        Lookup::Found(session) => {
            let given = hash_token(trim(req.password_hash.as_str()).as_str());
            same(hash_token(session.1.as_str()).as_str(), given.as_str())
        },
        _ => false,
    };
    let res = register_decoded(
        req,
        &key,
        password_fits,
        facts,
        default_role,
        token.as_str(),
        kept.as_str(),
    );
    assert(told(res) == registered(
        identity_of(*req),
        base64_decoded(trimmed(req.public_key@)),
        fits(facts.session, trimmed(req.password_hash@)),
        *facts,
        default_role@,
        token@,
        token_hash(token@),
    ));
    res
}

/// The facts are those of a database.
pub open spec fn true_of(facts: RegisterFacts, db: GroupDb, username: Seq<char>) -> bool {
    &&& facts.bans matches Lookup::Found(n) && (n > 0 <==> db.bans.contains_key(username))
    &&& match facts.session {
        Lookup::Found(s) => db.sessions.contains_key(username) && db.sessions[username].public_key == s.0@
            && db.sessions[username].password_hash == s.1@,
        Lookup::Missing => !db.sessions.contains_key(username),
        Lookup::Failed(_) => false,
    }
    &&& facts.memberships matches Lookup::Found(n) && (n > 0 <==> db.members.contains_key(username))
    &&& facts.groups is Found
    &&& facts.members is Found
}

proof fn first_changes(db: GroupDb, s: Seq<Change>)
    ensures
        s.len() == 2 ==> applied_all(db, s) == applied(applied(db, s[0], 0), s[1], 0),
        s.len() == 3 ==> applied_all(db, s) == applied(
            applied(applied(db, s[0], 0), s[1], 0),
            s[2],
            0,
        ),
        s.len() == 4 ==> applied_all(db, s) == applied(
            applied(applied(applied(db, s[0], 0), s[1], 0), s[2], 0),
            s[3],
            0,
        ),
{
    reveal_with_fuel(applied_all, 5);
    if s.len() >= 2 && s.len() <= 4 {
        assert(s.drop_last().drop_last().len() == s.len() - 2);
    }
}

/// A banned user cannot register.
pub proof fn the_banned_cannot_register(
    who: Identity,
    key: Option<Seq<u8>>,
    password_fits: bool,
    facts: RegisterFacts,
    db: GroupDb,
    default_role: Seq<char>,
    token: Seq<char>,
    token_hash: Seq<char>,
)
    requires
        true_of(facts, db, who.username),
        db.bans.contains_key(who.username),
    ensures
        registered(who, key, password_fits, facts, default_role, token, token_hash) is Err,
{
}

/// Whoever registered with a password cannot be registered again without it.
pub proof fn a_password_guards_its_user(
    who: Identity,
    key: Option<Seq<u8>>,
    facts: RegisterFacts,
    db: GroupDb,
    default_role: Seq<char>,
    token: Seq<char>,
    token_hash: Seq<char>,
)
    requires
        true_of(facts, db, who.username),
        db.sessions.contains_key(who.username),
        db.sessions[who.username].password_hash.len() > 0,
    ensures
        registered(who, key, false, facts, default_role, token, token_hash) is Err,
{
}

proof fn a_token_is_told(token: Seq<char>, username: Seq<char>)
    ensures
        member_of(token_reply(token, username), "ok"@) == Some(Json::Bool(true)),
        member_of(token_reply(token, username), "token"@) == Some(Json::Text(token)),
        member_of(token_reply(token, username), "username"@) == Some(Json::Text(username)),
{
    broadcast use lookup_of_push;

    reveal_strlit("ok");
    reveal_strlit("token");
    reveal_strlit("username");
}

/// The token that is given out belongs to the user from then on. A password that
/// was set, and a session's own token, stay as they are; nobody else's session,
/// membership or token changes.
pub proof fn registering_gives_a_token(
    who: Identity,
    key: Option<Seq<u8>>,
    password_fits: bool,
    facts: RegisterFacts,
    db: GroupDb,
    default_role: Seq<char>,
    token: Seq<char>,
    token_hash: Seq<char>,
)
    requires
        true_of(facts, db, who.username),
        !db.device_tokens.contains_key(token_hash),
        registered(who, key, password_fits, facts, default_role, token, token_hash) is Ok,
    ensures
        ({
            let effect = registered(who, key, password_fits, facts, default_role, token, token_hash)->Ok_0;
            let after = applied_all(db, effect.changes);
            let u = who.username;
            &&& effect.notices.len() == 0
            &&& member_of(effect.reply, "ok"@) == Some(Json::Bool(true))
            &&& member_of(effect.reply, "token"@) == Some(Json::Text(token))
            &&& member_of(effect.reply, "username"@) == Some(Json::Text(u))
            &&& after.device_tokens == db.device_tokens.insert(token_hash, u)
            &&& after.sessions.contains_key(u)
            &&& after.sessions[u].public_key == who.public_key
            &&& after.sessions[u].display_name == who.display_name
            &&& db.sessions.contains_key(u) ==> after.sessions[u].password_hash
                == db.sessions[u].password_hash && after.sessions[u].token == db.sessions[u].token
            &&& !db.sessions.contains_key(u) ==> after.sessions[u].password_hash == who.password_hash
                && after.sessions[u].token == token_hash
            &&& after.sessions.remove(u) == db.sessions.remove(u)
            &&& after.members.remove(u) == db.members.remove(u)
            &&& after.bans == db.bans
            &&& after.roles == db.roles
            &&& after.messages == db.messages
        }),
{
    let effect = registered(who, key, password_fits, facts, default_role, token, token_hash)->Ok_0;
    let after = applied_all(db, effect.changes);
    let u = who.username;
    a_token_is_told(token, u);
    first_changes(db, effect.changes);
    assert(after.sessions.remove(u) =~= db.sessions.remove(u));
    assert(after.members.remove(u) =~= db.members.remove(u));
}

/// No two sessions have the same token.
pub open spec fn session_tokens_differ(db: GroupDb) -> bool {
    forall|u: Seq<char>, v: Seq<char>| #[trigger]
        db.sessions.contains_key(u) && #[trigger] db.sessions.contains_key(v) && db.sessions[u].token
            == db.sessions[v].token ==> u == v
}

/// What looking a hash up among the tokens of the devices finds.
pub open spec fn finds_device(l: Lookup<String>, db: GroupDb, hash: Seq<char>) -> bool {
    if db.device_tokens.contains_key(hash) {
        l matches Lookup::Found(u) && u@ == db.device_tokens[hash]
    } else {
        l is Missing
    }
}

/// What looking a hash up among the tokens of the sessions finds.
pub open spec fn finds_session(l: Lookup<String>, db: GroupDb, hash: Seq<char>) -> bool {
    match l {
        Lookup::Found(u) => db.sessions.contains_key(u@) && db.sessions[u@].token == hash,
        Lookup::Missing => forall|u: Seq<char>| #[trigger]
            db.sessions.contains_key(u) ==> db.sessions[u].token != hash,
        Lookup::Failed(_) => false,
    }
}

/// Registering logs a new device in and no other one out: the new token, of which
/// only the hash is stored, names the user, and every other token names whom it
/// named before. `hash` is that of any token; the lookups are those of it before
/// and after.
pub proof fn registering_logs_nobody_out(
    who: Identity,
    key: Option<Seq<u8>>,
    password_fits: bool,
    facts: RegisterFacts,
    db: GroupDb,
    default_role: Seq<char>,
    token: Seq<char>,
    other_token: Seq<char>,
    token_hash: Seq<char>,
    hash: Seq<char>,
    device: Lookup<String>,
    session: Lookup<String>,
    device_after: Lookup<String>,
    session_after: Lookup<String>,
)
    requires
        true_of(facts, db, who.username),
        session_tokens_differ(db),
        !db.device_tokens.contains_key(token_hash),
        forall|u: Seq<char>| #[trigger]
            db.sessions.contains_key(u) ==> db.sessions[u].token != token_hash,
        registered(who, key, password_fits, facts, default_role, token, token_hash) is Ok,
        finds_device(device, db, hash),
        finds_session(session, db, hash),
        ({
            let effect = registered(who, key, password_fits, facts, default_role, token, token_hash)->Ok_0;
            let after = applied_all(db, effect.changes);
            finds_device(device_after, after, hash) && finds_session(session_after, after, hash)
        }),
    ensures
        hash == token_hash ==> token_owner(device_after, session_after) == Some(who.username),
        hash != token_hash ==> token_owner(device_after, session_after) == token_owner(device, session),
        token_owner(device, session) is Some ==> token_owner(device_after, session_after) == token_owner(
            device,
            session,
        ),
        ({
            let effect = registered(who, key, password_fits, facts, default_role, token, token_hash)->Ok_0;
            let other = registered(who, key, password_fits, facts, default_role, other_token, token_hash);
            other is Ok && other->Ok_0.changes == effect.changes
        }),
        ({
            let effect = registered(who, key, password_fits, facts, default_role, token, token_hash)->Ok_0;
            session_tokens_differ(applied_all(db, effect.changes))
        }),
{
    registering_gives_a_token(who, key, password_fits, facts, db, default_role, token, token_hash);
    let effect = registered(who, key, password_fits, facts, default_role, token, token_hash)->Ok_0;
    let after = applied_all(db, effect.changes);
    let me = who.username;
    assert forall|u: Seq<char>| u != me implies (#[trigger] after.sessions.contains_key(u)
        <==> db.sessions.contains_key(u)) && (db.sessions.contains_key(u) ==> after.sessions[u]
        == db.sessions[u]) by {
        assert(after.sessions.remove(me).contains_key(u) <==> db.sessions.remove(me).contains_key(u));
        if db.sessions.contains_key(u) {
            assert(after.sessions.remove(me)[u] == db.sessions.remove(me)[u]);
        }
    }
    if hash != token_hash {
        if let Lookup::Found(u) = session {
            assert(after.sessions.contains_key(u@));
            assert(after.sessions[u@].token == hash);
        }
        if let Lookup::Found(u) = session_after {
            assert(db.sessions.contains_key(u@));
            assert(db.sessions[u@].token == hash);
        }
    }
}

/// The reply to a request for a challenge.
pub open spec fn nonce_reply(nonce: Seq<char>) -> Json {
    obj().with("ok"@, Json::Bool(true)).with("nonce"@, Json::Text(nonce)).json()
}

/// Whether a user's stored key is the one that a challenge is asked for with.
pub open spec fn key_matches(stored: Lookup<String>, public_key: Seq<char>) -> Result<(), Refusal> {
    match stored {
        Lookup::Found(pk) => if pk@ == public_key {
            Ok(())
        } else {
            Err(Refusal::Unauthorized("Public key mismatch"@))
        },
        _ => Err(Refusal::NotFound("User not registered"@)),
    }
}

/// What a request for a challenge leads to; `encoded` is the nonce in base64.
pub open spec fn challenged(
    pending: Map<Seq<char>, Challenge>,
    stored: Lookup<String>,
    public_key: Seq<char>,
    encoded: Seq<char>,
    now: u64,
) -> Result<Effect, Refusal> {
    match key_matches(stored, public_key) {
        Err(e) => Err(e),
        Ok(_) => match issued(pending, now) {
            Err(e) => Err(e),
            Ok(_) => Ok(replying(nonce_reply(encoded))),
        },
    }
}

/// The pending challenges after a request for one.
pub open spec fn pending_after(
    pending: Map<Seq<char>, Challenge>,
    stored: Lookup<String>,
    username: Seq<char>,
    public_key: Seq<char>,
    nonce: Seq<u8>,
    now: u64,
) -> Map<Seq<char>, Challenge> {
    if key_matches(stored, public_key) is Ok {
        after_issue(pending, username, nonce, now)
    } else {
        pending
    }
}

/// What a request for a challenge with a given nonce leads to at a given moment.
pub fn challenge_at(
    store: &mut NonceStore,
    req: &ChallengeRequest,
    stored: &Lookup<String>,
    nonce: Vec<u8>,
    encoded: &str,
    now: u64,
) -> (res: Result<Outcome, AppError>)
    requires
        old(store).wf(),
    ensures
        final(store).wf(),
        told(res) == challenged(old(store)@, *stored, trimmed(req.public_key@), encoded@, now),
        final(store)@ == pending_after(
            old(store)@,
            *stored,
            trimmed(req.username@),
            trimmed(req.public_key@),
            nonce@,
            now,
        ),
{
    let username = trim(req.username.as_str());
    let public_key = trim(req.public_key.as_str());
    match stored {
        Lookup::Found(pk) => {
            if !same(pk.as_str(), public_key.as_str()) {
                return Err(unauthorized("Public key mismatch"));
            }
        },
        _ => return Err(not_found("User not registered")),
    }
    match store.issue(username.as_str(), nonce, now) {
        Err(e) => Err(e),
        Ok(_) => Ok(
            Outcome::replying(Fields::new().put_bool("ok", true).put_text("nonce", encoded).done()),
        ),
    }
}

/// Give a registered user a nonce to sign: 32 random bytes, sent in base64. What
/// is sent decodes to what is kept.
pub fn challenge(store: &mut NonceStore, req: &ChallengeRequest, stored: &Lookup<String>) -> (res: Result<
    Outcome,
    AppError,
>)
    requires
        old(store).wf(),
    ensures
        final(store).wf(),
        exists|nonce: Seq<u8>, now: u64|
            nonce.len() == 32 && base64_decoded(base64_encoded(nonce)) == Some(nonce) && told(res)
                == challenged(
                old(store)@,
                *stored,
                trimmed(req.public_key@),
                base64_encoded(nonce),
                now,
            ) && final(store)@ == #[trigger] pending_after(
                old(store)@,
                *stored,
                trimmed(req.username@),
                trimmed(req.public_key@),
                nonce,
                now,
            ),
{
    let nonce = generate_nonce();
    let encoded = base64_encode(nonce.as_slice());
    let now: u64 = store.now();
    challenge_at(store, req, stored, nonce, encoded.as_str(), now)
}

/// The key that an answer is checked with.
pub open spec fn key_of(stored: Lookup<String>) -> Result<Seq<char>, Refusal> {
    match stored {
        Lookup::Found(pk) => Ok(pk@),
        Lookup::Missing => Err(Refusal::NotFound("User not found"@)),
        Lookup::Failed(e) => Err(Refusal::Internal(e@)),
    }
}

/// What an answer to a challenge leads to: a token for the device of a user
/// whose signature is accepted.
pub open spec fn verified(
    username: Seq<char>,
    nonce: Result<Seq<u8>, Refusal>,
    stored: Lookup<String>,
    accepted: bool,
    token: Seq<char>,
    token_hash: Seq<char>,
) -> Result<Effect, Refusal> {
    match nonce {
        Err(e) => Err(e),
        Ok(_) => match key_of(stored) {
            Err(e) => Err(e),
            Ok(_) => if !accepted {
                Err(Refusal::Unauthorized("Invalid signature"@))
            } else {
                Ok(
                    replying(token_reply(token, username)).and_change(
                        Change::AddDeviceToken { username, token: token_hash },
                    ).and_change(Change::TouchSession { username }),
                )
            },
        },
    }
}

/// Whether the answer to a challenge is signed with the stored key.
pub open spec fn answer_fits(
    nonce: Result<Seq<u8>, Refusal>,
    stored: Lookup<String>,
    signature: Seq<char>,
) -> bool {
    match (nonce, key_of(stored)) {
        (Ok(n), Ok(pk)) => signed(pk, n, signature),
        _ => false,
    }
}

/// What an answer to a pending challenge leads to at a given moment.
pub open spec fn verified_at(
    pending: Map<Seq<char>, Challenge>,
    username: Seq<char>,
    signature: Seq<char>,
    stored: Lookup<String>,
    now: u64,
    token: Seq<char>,
    token_hash: Seq<char>,
) -> Result<Effect, Refusal> {
    let nonce = answered(pending, username, now);
    verified(username, nonce, stored, answer_fits(nonce, stored, signature), token, token_hash)
}

/// What an answer to a challenge leads to, once it is known whether the
/// signature is accepted.
pub fn verify_answer(
    username: &str,
    nonce: &Result<Vec<u8>, AppError>,
    stored: &Lookup<String>,
    accepted: bool,
    token: &str,
    token_hash: &str,
) -> (res: Result<Outcome, AppError>)
    ensures
        told(res) == verified(
            username@,
            shown_bytes(*nonce),
            *stored,
            accepted,
            token@,
            token_hash@,
        ),
{
    match nonce {
        Err(e) => return Err(e.copied()),
        Ok(_) => {},
    }
    match stored {
        Lookup::Found(_) => {},
        Lookup::Missing => return Err(not_found("User not found")),
        Lookup::Failed(e) => return Err(AppError::Internal(e.clone())),
    }
    if !accepted {
        return Err(unauthorized("Invalid signature"));
    }
    Ok(
        Outcome::replying(token_answer(token, username)).and_write(
            Write::AddDeviceToken { username: username.to_owned(), token: token_hash.to_owned() },
        ).and_write(Write::TouchSession { username: username.to_owned() }),
    )
}

/// Check the answer to a challenge, and give out a new token of 64 characters
/// where it is signed with the user's key. The challenge is gone afterwards.
pub fn verify(store: &mut NonceStore, req: &VerifyRequest, stored: &Lookup<String>) -> (res: Result<
    Outcome,
    AppError,
>)
    requires
        old(store).wf(),
    ensures
        final(store).wf(),
        final(store)@ == old(store)@.remove(trimmed(req.username@)),
        exists|now: u64, token: Seq<char>|
            token.len() == 64 && told(res) == #[trigger] verified_at(
                old(store)@,
                trimmed(req.username@),
                trimmed(req.signature@),
                *stored,
                now,
                token,
                token_hash(token),
            ),
{
    let username = trim(req.username.as_str());
    let signature = trim(req.signature.as_str());
    let now: u64 = store.now();
    let nonce = store.take(username.as_str(), now);
    let accepted = match (&nonce, stored) {
        (Ok(n), Lookup::Found(pk)) => verify_signature(pk.as_str(), n.as_slice(), signature.as_str()),
        _ => false,
    };
    let token = generate_token();
    let kept = hash_token(token.as_str());
    let res = verify_answer(username.as_str(), &nonce, stored, accepted, token.as_str(), kept.as_str());
    assert(told(res) == verified_at(
        old(store)@,
        trimmed(req.username@),
        trimmed(req.signature@),
        *stored,
        now,
        token@,
        token_hash(token@),
    ));
    res
}

/// A token is given out only for a signature that the user's stored key accepts
/// on the nonce that was issued to them less than a minute ago, and then it
/// belongs to that user.
pub proof fn a_token_needs_a_signature(
    pending: Map<Seq<char>, Challenge>,
    username: Seq<char>,
    now: u64,
    stored: Lookup<String>,
    signature: Seq<char>,
    db: GroupDb,
    token: Seq<char>,
    token_hash: Seq<char>,
)
    requires
        !db.device_tokens.contains_key(token_hash),
    ensures
        ({
            let nonce = answered(pending, username, now);
            let res = verified_at(pending, username, signature, stored, now, token, token_hash);
            &&& res is Ok <==> nonce is Ok && (stored matches Lookup::Found(pk) && signed(
                pk@,
                pending[username].nonce,
                signature,
            ))
            &&& res matches Ok(effect) ==> {
                &&& applied_all(db, effect.changes) == (GroupDb {
                    device_tokens: db.device_tokens.insert(token_hash, username),
                    ..db
                })
                &&& effect.notices.len() == 0
                &&& member_of(effect.reply, "ok"@) == Some(Json::Bool(true))
                &&& member_of(effect.reply, "token"@) == Some(Json::Text(token))
                &&& member_of(effect.reply, "username"@) == Some(Json::Text(username))
            }
            &&& nonce is Ok && stored is Found && res is Err ==> (res matches Err(Refusal::Unauthorized(_)))
        }),
{
    a_token_is_told(token, username);
    let res = verified_at(pending, username, signature, stored, now, token, token_hash);
    if res is Ok {
        first_changes(db, res->Ok_0.changes);
    }
}

/// A first registration stores a session with what was registered, without white
/// space around it, and the hash of the token. Whoever was no member becomes one,
/// where there is a group, with that display name and public key and with the
/// default role. Nothing else changes.
pub proof fn a_new_user_becomes_a_member(
    req: RegisterRequest,
    key: Option<Seq<u8>>,
    password_fits: bool,
    facts: RegisterFacts,
    default_role: Seq<char>,
    token: Seq<char>,
    token_hash: Seq<char>,
    db: GroupDb,
)
    requires
        true_of(facts, db, trimmed(req.username@)),
        !db.device_tokens.contains_key(token_hash),
        !db.sessions.contains_key(trimmed(req.username@)),
        registered(
            identity_of(req),
            key,
            password_fits,
            facts,
            default_role,
            token,
            token_hash,
        ) is Ok,
    ensures
        ({
            let effect = registered(
                identity_of(req),
                key,
                password_fits,
                facts,
                default_role,
                token,
                token_hash,
            )->Ok_0;
            let after = applied_all(db, effect.changes);
            let u = trimmed(req.username@);
            &&& after.sessions == db.sessions.insert(
                u,
                SessionRow {
                    display_name: trimmed(req.display_name@),
                    token: token_hash,
                    public_key: trimmed(req.public_key@),
                    password_hash: trimmed(req.password_hash@),
                },
            )
            &&& !db.members.contains_key(u) && some_found(facts.groups) ==> after.members == db.members.insert(
                u,
                MemberRow {
                    display_name: trimmed(req.display_name@),
                    public_key: trimmed(req.public_key@),
                    role: default_role,
                    role_id: None,
                },
            )
            &&& db.members.contains_key(u) || none_found(facts.groups) ==> after.members == db.members
            &&& after == (GroupDb {
                sessions: after.sessions,
                members: after.members,
                device_tokens: db.device_tokens.insert(token_hash, u),
                ..db
            })
        }),
{
    let effect = registered(
        identity_of(req),
        key,
        password_fits,
        facts,
        default_role,
        token,
        token_hash,
    )->Ok_0;
    first_changes(db, effect.changes);
}

/// A further registration renews the display name and the public key, in the
/// session and among the members; the role stays. Whoever is no member any more
/// becomes one again, where there is a group, with the default role; or as its
/// owner, where it has no members. Nothing else changes.
pub proof fn a_known_user_is_renewed(
    req: RegisterRequest,
    key: Option<Seq<u8>>,
    password_fits: bool,
    facts: RegisterFacts,
    default_role: Seq<char>,
    token: Seq<char>,
    token_hash: Seq<char>,
    db: GroupDb,
)
    requires
        true_of(facts, db, trimmed(req.username@)),
        !db.device_tokens.contains_key(token_hash),
        db.sessions.contains_key(trimmed(req.username@)),
        registered(
            identity_of(req),
            key,
            password_fits,
            facts,
            default_role,
            token,
            token_hash,
        ) is Ok,
    ensures
        ({
            let effect = registered(
                identity_of(req),
                key,
                password_fits,
                facts,
                default_role,
                token,
                token_hash,
            )->Ok_0;
            let after = applied_all(db, effect.changes);
            let u = trimmed(req.username@);
            let first = facts.members == Lookup::Found(0i64);
            &&& after.sessions == db.sessions.insert(
                u,
                SessionRow {
                    display_name: trimmed(req.display_name@),
                    public_key: trimmed(req.public_key@),
                    ..db.sessions[u]
                },
            )
            &&& db.members.contains_key(u) ==> after.members == db.members.insert(
                u,
                MemberRow {
                    display_name: trimmed(req.display_name@),
                    public_key: trimmed(req.public_key@),
                    ..db.members[u]
                },
            ) && after.info == db.info
            &&& !db.members.contains_key(u) && none_found(facts.groups) ==> after.members == db.members
                && after.info == db.info
            &&& !db.members.contains_key(u) && some_found(facts.groups) ==> {
                &&& after.members == db.members.insert(
                    u,
                    MemberRow {
                        display_name: trimmed(req.display_name@),
                        public_key: trimmed(req.public_key@),
                        role: if first {
                            "owner"@
                        } else {
                            default_role
                        },
                        role_id: None,
                    },
                )
                &&& first ==> after.info == (GroupInfo { owner_username: u, ..db.info })
                &&& !first ==> after.info == db.info
            }
            &&& after == (GroupDb {
                sessions: after.sessions,
                members: after.members,
                info: after.info,
                device_tokens: db.device_tokens.insert(token_hash, u),
                ..db
            })
        }),
{
    let effect = registered(
        identity_of(req),
        key,
        password_fits,
        facts,
        default_role,
        token,
        token_hash,
    )->Ok_0;
    first_changes(db, effect.changes);
}

/// A registration is accepted if and only if it has a name and a public key that
/// are not too long, the key decodes to 32 bytes, the user is not banned, a
/// password that was set fits, and what has to be known is known.
pub proof fn who_may_register(
    req: RegisterRequest,
    key: Option<Seq<u8>>,
    password_fits: bool,
    facts: RegisterFacts,
    default_role: Seq<char>,
    token: Seq<char>,
    token_hash: Seq<char>,
)
    ensures
        ({
            let res = registered(
                identity_of(req),
                key,
                password_fits,
                facts,
                default_role,
                token,
                token_hash,
            );
            let username = trimmed(req.username@);
            let sound = 0 < username.len() && 0 < trimmed(req.public_key@).len() && byte_count(username) <= 64
                && byte_count(trimmed(req.display_name@)) <= 128 && (key matches Some(bytes) && bytes.len()
                == 32);
            let guarded = facts.session matches Lookup::Found(s) && s.1@.len() > 0;
            &&& res is Ok <==> {
                &&& sound
                &&& !some_found(facts.bans)
                &&& guarded ==> password_fits
                &&& facts.memberships !is Failed
                &&& none_found(facts.memberships) ==> facts.groups !is Failed
                &&& none_found(facts.memberships) && some_found(facts.groups) && facts.session is Found
                    ==> facts.members is Found
            }
            &&& !sound ==> (res matches Err(Refusal::BadRequest(_)))
            &&& sound && some_found(facts.bans) ==> (res matches Err(Refusal::Forbidden(_)))
            &&& sound && !some_found(facts.bans) && guarded && !password_fits ==> (res matches Err(Refusal::Unauthorized(_)))
        }),
{
}

/// The password that guards a user is compared by the digests of both, whole.
pub proof fn a_password_fits_itself(session: Lookup<(String, String)>, password_hash: Seq<char>)
    ensures
        fits(session, password_hash) <==> (session matches Lookup::Found(s) && token_hash(s.1@) == token_hash(
            password_hash,
        )),
{
}

/// A challenge is given to a registered user who names their own public key, if
/// there is room for one more. The nonce that is told is the one that is kept,
/// and without a challenge nothing is kept for anyone.
pub proof fn a_challenge_is_told(
    pending: Map<Seq<char>, Challenge>,
    stored: Lookup<String>,
    username: Seq<char>,
    public_key: Seq<char>,
    nonce: Seq<u8>,
    encoded: Seq<char>,
    now: u64,
)
    ensures
        ({
            let res = challenged(pending, stored, public_key, encoded, now);
            let after = pending_after(pending, stored, username, public_key, nonce, now);
            let known = stored matches Lookup::Found(pk) && pk@ == public_key;
            let waiting = pending.restrict(
                pending.dom().filter(
                    |u: Seq<char>|
                        now < pending[u].issued_at || now - pending[u].issued_at < 60 * 1_000_000_000,
                ),
            );
            &&& res is Ok <==> known && waiting.len() < 10_000
            &&& stored is Found && !known ==> (res matches Err(Refusal::Unauthorized(_)))
            &&& stored !is Found ==> (res matches Err(Refusal::NotFound(_)))
            &&& !known ==> after == pending
            &&& res is Ok ==> after == waiting.insert(username, Challenge { nonce, issued_at: now })
            &&& known && res is Err ==> after == waiting
            &&& res matches Ok(effect) ==> {
                &&& effect.changes.len() == 0
                &&& effect.notices.len() == 0
                &&& member_of(effect.reply, "ok"@) == Some(Json::Bool(true))
                &&& member_of(effect.reply, "nonce"@) == Some(Json::Text(encoded))
            }
        }),
{
    broadcast use lookup_of_push;

    reveal_strlit("ok");
    reveal_strlit("nonce");
    let waiting = pending.dom().filter(
        |u: Seq<char>| now < pending[u].issued_at || now - pending[u].issued_at < 60 * 1_000_000_000,
    );
    assert(waiting =~= pending.dom().filter(|u: Seq<char>| is_fresh(pending[u], now)));
}

/// What is asked about someone who registers is asked about the name that they
/// register, without white space around it.
pub proof fn registering_asks_about_the_user(
    req: RegisterRequest,
    res: RegisterQueries,
)
    requires
        call_ensures(register_queries, (&req,), res),
    ensures
        asks(
            res.bans,
            "SELECT COUNT(*) FROM bans WHERE username = ?1"@,
            seq![Param::Text(trimmed(req.username@))],
        ),
        asks(
            res.session,
            "SELECT public_key, password_hash FROM sessions WHERE username = ?1"@,
            seq![Param::Text(trimmed(req.username@))],
        ),
        asks(
            res.memberships,
            "SELECT COUNT(*) FROM members WHERE username = ?1"@,
            seq![Param::Text(trimmed(req.username@))],
        ),
        asks(
            res.groups,
            "SELECT COUNT(*) FROM group_info WHERE id = 1"@,
            Seq::empty(),
        ),
        asks(
            res.members,
            "SELECT COUNT(*) FROM members"@,
            Seq::empty(),
        ),
{
}

/// The key that is asked for is that of the user, by their name without white
/// space around it.
pub proof fn the_key_is_that_of_the_user(
    username: &str,
    res: Query,
)
    requires
        call_ensures(key_query, (username,), res),
    ensures
        asks(
            res,
            "SELECT public_key FROM sessions WHERE username = ?1"@,
            seq![Param::Text(trimmed(username@))],
        ),
{
}

/// Registering refuses a public key that does not decode to 32 bytes, and a
/// password whose digest is not that of the one that guards the user.
pub proof fn registering_checks_key_and_password(
    req: RegisterRequest,
    facts: RegisterFacts,
    default_role: &str,
    res: Result<Outcome, AppError>,
)
    requires
        call_ensures(register, (&req, &facts, default_role), res),
    ensures
        res is Ok ==> (base64_decoded(trimmed(req.public_key@)) matches Some(key) && key.len() == 32),
        res is Ok ==> (facts.session matches Lookup::Found(s) ==> s.1@.len() == 0 || token_hash(s.1@)
            == token_hash(trimmed(req.password_hash@))),
        res matches Ok(outcome) ==> exists|token: Seq<char>|
            {
                &&& token.len() == 64
                &&& outcome@.changes.contains(
                    Change::AddDeviceToken {
                        username: trimmed(req.username@),
                        token: #[trigger] token_hash(token),
                    },
                )
                &&& member_of(outcome@.reply, "token"@) == Some(Json::Text(token))
            },
{
    let token = choose|token: Seq<char>|
        token.len() == 64 && told(res) == #[trigger] registered(
            identity_of(req),
            base64_decoded(trimmed(req.public_key@)),
            fits(facts.session, trimmed(req.password_hash@)),
            facts,
            default_role@,
            token,
            token_hash(token),
        );
    if let Ok(outcome) = res {
        a_token_is_told(token, trimmed(req.username@));
        let changes = outcome@.changes;
        assert(changes[1] == (Change::AddDeviceToken {
            username: trimmed(req.username@),
            token: token_hash(token),
        }));
        assert(changes.contains(changes[1]));
    }
}

/// An answer to a challenge of a user who is not there is refused as such, and one
/// without a challenge as malformed.
pub proof fn refusals_about_answers(
    pending: Map<Seq<char>, Challenge>,
    username: Seq<char>,
    now: u64,
    stored: Lookup<String>,
    signature: Seq<char>,
    token: Seq<char>,
    token_hash: Seq<char>,
)
    ensures
        ({
            let res = verified_at(pending, username, signature, stored, now, token, token_hash);
            &&& !pending.contains_key(username) ==> (res matches Err(Refusal::BadRequest(_)))
            &&& answered(pending, username, now) is Ok && stored is Missing ==> (res matches Err(
                Refusal::NotFound(_),
            ))
        }),
{
}

} // verus!
