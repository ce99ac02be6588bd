//! Tokens, challenges and signatures.

use crate::clock::{seconds_between, whole_seconds, Stopwatch};
use crate::crypto::{
    base64_decode, base64_decoded, base64_encode, base64_encoded, ed25519_accepts, ed25519_is_key,
    ed25519_key, ed25519_new_secret, ed25519_public, ed25519_public_key, ed25519_verify, hex_char,
    opt_bytes, random_32_bytes, sha256, sha256_digest,
};
use crate::error::{bad_request, shown, AppError, Lookup, Refusal};
use crate::json::opt_text;
use crate::query::{asks, Query};
use crate::store::Param;
use crate::text::{same, starts, strip_prefix};
use vstd::prelude::*;
use vstd::string::*;
use vstd::utf8::*;

verus! {

/// How long a challenge may be answered, in seconds.
pub const NONCE_TTL_SECS: u64 = 60;

/// How many challenges may be pending at a time.
pub const NONCE_MAX_ENTRIES: usize = 10_000;

/// The status code of a request without valid credentials.
pub const UNAUTHORIZED: u16 = 401;

/// A user whose token was accepted.
#[derive(Clone, Debug)]
pub struct AuthUser(pub String);

/// A lowercase hexadecimal digit.
pub open spec fn hex_digit(d: int) -> char {
    if d < 10 {
        ('0' as u32 + d) as char
    } else {
        ('a' as u32 + d - 10) as char
    }
}

/// Bytes in hexadecimal: two digits for each, the high one first.
pub open spec fn hex(bytes: Seq<u8>) -> Seq<char> {
    Seq::new(
        2 * bytes.len(),
        |i: int| hex_digit(if i % 2 == 0 { bytes[i / 2] / 16 } else { bytes[i / 2] % 16 } as int),
    )
}

fn hex_digit_of(d: u8) -> (res: char)
    requires
        d < 16,
    ensures
        res == hex_digit(d as int),
{
    if d < 10 {
        (48 + d) as char
    } else {
        (97 + (d - 10)) as char
    }
}

/// Bytes in hexadecimal.
pub fn hex_encode(bytes: &[u8]) -> (res: String)
    ensures
        res@ == hex(bytes@),
{
    let mut res = String::new();
    let mut i: usize = 0;
    while i < bytes.len()
        invariant
            i <= bytes@.len(),
            res@ == hex(bytes@.take(i as int)),
        decreases bytes@.len() - i,
    {
        let ghost before = res@;
        res.push(hex_digit_of(bytes[i] / 16));
        res.push(hex_digit_of(bytes[i] % 16));
        proof {
            let now = bytes@.take(i + 1);
            assert forall|k: int| 0 <= k < 2 * (i + 1) implies res@[k] == hex(now)[k] by {
                if k < 2 * i {
                    assert(before[k] == hex(bytes@.take(i as int))[k]);
                    assert(now[k / 2] == bytes@.take(i as int)[k / 2]);
                } else {
                    assert(k / 2 == i as int);
                }
            }
            assert(res@ =~= hex(now));
        }
        i += 1;
    }
    assert(bytes@.take(bytes@.len() as int) =~= bytes@);
    res
}

/// Hexadecimal text has two lowercase digits for each byte.
pub proof fn hex_has_two_digits_a_byte(bytes: Seq<u8>)
    ensures
        hex(bytes).len() == 2 * bytes.len(),
        forall|i: int| 0 <= i < hex(bytes).len() ==> hex_char(#[trigger] hex(bytes)[i]),
{
}

/// Bytes that differ have hexadecimal texts that differ.
pub proof fn hex_tells_bytes_apart(a: Seq<u8>, b: Seq<u8>)
    requires
        hex(a) == hex(b),
    ensures
        a == b,
{
    assert(hex(a).len() == 2 * a.len());
    assert(hex(b).len() == 2 * b.len());
    assert forall|i: int| 0 <= i < a.len() implies a[i] == b[i] by {
        assert(hex(a)[2 * i] == hex(b)[2 * i]);
        assert(hex(a)[2 * i + 1] == hex(b)[2 * i + 1]);
        assert((2 * i) / 2 == i && (2 * i + 1) / 2 == i && (2 * i + 1) % 2 == 1);
        assert((2 * i) % 2 == 0);
        assert(hex(a)[2 * i] == hex_digit((a[i] / 16) as int));
        assert(hex(b)[2 * i] == hex_digit((b[i] / 16) as int));
        assert(hex(a)[2 * i + 1] == hex_digit((a[i] % 16) as int));
        assert(hex(b)[2 * i + 1] == hex_digit((b[i] % 16) as int));
        same_digit((a[i] / 16) as int, (b[i] / 16) as int);
        same_digit((a[i] % 16) as int, (b[i] % 16) as int);
    }
    assert(a =~= b);
}

proof fn same_digit(d: int, e: int)
    requires
        0 <= d < 16,
        0 <= e < 16,
        hex_digit(d) == hex_digit(e),
    ensures
        d == e,
{
}

/// A new token: 32 random bytes in hexadecimal.
pub fn generate_token() -> (res: String)
    ensures
        res@.len() == 64,
        forall|i: int| 0 <= i < 64 ==> hex_char(#[trigger] res@[i]),
{
    let bytes = random_32_bytes();
    proof {
        hex_has_two_digits_a_byte(bytes@);
    }
    hex_encode(bytes.as_slice())
}

/// What a token is kept as: the SHA-256 digest of its UTF-8 encoding, in
/// hexadecimal.
pub open spec fn token_hash(token: Seq<char>) -> Seq<char> {
    hex(sha256(encode_utf8(token)))
}

/// What a token is kept as.
pub fn hash_token(token: &str) -> (res: String)
    ensures
        res@ == token_hash(token@),
        res@.len() == 64,
{
    let digest = sha256_digest(token.as_bytes());
    hex_encode(digest.as_slice())
}

/// A new nonce: 32 random bytes.
pub fn generate_nonce() -> (res: Vec<u8>)
    ensures
        res@.len() == 32,
{
    random_32_bytes()
}

/// A new key pair of a group: the public key in base64 and the secret key.
pub fn generate_group_keypair() -> (res: (String, Vec<u8>))
    ensures
        res.1@.len() == 32,
        res.0@ == base64_encoded(ed25519_public(res.1@)),
        base64_decoded(res.0@) == Some(ed25519_public(res.1@)),
{
    let secret = ed25519_new_secret();
    let public = ed25519_public_key(secret.as_slice());
    (base64_encode(public.as_slice()), secret)
}

/// Whether the texts of a public key and of a signature, decoded, are a key and
/// a signature of it on the nonce.
pub open spec fn signed_bytes(
    key: Option<Seq<u8>>,
    nonce: Seq<u8>,
    signature: Option<Seq<u8>>,
) -> bool {
    match (key, signature) {
        (Some(k), Some(s)) => k.len() == 32 && s.len() == 64 && ed25519_key(k) && ed25519_accepts(
            k,
            nonce,
            s,
        ),
        _ => false,
    }
}

/// Whether a signature in base64 is one on the nonce that the public key, in
/// base64, accepts.
pub open spec fn signed(key: Seq<char>, nonce: Seq<u8>, signature: Seq<char>) -> bool {
    signed_bytes(base64_decoded(key), nonce, base64_decoded(signature))
}

/// Whether decoded bytes are a key and a signature of it on the nonce.
pub fn verify_decoded(key: &Option<Vec<u8>>, nonce: &[u8], signature: &Option<Vec<u8>>) -> (res: bool)
    ensures
        res == signed_bytes(opt_bytes(*key), nonce@, opt_bytes(*signature)),
{
    match (key, signature) {
        (Some(k), Some(s)) => {
            k.len() == 32 && s.len() == 64 && ed25519_is_key(k.as_slice()) && ed25519_verify(
                k.as_slice(),
                nonce,
                s.as_slice(),
            )
        },
        _ => false,
    }
}

/// Whether a signature in base64 is one on the nonce that the public key, in
/// base64, accepts.
pub fn verify_signature(public_key_b64: &str, nonce: &[u8], signature_b64: &str) -> (res: bool)
    ensures
        res == signed(public_key_b64@, nonce@, signature_b64@),
{
    verify_decoded(&base64_decode(public_key_b64), nonce, &base64_decode(signature_b64))
}

/// What to ask about a token: whose device it is on, and whose session it is of,
/// both by its hash.
pub fn token_queries(token: &str) -> (res: (Query, Query))
    ensures
        res.0 matches Query::DeviceOwner { token: t } && t@ == token_hash(token@),
        res.1 matches Query::SessionOwner { token: t } && t@ == token_hash(token@),
{
    (Query::DeviceOwner { token: hash_token(token) }, Query::SessionOwner { token: hash_token(token) })
}

/// The user that the hash of a token belongs to: the device tokens come first,
/// and a session's own token stands in where they know nothing.
pub open spec fn token_owner(device: Lookup<String>, session: Lookup<String>) -> Option<Seq<char>> {
    match (device, session) {
        (Lookup::Found(u), _) => Some(u@),
        (_, Lookup::Found(u)) => Some(u@),
        _ => None,
    }
}

/// The user that a token belongs to, from what the device tokens and the
/// sessions hold under its hash.
pub fn resolve_token(device: &Lookup<String>, session: &Lookup<String>) -> (res: Option<String>)
    ensures
        opt_text(res) == token_owner(*device, *session),
{
    match (device, session) {
        (Lookup::Found(u), _) => Some(u.clone()),
        (_, Lookup::Found(u)) => Some(u.clone()),
        _ => None,
    }
}

/// The token in an `Authorization` header.
pub open spec fn bearer(header: Option<Seq<char>>) -> Option<Seq<char>> {
    match header {
        Some(h) if starts(h, "Bearer "@) => Some(h.skip("Bearer "@.len() as int)),
        _ => None,
    }
}

/// The token in an `Authorization` header.
pub fn bearer_token(header: &Option<String>) -> (res: Option<String>)
    ensures
        opt_text(res) == bearer(opt_text(*header)),
{
    match header {
        Some(h) => strip_prefix(h.as_str(), "Bearer "),
        None => None,
    }
}

/// The model of an authenticated user.
pub open spec fn user_of(r: Result<AuthUser, u16>) -> Result<Seq<char>, u16> {
    match r {
        Ok(u) => Ok(u.0@),
        Err(status) => Err(status),
    }
}

/// Who makes a request, or the status code that it is refused with.
pub open spec fn authenticated(
    header: Option<Seq<char>>,
    device: Lookup<String>,
    session: Lookup<String>,
) -> Result<Seq<char>, u16> {
    match (bearer(header), token_owner(device, session)) {
        (Some(_), Some(u)) => Ok(u),
        _ => Err(UNAUTHORIZED),
    }
}

/// Who makes a request, from its `Authorization` header and from what the
/// database holds under the hash of the token in it; or the status code that it
/// is refused with.
pub fn auth_middleware(
    header: &Option<String>,
    device: &Lookup<String>,
    session: &Lookup<String>,
) -> (res: Result<AuthUser, u16>)
    ensures
        user_of(res) == authenticated(opt_text(*header), *device, *session),
{
    match bearer_token(header) {
        None => Err(UNAUTHORIZED),
        Some(_) => match resolve_token(device, session) {
            Some(u) => Ok(AuthUser(u)),
            None => Err(UNAUTHORIZED),
        },
    }
}

/// A pending challenge.
pub struct NonceEntry {
    username: String,
    nonce: Vec<u8>,
    issued_at: u64,
}

/// The model of a pending challenge: the nonce, and when it was issued in
/// nanoseconds.
pub struct Challenge {
    pub nonce: Seq<u8>,
    pub issued_at: u64,
}

/// The pending challenges, at most one for each user. They are kept in a list, and
/// not in a map by name: dropping the old ones walks over all of them, which
/// vstd's map with text keys does not offer.
pub struct NonceStore {
    clock: Stopwatch,
    entries: Vec<NonceEntry>,
}

impl NonceEntry {
    closed spec fn model(self) -> Challenge {
        Challenge { nonce: self.nonce@, issued_at: self.issued_at }
    }
}

spec fn pending(entries: Seq<NonceEntry>) -> Map<Seq<char>, Challenge>
    decreases entries.len(),
{
    if entries.len() == 0 {
        Map::empty()
    } else {
        pending(entries.drop_last()).insert(entries.last().username@, entries.last().model())
    }
}

spec fn unique(entries: Seq<NonceEntry>) -> bool {
    forall|i: int, j: int|
        0 <= i < j < entries.len() ==> #[trigger] entries[i].username@ != #[trigger] entries[j].username@
}

/// Whether a challenge may still be answered.
pub open spec fn is_fresh(c: Challenge, now: u64) -> bool {
    seconds_between(c.issued_at, now) < NONCE_TTL_SECS
}

/// The challenges that may still be answered.
pub open spec fn fresh(m: Map<Seq<char>, Challenge>, now: u64) -> Map<Seq<char>, Challenge> {
    m.restrict(m.dom().filter(|u: Seq<char>| is_fresh(m[u], now)))
}

proof fn pending_has(entries: Seq<NonceEntry>, u: Seq<char>)
    ensures
        pending(entries).dom().finite(),
        unique(entries) ==> pending(entries).len() == entries.len(),
        pending(entries).contains_key(u) <==> exists|i: int|
            0 <= i < entries.len() && #[trigger] entries[i].username@ == u,
        unique(entries) ==> forall|i: int|
            0 <= i < entries.len() ==> pending(entries)[#[trigger] entries[i].username@]
                == entries[i].model(),
    decreases entries.len(),
{
    if entries.len() > 0 {
        let rest = entries.drop_last();
        let last = entries.last();
        pending_has(rest, u);
        pending_has(rest, last.username@);
        if pending(entries).contains_key(u) {
            if u == last.username@ {
                assert(entries[entries.len() - 1].username@ == u);
            } else {
                let i = choose|i: int| 0 <= i < rest.len() && #[trigger] rest[i].username@ == u;
                assert(entries[i].username@ == u);
            }
        }
        if exists|i: int| 0 <= i < entries.len() && #[trigger] entries[i].username@ == u {
            let i = choose|i: int| 0 <= i < entries.len() && #[trigger] entries[i].username@ == u;
            if i < rest.len() {
                assert(rest[i].username@ == u);
            }
        }
        if unique(entries) {
            assert(unique(rest)) by {
                assert forall|i: int, j: int| 0 <= i < j < rest.len() implies #[trigger] rest[i].username@
                    != #[trigger] rest[j].username@ by {
                    assert(entries[i].username@ != entries[j].username@);
                }
            }
            if pending(rest).contains_key(last.username@) {
                let i = choose|i: int|
                    0 <= i < rest.len() && #[trigger] rest[i].username@ == last.username@;
                assert(entries[i].username@ != entries[entries.len() - 1].username@);
            }
            assert forall|i: int| 0 <= i < entries.len() implies pending(entries)[#[trigger] entries[i].username@]
                == entries[i].model() by {
                if i < rest.len() {
                    assert(rest[i].username@ == entries[i].username@);
                    assert(entries[i].username@ != entries[entries.len() - 1].username@);
                }
            }
        }
    }
}

impl View for NonceStore {
    type V = Map<Seq<char>, Challenge>;

    closed spec fn view(&self) -> Map<Seq<char>, Challenge> {
        pending(self.entries@)
    }
}

/// A store without pending challenges.
pub fn new_nonce_store() -> (res: NonceStore)
    ensures
        res.wf(),
        res@ == Map::<Seq<char>, Challenge>::empty(),
{
    NonceStore { clock: Stopwatch::start(), entries: Vec::new() }
}

/// What the store holds after a challenge was asked for.
pub open spec fn after_issue(
    m: Map<Seq<char>, Challenge>,
    username: Seq<char>,
    nonce: Seq<u8>,
    now: u64,
) -> Map<Seq<char>, Challenge> {
    if fresh(m, now).len() >= NONCE_MAX_ENTRIES {
        fresh(m, now)
    } else {
        fresh(m, now).insert(username, Challenge { nonce, issued_at: now })
    }
}

/// Whether a challenge is issued.
pub open spec fn issued(m: Map<Seq<char>, Challenge>, now: u64) -> Result<(), Refusal> {
    if fresh(m, now).len() >= NONCE_MAX_ENTRIES {
        Err(Refusal::BadRequest("Too many pending challenges, try again later"@))
    } else {
        Ok(())
    }
}

/// The nonce that a user's answer is checked against.
pub open spec fn answered(
    m: Map<Seq<char>, Challenge>,
    username: Seq<char>,
    now: u64,
) -> Result<Seq<u8>, Refusal> {
    if !m.contains_key(username) {
        Err(Refusal::BadRequest("No pending challenge for this user"@))
    } else if !is_fresh(m[username], now) {
        Err(Refusal::BadRequest("Challenge expired, request a new one"@))
    } else {
        Ok(m[username].nonce)
    }
}

/// A result with its bytes and its refusal taken by their models.
pub open spec fn shown_bytes(r: Result<Vec<u8>, AppError>) -> Result<Seq<u8>, Refusal> {
    match r {
        Ok(v) => Ok(v@),
        Err(e) => Err(e@),
    }
}

impl NonceStore {
    /// No user has two challenges, and there are not too many.
    pub closed spec fn wf(&self) -> bool {
        unique(self.entries@) && self.entries@.len() <= NONCE_MAX_ENTRIES
    }

    /// The nanoseconds since the store was made.
    pub fn now(&self) -> u64 {
        self.clock.read()
    }

    /// Take one challenge out.
    fn remove_at(&mut self, i: usize) -> (res: NonceEntry)
        requires
            old(self).wf(),
            i < old(self).entries@.len(),
        ensures
            final(self).wf(),
            res == old(self).entries@[i as int],
            final(self).entries@ == old(self).entries@.remove(i as int),
            old(self)@.contains_key(res.username@),
            old(self)@[res.username@] == res.model(),
            final(self)@ == old(self)@.remove(res.username@),
    {
        let ghost all = self.entries@;
        let e = self.entries.remove(i);
        proof {
            let rest = self.entries@;
            let name = e.username@;
            assert(all[i as int].username@ == name);
            assert(unique(rest)) by {
                assert forall|a: int, b: int| 0 <= a < b < rest.len() implies #[trigger] rest[a].username@
                    != #[trigger] rest[b].username@ by {
                    let a0 = if a < i { a } else { a + 1 };
                    let b0 = if b < i { b } else { b + 1 };
                    assert(all[a0].username@ != all[b0].username@);
                }
            }
            pending_has(all, name);
            assert forall|u: Seq<char>| pending(rest).contains_key(u) <==> pending(all).remove(
                name,
            ).contains_key(u) by {
                pending_has(rest, u);
                pending_has(all, u);
                if pending(rest).contains_key(u) {
                    let a = choose|a: int| 0 <= a < rest.len() && #[trigger] rest[a].username@ == u;
                    let a0 = if a < i { a } else { a + 1 };
                    assert(all[a0].username@ == u);
                    if a0 < i {
                        assert(all[a0].username@ != all[i as int].username@);
                    } else {
                        assert(all[i as int].username@ != all[a0].username@);
                    }
                }
                if pending(all).remove(name).contains_key(u) {
                    let a = choose|a: int| 0 <= a < all.len() && #[trigger] all[a].username@ == u;
                    let a0 = if a < i { a } else { a - 1 };
                    assert(rest[a0].username@ == u);
                }
            }
            assert forall|u: Seq<char>| pending(rest).contains_key(u) implies pending(rest)[u]
                == pending(all)[u] by {
                pending_has(rest, u);
                let a = choose|a: int| 0 <= a < rest.len() && #[trigger] rest[a].username@ == u;
                let a0 = if a < i { a } else { a + 1 };
                assert(all[a0].username@ == u);
                assert(pending(all)[all[a0].username@] == all[a0].model());
                assert(pending(rest)[rest[a].username@] == rest[a].model());
            }
            assert(pending(rest) =~= pending(all).remove(name));
        }
        e
    }

    /// Drop the challenges that are too old to be answered.
    fn prune(&mut self, now: u64)
        requires
            old(self).wf(),
        ensures
            final(self).wf(),
            final(self)@ == fresh(old(self)@, now),
    {
        let mut i: usize = 0;
        while i < self.entries.len()
            invariant
                i <= self.entries@.len(),
                self.wf(),
                fresh(self@, now) == fresh(old(self)@, now),
                forall|j: int| 0 <= j < i ==> is_fresh(#[trigger] self.entries@[j].model(), now),
            decreases self.entries@.len() - i,
        {
            if whole_seconds(self.entries[i].issued_at, now) < NONCE_TTL_SECS {
                i += 1;
            } else {
                let ghost before = self@;
                let ghost all = self.entries@;
                let e = self.remove_at(i);
                proof {
                    assert(fresh(self@, now) =~= fresh(before, now));
                    assert forall|j: int| 0 <= j < i implies is_fresh(#[trigger] self.entries@[j].model(), now) by {
                        assert(self.entries@[j] == all[j]);
                        assert(is_fresh(all[j].model(), now));
                    }
                }
            }
        }
        proof {
            let all = self.entries@;
            assert forall|u: Seq<char>| pending(all).contains_key(u) implies is_fresh(pending(all)[u], now) by {
                pending_has(all, u);
                let j = choose|j: int| 0 <= j < all.len() && #[trigger] all[j].username@ == u;
                assert(pending(all)[all[j].username@] == all[j].model());
            }
            assert(self@ =~= fresh(self@, now));
        }
    }

    /// Take the challenge of a user out.
    fn remove(&mut self, username: &str) -> (res: Option<NonceEntry>)
        requires
            old(self).wf(),
        ensures
            final(self).wf(),
            final(self).entries@.len() <= old(self).entries@.len(),
            final(self)@ == old(self)@.remove(username@),
            match res {
                Some(e) => old(self)@.contains_key(username@) && e.model() == old(self)@[username@],
                None => !old(self)@.contains_key(username@),
            },
    {
        let mut i: usize = 0;
        while i < self.entries.len()
            invariant
                i <= self.entries@.len(),
                *self == *old(self),
                self.wf(),
                forall|j: int| 0 <= j < i ==> #[trigger] self.entries@[j].username@ != username@,
            decreases self.entries@.len() - i,
        {
            if same(self.entries[i].username.as_str(), username) {
                return Some(self.remove_at(i));
            }
            i += 1;
        }
        proof {
            pending_has(self.entries@, username@);
            assert(self@ =~= self@.remove(username@));
        }
        None
    }

    /// Issue a challenge at a given time. The challenges that are too old make
    /// room first, and an earlier one of the same user is replaced.
    pub fn issue(&mut self, username: &str, nonce: Vec<u8>, now: u64) -> (res: Result<(), AppError>)
        requires
            old(self).wf(),
        ensures
            final(self).wf(),
            shown(res) == issued(old(self)@, now),
            final(self)@ == after_issue(old(self)@, username@, nonce@, now),
    {
        self.prune(now);
        proof {
            pending_has(self.entries@, username@);
        }
        if self.entries.len() >= NONCE_MAX_ENTRIES {
            return Err(bad_request("Too many pending challenges, try again later"));
        }
        let ghost m = self@;
        let gone = self.remove(username);
        let ghost rest = self.entries@;
        let entry = NonceEntry { username: username.to_owned(), nonce, issued_at: now };
        proof {
            pending_has(rest, username@);
        }
        self.entries.push(entry);
        proof {
            let all = self.entries@;
            assert(all.drop_last() =~= rest);
            assert forall|a: int, b: int| 0 <= a < b < all.len() implies #[trigger] all[a].username@
                != #[trigger] all[b].username@ by {
                assert(rest[a].username@ == all[a].username@);
                if b < rest.len() {
                    assert(rest[a].username@ != rest[b].username@);
                }
            }
            assert(pending(all) =~= m.insert(username@, entry.model()));
        }
        Ok(())
    }

    /// Take a user's challenge at a given time to check an answer to it. It is
    /// gone afterwards, whatever the answer.
    pub fn take(&mut self, username: &str, now: u64) -> (res: Result<Vec<u8>, AppError>)
        requires
            old(self).wf(),
        ensures
            final(self).wf(),
            shown_bytes(res) == answered(old(self)@, username@, now),
            final(self)@ == old(self)@.remove(username@),
    {
        match self.remove(username) {
            None => Err(bad_request("No pending challenge for this user")),
            Some(e) => {
                if whole_seconds(e.issued_at, now) >= NONCE_TTL_SECS {
                    Err(bad_request("Challenge expired, request a new one"))
                } else {
                    Ok(e.nonce)
                }
            },
        }
    }
}

/// A challenge can be answered once: after an answer, whatever it was, there is
/// nothing left to answer.
pub proof fn a_challenge_is_answered_once(
    m: Map<Seq<char>, Challenge>,
    username: Seq<char>,
    now: u64,
)
    ensures
        answered(m.remove(username), username, now) is Err,
{
}

/// A challenge that was issued is answered with its own nonce for less than a
/// minute, and not after that.
pub proof fn a_challenge_lasts_a_minute(
    m: Map<Seq<char>, Challenge>,
    username: Seq<char>,
    nonce: Seq<u8>,
    issued_at: u64,
    now: u64,
)
    requires
        issued(m, issued_at) is Ok,
        issued_at <= now,
    ensures
        answered(after_issue(m, username, nonce, issued_at), username, now) == (if now - issued_at
            < 60 * 1_000_000_000 {
            Ok(nonce)
        } else {
            Err::<Seq<u8>, Refusal>(Refusal::BadRequest("Challenge expired, request a new one"@))
        }),
{
}

/// A new challenge replaces an earlier one of the same user and leaves the ones
/// of other users alone, apart from those that are too old.
pub proof fn a_challenge_replaces_the_last(
    m: Map<Seq<char>, Challenge>,
    username: Seq<char>,
    nonce: Seq<u8>,
    now: u64,
    other: Seq<char>,
)
    requires
        issued(m, now) is Ok,
    ensures
        after_issue(m, username, nonce, now)[username] == (Challenge { nonce, issued_at: now }),
        other != username && m.contains_key(other) && is_fresh(m[other], now) ==> after_issue(
            m,
            username,
            nonce,
            now,
        ).contains_key(other) && after_issue(m, username, nonce, now)[other] == m[other],
        other != username && after_issue(m, username, nonce, now).contains_key(other)
            ==> m.contains_key(other) && after_issue(m, username, nonce, now)[other] == m[other],
{
}

/// A bearer token is what follows `Bearer ` in the header.
pub proof fn a_bearer_token_is_in_the_header(token: Seq<char>)
    ensures
        bearer(Some("Bearer "@ + token)) == Some(token),
        bearer(None) is None,
{
    let header = "Bearer "@ + token;
    assert(header.subrange(0, "Bearer "@.len() as int) =~= "Bearer "@);
    assert(header.skip("Bearer "@.len() as int) =~= token);
}

/// A request with a bearer token is that of the user whose device the token is on
/// or, where it is on none, of the user whose session it is of. One without a
/// token, or whose token is nobody's, is refused with the status 401.
pub proof fn requests_are_those_of_the_tokens_user(
    token: Seq<char>,
    header: Option<Seq<char>>,
    device: Lookup<String>,
    session: Lookup<String>,
)
    ensures
        device matches Lookup::Found(u) ==> authenticated(Some("Bearer "@ + token), device, session) == Ok::<
            Seq<char>,
            u16,
        >(u@),
        device !is Found ==> (session matches Lookup::Found(u) ==> authenticated(
            Some("Bearer "@ + token),
            device,
            session,
        ) == Ok::<Seq<char>, u16>(u@)),
        device !is Found && session !is Found ==> authenticated(header, device, session) == Err::<
            Seq<char>,
            u16,
        >(401),
        header is None ==> authenticated(header, device, session) == Err::<Seq<char>, u16>(401),
{
    a_bearer_token_is_in_the_header(token);
}

/// A byte in hexadecimal is its high digit before its low one.
pub proof fn a_byte_is_two_digits(b: u8)
    ensures
        hex(seq![b]).len() == 2,
        hex(seq![b])[0] == hex_digit((b / 16) as int),
        hex(seq![b])[1] == hex_digit((b % 16) as int),
        forall|d: int| 0 <= d < 10 ==> #[trigger] hex_digit(d) as int == '0' as int + d,
        forall|d: int| 10 <= d < 16 ==> #[trigger] hex_digit(d) as int == 'a' as int + d - 10,
{
}

/// A signature is accepted if and only if it and the public key can be decoded,
/// have their sizes, and the key accepts the signature on the nonce.
pub proof fn signatures_are_checked_with_the_key(key: Seq<char>, nonce: Seq<u8>, signature: Seq<char>)
    ensures
        signed(key, nonce, signature) <==> {
            &&& base64_decoded(key) matches Some(k) && k.len() == 32 && ed25519_key(k)
            &&& base64_decoded(signature) matches Some(s) && s.len() == 64 && ed25519_accepts(
                base64_decoded(key)->Some_0,
                nonce,
                s,
            )
        },
{
}

/// A token is looked for by its hash, among those of the devices and those of the
/// sessions.
pub proof fn a_token_is_looked_for_by_its_hash(token: &str, res: (Query, Query))
    requires
        call_ensures(token_queries, (token,), res),
    ensures
        asks(
            res.0,
            "SELECT username FROM device_tokens WHERE token = ?1"@,
            seq![Param::Text(hex(sha256(encode_utf8(token@))))],
        ),
        asks(
            res.1,
            "SELECT username FROM sessions WHERE token = ?1"@,
            seq![Param::Text(hex(sha256(encode_utf8(token@))))],
        ),
{
}

} // verus!
