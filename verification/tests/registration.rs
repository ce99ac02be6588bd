use base64::Engine;
use ed25519_dalek::Signer;
use onyx_server::auth::{hash_token, new_nonce_store};
use onyx_server::clock::SECOND;
use onyx_server::error::{AppError, Lookup};
use onyx_server::handlers::auth_handlers::{
    challenge, challenge_at, register, register_decoded, verify, verify_answer, RegisterFacts,
};
use onyx_server::json::JsonValue;
use onyx_server::models::session::{ChallengeRequest, RegisterRequest, VerifyRequest};
use onyx_server::outcome::Outcome;
use onyx_server::store::Write;

fn request() -> RegisterRequest {
    RegisterRequest {
        username: " ann ".to_string(),
        display_name: "Ann".to_string(),
        public_key: base64::engine::general_purpose::STANDARD.encode([9u8; 32]),
        password_hash: "secret".to_string(),
    }
}

fn facts() -> RegisterFacts {
    RegisterFacts {
        bans: Lookup::Found(0),
        session: Lookup::Missing,
        memberships: Lookup::Found(0),
        groups: Lookup::Found(1),
        members: Lookup::Found(2),
    }
}

fn text_of(outcome: &Outcome, key: &str) -> String {
    match outcome.reply.get(key) {
        Some(JsonValue::Text(s)) => s.clone(),
        _ => panic!("no text"),
    }
}

#[test]
fn a_new_user_gets_a_session_a_token_and_membership() {
    let out = register(&request(), &facts(), "member").unwrap();
    let token = text_of(&out, "token");
    assert_eq!(token.len(), 64);
    assert_eq!(text_of(&out, "username"), "ann");
    assert_eq!(out.writes.len(), 3);
    assert!(matches!(&out.writes[0], Write::InsertSession { username, token: t, password_hash, .. }
        if username == "ann" && *t == hash_token(&token) && password_hash == "secret"));
    assert!(matches!(&out.writes[1], Write::AddDeviceToken { username, token: t }
        if username == "ann" && *t == hash_token(&token)));
    assert!(matches!(&out.writes[2], Write::InsertMemberIfAbsent { role, .. } if role == "member"));
    let statement = out.writes[1].statement();
    assert_eq!(statement.sql, "INSERT OR IGNORE INTO device_tokens (username, token) VALUES (?1, ?2)");
    assert_eq!(statement.params.len(), 2);
}

#[test]
fn a_known_user_needs_the_password() {
    let mut known = facts();
    known.session = Lookup::Found(("key".to_string(), "secret".to_string()));
    known.memberships = Lookup::Found(1);
    let out = register(&request(), &known, "member").unwrap();
    assert!(matches!(&out.writes[0], Write::UpdateSessionIdentity { username, .. } if username == "ann"));
    assert!(matches!(&out.writes[2], Write::UpdateMemberIdentity { .. }));
    let mut wrong = request();
    wrong.password_hash = "guess".to_string();
    assert!(matches!(register(&wrong, &known, "member"),
        Err(AppError::Unauthorized(m)) if m == "Invalid password"));
    known.session = Lookup::Found(("key".to_string(), "".to_string()));
    assert!(register(&wrong, &known, "member").is_ok());
}

#[test]
fn a_user_who_comes_back_to_an_empty_group_owns_it() {
    let mut back = facts();
    back.session = Lookup::Found(("key".to_string(), "".to_string()));
    back.members = Lookup::Found(0);
    let out = register_decoded(&request(), &Some(vec![0; 32]), false, &back, "member", "tok", "hash").unwrap();
    assert!(matches!(&out.writes[2], Write::InsertMember { role, .. } if role == "owner"));
    assert!(matches!(&out.writes[3], Write::SetGroupOwner { username } if username == "ann"));
    back.members = Lookup::Found(5);
    let out = register_decoded(&request(), &Some(vec![0; 32]), false, &back, "guest", "tok", "hash").unwrap();
    assert_eq!(out.writes.len(), 3);
    assert!(matches!(&out.writes[2], Write::InsertMember { role, .. } if role == "guest"));
    back.groups = Lookup::Found(0);
    let out = register_decoded(&request(), &Some(vec![0; 32]), false, &back, "guest", "tok", "hash").unwrap();
    assert_eq!(out.writes.len(), 2);
}

#[test]
fn registrations_are_refused() {
    let refused = |change: &dyn Fn(&mut RegisterRequest, &mut RegisterFacts)| {
        let mut r = request();
        let mut f = facts();
        change(&mut r, &mut f);
        register(&r, &f, "member").err().unwrap()
    };
    assert!(matches!(refused(&|r, _| r.username = "  ".to_string()),
        AppError::BadRequest(m) if m == "username and public_key required"));
    assert!(matches!(refused(&|r, _| r.username = "u".repeat(65)),
        AppError::BadRequest(m) if m == "username or display_name too long"));
    assert!(matches!(refused(&|r, _| r.display_name = "d".repeat(129)),
        AppError::BadRequest(m) if m == "username or display_name too long"));
    assert!(matches!(refused(&|r, _| r.public_key = "%%%".to_string()),
        AppError::BadRequest(m) if m == "invalid base64 public_key"));
    assert!(matches!(refused(&|r, _| r.public_key = "AAAA".to_string()),
        AppError::BadRequest(m) if m == "public_key must be 32 bytes (Ed25519)"));
    assert!(matches!(refused(&|_, f| f.bans = Lookup::Found(1)),
        AppError::Forbidden(m) if m == "You are banned from this server"));
    assert!(matches!(refused(&|_, f| f.memberships = Lookup::Failed("db".to_string())),
        AppError::Internal(m) if m == "db"));
}

#[test]
fn a_challenge_is_answered_with_a_signature() {
    let key = ed25519_dalek::SigningKey::from_bytes(&[3u8; 32]);
    let public = base64::engine::general_purpose::STANDARD.encode(key.verifying_key().to_bytes());
    let stored = Lookup::Found(public.clone());
    let mut store = new_nonce_store();
    let asked = ChallengeRequest { username: "ann".to_string(), public_key: format!(" {} ", public) };
    let out = challenge(&mut store, &asked, &stored).unwrap();
    let nonce = base64::engine::general_purpose::STANDARD.decode(text_of(&out, "nonce")).unwrap();
    assert_eq!(nonce.len(), 32);
    let signature = base64::engine::general_purpose::STANDARD.encode(key.sign(&nonce).to_bytes());
    let answer = VerifyRequest { username: "ann".to_string(), signature };
    let out = verify(&mut store, &answer, &stored).unwrap();
    let token = text_of(&out, "token");
    assert!(matches!(&out.writes[0], Write::AddDeviceToken { token: t, .. } if *t == hash_token(&token)));
    assert!(matches!(&out.writes[1], Write::TouchSession { username } if username == "ann"));
    assert!(matches!(verify(&mut store, &answer, &stored),
        Err(AppError::BadRequest(m)) if m == "No pending challenge for this user"));
}

#[test]
fn challenges_are_refused() {
    let mut store = new_nonce_store();
    let asked = ChallengeRequest { username: "ann".to_string(), public_key: "k".to_string() };
    assert!(matches!(challenge(&mut store, &asked, &Lookup::Found("other".to_string())),
        Err(AppError::Unauthorized(m)) if m == "Public key mismatch"));
    assert!(matches!(challenge(&mut store, &asked, &Lookup::Missing),
        Err(AppError::NotFound(m)) if m == "User not registered"));
    let stored = Lookup::Found("k".to_string());
    assert!(challenge_at(&mut store, &asked, &stored, vec![1], "AQ==", 0).is_ok());
    let answer = VerifyRequest { username: "ann".to_string(), signature: "AAAA".to_string() };
    assert!(matches!(verify(&mut store, &answer, &stored),
        Err(AppError::Unauthorized(m)) if m == "Invalid signature"));
    assert!(matches!(store.take("ann", SECOND), Err(AppError::BadRequest(_))));
    let nonce = Ok(vec![1]);
    assert!(matches!(verify_answer("ann", &nonce, &Lookup::Missing, true, "t", "h"),
        Err(AppError::NotFound(m)) if m == "User not found"));
    assert!(matches!(verify_answer("ann", &nonce, &Lookup::Failed("db".to_string()), true, "t", "h"),
        Err(AppError::Internal(m)) if m == "db"));
}
