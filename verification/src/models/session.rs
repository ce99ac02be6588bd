//! Sessions and the requests that open them.

use vstd::prelude::*;

verus! {

/// A registered user.
#[derive(Debug, Clone)]
pub struct Session {
    pub id: i64,
    pub username: String,
    pub display_name: String,
    pub token: String,
    pub public_key: String,
    pub created_at: String,
    pub last_seen: String,
}

/// A request to register.
#[derive(Debug)]
pub struct RegisterRequest {
    pub username: String,
    pub display_name: String,
    pub public_key: String,
    pub password_hash: String,
}

/// A request for a nonce to sign.
#[derive(Debug)]
pub struct ChallengeRequest {
    pub username: String,
    pub public_key: String,
}

/// A signed nonce.
#[derive(Debug)]
pub struct VerifyRequest {
    pub username: String,
    pub signature: String,
}

} // verus!
