//! Bans.

use vstd::prelude::*;

verus! {

/// A ban.
#[derive(Debug, Clone)]
pub struct Ban {
    pub id: i64,
    pub username: String,
    pub banned_by: String,
    pub reason: Option<String>,
    pub banned_at: String,
}

/// A request to ban someone.
#[derive(Debug)]
pub struct BanRequest {
    pub reason: Option<String>,
}

} // verus!
