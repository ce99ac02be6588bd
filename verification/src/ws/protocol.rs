//! The messages of the live connection.

use vstd::prelude::*;

verus! {

/// What a client says.
#[derive(Debug)]
pub enum ClientMessage {
    Ping,
    SubscribeGroup { group_id: i64 },
    UnsubscribeGroup { group_id: i64 },
    Typing { group_id: i64 },
    Presence { state: String },
}

/// What the server answers.
#[derive(Debug, Clone)]
pub enum ServerMessage {
    Pong,
    InitComplete,
    Error { message: String },
}

} // verus!
